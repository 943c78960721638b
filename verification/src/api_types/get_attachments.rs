//! Response types of the listing endpoint for a document's attachments.

use vstd::prelude::*;

verus! {

/// The links of one attachment record: its own endpoint and its content.
pub struct ContentLinks {
    pub self_field: String,
    pub content: String,
}

/// The mathematical value of [`ContentLinks`].
pub ghost struct ContentLinksView {
    pub self_field: Seq<char>,
    pub content: Seq<char>,
}

impl View for ContentLinks {
    type V = ContentLinksView;

    open spec fn view(&self) -> ContentLinksView {
        ContentLinksView { self_field: self.self_field@, content: self.content@ }
    }
}

/// One attachment record as the listing endpoint returns it.
pub struct Attachment {
    pub type_field: String,
    pub id: String,
    pub links: ContentLinks,
}

/// The mathematical value of [`Attachment`].
pub ghost struct AttachmentView {
    pub type_field: Seq<char>,
    pub id: Seq<char>,
    pub links: ContentLinksView,
}

impl View for Attachment {
    type V = AttachmentView;

    open spec fn view(&self) -> AttachmentView {
        AttachmentView { type_field: self.type_field@, id: self.id@, links: self.links@ }
    }
}

/// The pagination links of one listing response page.
pub struct PaginationLinks {
    pub self_field: String,
    pub first: String,
    pub prev: Option<String>,
    pub next: Option<String>,
    pub last: String,
}

/// One page of the listing response for a document's attachments: a run of
/// records, and pagination links whose `next` entry, when present, names
/// the page to fetch after this one.
pub struct Response {
    pub data: Vec<Attachment>,
    pub links: Option<PaginationLinks>,
}

impl Response {
    /// The link to the next page, if this page carries one.
    pub open spec fn next_link(&self) -> Option<Seq<char>> {
        match self.links {
            Some(l) => match l.next {
                Some(n) => Some(n@),
                None => None,
            },
            None => None,
        }
    }
}

} // verus!
