//! The attachment client's verified logic: URL paths, pagination
//! accumulation, the existence check, and the create and replace requests.

use crate::api_types::get_attachments::Attachment;
use crate::api_types::get_attachments::AttachmentView;
use crate::api_types::get_attachments::Response;
use crate::api_types::patch_attachment;
use crate::api_types::post_attachments;
use crate::documents::Document;
use crate::documents::DocumentView;
use crate::encoding::path_encoded;
use crate::encoding::percent_encode_path_segment;
use vstd::prelude::*;
use vstd::string::StringExecFns;

verus! {

/// The URL path of a document's attachment collection.
pub open spec fn collection_path(d: DocumentView) -> Seq<char> {
    "/projects/"@ + d.project + "/spaces/"@ + d.space + "/documents/"@ + d.name + "/attachments"@
}

/// The URL path of one attachment of a document: the collection path plus
/// the percent-encoded attachment name as one further segment.
pub open spec fn item_path(d: DocumentView, name: Seq<char>) -> Seq<char> {
    collection_path(d) + seq!['/'] + path_encoded(name)
}

/// Builds the URL path of a document's attachment collection.
pub fn attachments_collection_path(document: &Document) -> (r: String)
    ensures
        r@ == collection_path(document@),
{
    let mut r = String::from_str("/projects/");
    r.append(document.project.as_str());
    r.append("/spaces/");
    r.append(document.space.as_str());
    r.append("/documents/");
    r.append(document.name.as_str());
    r.append("/attachments");
    proof {
        assert(r@ =~= collection_path(document@));
    }
    r
}

/// Builds the URL path of one attachment, percent-encoding its name.
pub fn attachment_item_path(document: &Document, name: &str) -> (r: String)
    ensures
        r@ == item_path(document@, name@),
{
    let mut r = attachments_collection_path(document);
    r.append("/");
    let encoded = percent_encode_path_segment(name);
    r.append(encoded.as_str());
    proof {
        reveal_strlit("/");
        assert(r@ =~= item_path(document@, name@));
    }
    r
}

/// The record values of a run of records.
pub open spec fn records_view(s: Seq<Attachment>) -> Seq<AttachmentView> {
    s.map_values(|a: Attachment| a@)
}

/// The records of a run of pages: page by page, in order.
pub open spec fn flatten_pages(pages: Seq<Seq<AttachmentView>>) -> Seq<AttachmentView>
    decreases pages.len(),
{
    if pages.len() == 0 {
        Seq::empty()
    } else {
        flatten_pages(pages.drop_last()) + pages.last()
    }
}

/// Pagination accumulation is associative and order-preserving: the records
/// of one run of pages followed by another run are the records of the first
/// run followed by the records of the second.
pub proof fn lemma_pages_concat(ps: Seq<Seq<AttachmentView>>, qs: Seq<Seq<AttachmentView>>)
    ensures
        flatten_pages(ps + qs) == flatten_pages(ps) + flatten_pages(qs),
    decreases qs.len(),
{
    if qs.len() == 0 {
        assert(ps + qs =~= ps);
        assert(flatten_pages(ps + qs) =~= flatten_pages(ps) + flatten_pages(qs));
    } else {
        lemma_pages_concat(ps, qs.drop_last());
        assert((ps + qs).drop_last() =~= ps + qs.drop_last());
        assert((ps + qs).last() == qs.last());
        assert(flatten_pages(ps + qs) =~= flatten_pages(ps) + flatten_pages(qs));
    }
}

/// Accumulates the paginated listing of a document's attachments.  The walk
/// absorbs one fetched page at a time, keeping the server's order, and
/// carries the link that must be fetched next; it is done when a page
/// carries no next link.  A failed fetch abandons the walk, so partial
/// results are never returned.
pub struct PageWalk {
    pub records: Vec<Attachment>,
    pub next_url: Option<String>,
    pub pages: Ghost<Seq<Seq<AttachmentView>>>,
}

impl PageWalk {
    /// The records so far are exactly the absorbed pages' records in order.
    pub open spec fn wf(&self) -> bool {
        records_view(self.records@) == flatten_pages(self.pages@)
    }

    /// The link to fetch next, if the walk is not done.
    pub open spec fn next_link(&self) -> Option<Seq<char>> {
        match self.next_url {
            Some(u) => Some(u@),
            None => None,
        }
    }

    /// Whether the walk is finished: no next page remains.
    pub open spec fn done(&self) -> bool {
        self.next_url is None
    }

    /// Starts a walk that must first fetch the given URL.
    pub fn start(first_url: String) -> (r: Self)
        ensures
            r.wf(),
            r.pages@ == Seq::<Seq<AttachmentView>>::empty(),
            r.records@.len() == 0,
            r.next_link() == Some(first_url@),
    {
        let r = PageWalk {
            records: Vec::new(),
            next_url: Some(first_url),
            pages: Ghost(Seq::empty()),
        };
        proof {
            assert(records_view(r.records@) =~= flatten_pages(r.pages@));
        }
        r
    }

    /// Absorbs one fetched page: appends its records in the server's order
    /// and takes the page's next link as the page to fetch next.
    pub fn absorb(&mut self, page: Response)
        requires
            old(self).wf(),
            !old(self).done(),
        ensures
            final(self).wf(),
            final(self).pages@ == old(self).pages@.push(records_view(page.data@)),
            records_view(final(self).records@) == records_view(old(self).records@)
                + records_view(page.data@),
            final(self).next_link() == page.next_link(),
            page.next_link() is None ==> final(self).done(),
    {
        let ghost old_records: Seq<Attachment> = self.records@;
        let ghost page_records: Seq<Attachment> = page.data@;
        let mut page = page;
        self.records.append(&mut page.data);
        self.next_url = match page.links {
            Some(links) => links.next,
            None => None,
        };
        self.pages = Ghost(self.pages@.push(records_view(page_records)));
        proof {
            assert(records_view(self.records@) =~= records_view(old_records) + records_view(
                page_records,
            ));
            assert(self.pages@.drop_last() =~= old(self).pages@);
            assert(records_view(self.records@) =~= flatten_pages(self.pages@));
        }
    }
}

/// Checks whether an attachment with the given name is already listed for
/// the document: true exactly when some listed record's id equals the
/// document's attachment identifier for the name.
pub fn is_attachment_existing(document: &Document, name: &str, attachments: &Vec<Attachment>) -> (r:
    bool)
    ensures
        r == exists|i: int|
            0 <= i < attachments@.len() && attachments@[i].id@ == document@.attachment_id(name@),
{
    let id = document.get_attachment_id(name);
    let n = attachments.len();
    let mut i: usize = 0;
    while i < n
        invariant
            n == attachments@.len(),
            i <= n,
            id@ == document@.attachment_id(name@),
            forall|j: int| 0 <= j < i ==> attachments@[j].id@ != id@,
        decreases n - i,
    {
        if attachments[i].id == id {
            proof {
                assert(attachments@[i as int].id@ == document@.attachment_id(name@));
            }
            return true;
        }
        i += 1;
    }
    false
}

/// The HTTP verb of a sync request.
#[derive(Clone, Copy, Debug, PartialEq, Eq, Structural)]
pub enum HttpMethod {
    Post,
    Patch,
}

/// One planned request against the attachment API: everything the
/// transport needs besides the file's bytes.
pub struct HttpRequest {
    pub method: HttpMethod,
    pub url_path: String,
    pub resource_json: String,
    pub upload_file_name: String,
}

/// Whether `r` is the create request for attachment `name` on document `d`.
pub open spec fn is_create_request(r: HttpRequest, d: DocumentView, name: Seq<char>) -> bool {
    &&& r.method is Post
    &&& r.url_path@ == collection_path(d)
    &&& r.resource_json@ == post_attachments::post_resource_json(name, name)
    &&& r.upload_file_name@ == name
}

/// Whether `r` is the replace request for attachment `name` on document `d`.
pub open spec fn is_replace_request(r: HttpRequest, d: DocumentView, name: Seq<char>) -> bool {
    &&& r.method is Patch
    &&& r.url_path@ == item_path(d, name)
    &&& r.resource_json@ == patch_attachment::patch_resource_json(d.attachment_id(name), name)
    &&& r.upload_file_name@ == name
}

/// Builds the create request: a POST to the document's attachment
/// collection whose payload names the new attachment, uploading the file
/// under the attachment name.
pub fn post_attachment_request(document: &Document, name: &str) -> (r: HttpRequest)
    ensures
        is_create_request(r, document@, name@),
{
    let resource = post_attachments::Resource::create(name);
    HttpRequest {
        method: HttpMethod::Post,
        url_path: attachments_collection_path(document),
        resource_json: resource.to_json(),
        upload_file_name: String::from_str(name),
    }
}

/// Builds the replace request: a PATCH to the existing attachment's own
/// endpoint whose payload carries the attachment's identifier, uploading
/// the file under the attachment name.
pub fn patch_attachment_request(document: &Document, name: &str) -> (r: HttpRequest)
    ensures
        is_replace_request(r, document@, name@),
{
    let id = document.get_attachment_id(name);
    let resource = patch_attachment::Resource::create(id.as_str(), name);
    HttpRequest {
        method: HttpMethod::Patch,
        url_path: attachment_item_path(document, name),
        resource_json: resource.to_json(),
        upload_file_name: String::from_str(name),
    }
}

} // verus!
