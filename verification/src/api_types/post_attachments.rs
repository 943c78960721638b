//! Request payload for creating a new attachment on a document.

use crate::encoding::json_quote;
use crate::encoding::json_string_of;
use vstd::prelude::*;
use vstd::string::StringExecFns;

verus! {

/// The attributes of one new attachment item.
pub struct Attributes {
    pub file_name: String,
    pub title: String,
}

/// One new attachment item.
pub struct Item {
    pub type_field: String,
    pub attributes: Attributes,
}

/// The `resource` part of a create request: a list holding one new
/// attachment item.
pub struct Resource {
    data: Vec<Item>,
}

/// The JSON text of the create payload for one new attachment with the
/// given file name and title.
pub open spec fn post_resource_json(file_name: Seq<char>, title: Seq<char>) -> Seq<char> {
    "{\"data\":[{\"type\":\"document_attachments\",\"attributes\":{\"fileName\":"@
        + json_string_of(file_name) + ",\"title\":"@ + json_string_of(title) + "}}]}"@
}

impl Resource {
    /// The payload carries exactly one item, of the fixed attachment type.
    pub closed spec fn inv(&self) -> bool {
        self.data@.len() == 1 && self.data@[0].type_field@ == "document_attachments"@
    }

    /// The file name of the single item.
    pub closed spec fn spec_file_name(&self) -> Seq<char> {
        self.data@[0].attributes.file_name@
    }

    /// The title of the single item.
    pub closed spec fn spec_title(&self) -> Seq<char> {
        self.data@[0].attributes.title@
    }

    /// Creates a resource object for uploading a single file.
    pub fn create(name: &str) -> (r: Self)
        ensures
            r.inv(),
            r.spec_file_name() == name@,
            r.spec_title() == name@,
    {
        let mut data: Vec<Item> = Vec::new();
        data.push(
            Item {
                type_field: String::from_str("document_attachments"),
                attributes: Attributes {
                    file_name: String::from_str(name),
                    title: String::from_str(name),
                },
            },
        );
        Resource { data }
    }

    /// Writes the payload as its JSON text.
    pub fn to_json(&self) -> (r: String)
        requires
            self.inv(),
        ensures
            r@ == post_resource_json(self.spec_file_name(), self.spec_title()),
    {
        let mut r = String::from_str(
            "{\"data\":[{\"type\":\"document_attachments\",\"attributes\":{\"fileName\":",
        );
        let file_name = json_quote(self.data[0].attributes.file_name.as_str());
        r.append(file_name.as_str());
        r.append(",\"title\":");
        let title = json_quote(self.data[0].attributes.title.as_str());
        r.append(title.as_str());
        r.append("}}]}");
        proof {
            assert(r@ =~= post_resource_json(self.spec_file_name(), self.spec_title()));
        }
        r
    }
}

} // verus!
