//! Request payload for replacing an existing attachment on a document.

use crate::encoding::json_quote;
use crate::encoding::json_string_of;
use vstd::prelude::*;
use vstd::string::StringExecFns;

verus! {

/// The attributes of the replaced attachment.
pub struct Attributes {
    pub title: String,
}

/// The replaced attachment item: it carries the existing attachment's
/// identifier.
pub struct Item {
    pub type_field: String,
    pub id: String,
    pub attributes: Attributes,
}

/// The `resource` part of a replace request: a single attachment item.
pub struct Resource {
    data: Item,
}

/// The JSON text of the replace payload for the existing attachment with
/// the given identifier and title.
pub open spec fn patch_resource_json(id: Seq<char>, title: Seq<char>) -> Seq<char> {
    "{\"data\":{\"type\":\"document_attachments\",\"id\":"@ + json_string_of(id)
        + ",\"attributes\":{\"title\":"@ + json_string_of(title) + "}}}"@
}

impl Resource {
    /// The item is of the fixed attachment type.
    pub closed spec fn inv(&self) -> bool {
        self.data.type_field@ == "document_attachments"@
    }

    /// The identifier of the replaced attachment.
    pub closed spec fn spec_id(&self) -> Seq<char> {
        self.data.id@
    }

    /// The title of the replaced attachment.
    pub closed spec fn spec_title(&self) -> Seq<char> {
        self.data.attributes.title@
    }

    /// Creates a resource object for replacing a single file.
    pub fn create(id: &str, name: &str) -> (r: Self)
        ensures
            r.inv(),
            r.spec_id() == id@,
            r.spec_title() == name@,
    {
        Resource {
            data: Item {
                type_field: String::from_str("document_attachments"),
                id: String::from_str(id),
                attributes: Attributes { title: String::from_str(name) },
            },
        }
    }

    /// Writes the payload as its JSON text.
    pub fn to_json(&self) -> (r: String)
        requires
            self.inv(),
        ensures
            r@ == patch_resource_json(self.spec_id(), self.spec_title()),
    {
        let mut r = String::from_str("{\"data\":{\"type\":\"document_attachments\",\"id\":");
        let id = json_quote(self.data.id.as_str());
        r.append(id.as_str());
        r.append(",\"attributes\":{\"title\":");
        let title = json_quote(self.data.attributes.title.as_str());
        r.append(title.as_str());
        r.append("}}}");
        proof {
            assert(r@ =~= patch_resource_json(self.spec_id(), self.spec_title()));
        }
        r
    }
}

} // verus!
