//! The per-file orchestration decisions: which request to send for a
//! resolved file, and the operator prompt shown before it.

use crate::documents::Document;
use crate::documents::DocumentView;
use crate::networking::is_create_request;
use crate::networking::is_replace_request;
use crate::networking::patch_attachment_request;
use crate::networking::post_attachment_request;
use crate::networking::HttpRequest;
use vstd::prelude::*;
use vstd::string::StringExecFns;

verus! {

/// Chooses the request for one file: replace when the attachment already
/// exists on the document, create when it does not.
pub fn plan_sync(document: &Document, name: &str, is_existing: bool) -> (r: HttpRequest)
    ensures
        is_existing ==> is_replace_request(r, document@, name@),
        !is_existing ==> is_create_request(r, document@, name@),
{
    if is_existing {
        patch_attachment_request(document, name)
    } else {
        post_attachment_request(document, name)
    }
}

/// The operator prompt for one file: it names the attachment and the
/// document's prefix and says whether the acknowledged operation uploads a
/// new attachment or overwrites the existing one.
pub open spec fn confirmation_message_spec(
    d: DocumentView,
    name: Seq<char>,
    is_existing: bool,
) -> Seq<char> {
    if is_existing {
        "Attachment "@ + name + " already exists in "@ + d.prefix()
            + ". Hit <Enter> to overwrite it."@
    } else {
        "Attachment "@ + name + " doesn't exist in "@ + d.prefix() + ". Hit <Enter> to upload it."@
    }
}

/// Builds the operator prompt shown before the create or replace request.
pub fn confirmation_message(document: &Document, name: &str, is_existing: bool) -> (r: String)
    ensures
        r@ == confirmation_message_spec(document@, name@, is_existing),
{
    let mut r = String::from_str("Attachment ");
    r.append(name);
    if is_existing {
        r.append(" already exists in ");
    } else {
        r.append(" doesn't exist in ");
    }
    let prefix = document.prefix();
    r.append(prefix.as_str());
    if is_existing {
        r.append(". Hit <Enter> to overwrite it.");
    } else {
        r.append(". Hit <Enter> to upload it.");
    }
    proof {
        assert(r@ =~= confirmation_message_spec(document@, name@, is_existing));
    }
    r
}

} // verus!
