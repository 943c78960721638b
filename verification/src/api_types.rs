//! Request and response payload types of the remote attachment API.

pub mod get_attachments;
pub mod patch_attachment;
pub mod post_attachments;
