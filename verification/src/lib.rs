//! Synchronizes local files as attachments on remote documents of a
//! document-management service.
//!
//! The verified core covers the path-resolution algorithm (mapping a local
//! filesystem path to a configured logical document and a derived attachment
//! name), the paginated-listing accumulation, the existence check, and the
//! construction of the create and replace requests.  Transport, configuration
//! reading and the operator prompt are unverified glue around this library.

pub mod api_types;
pub mod documents;
pub mod encoding;
pub mod networking;
pub mod sync;

pub use documents::Document;
pub use documents::DocumentRegistry;
