//! The unit of evaluation: a document and the path it was requested at.

pub mod requestable_doc;
pub mod url_path;

pub use requestable_doc::{DocumentAndPath, DocumentAndPathError, RequestableDoc};
pub use url_path::{UrlPath, UrlPathError};
