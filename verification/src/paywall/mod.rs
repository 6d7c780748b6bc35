//! What is sent in answer to a request for a paywalled resource.

pub mod paywalled_element;

pub use paywalled_element::{PaywallResponse, PaywalledElement};
