//! The answers that a paywalled resource can give.

use vstd::prelude::*;

verus! {

/// The answer to each kind of reader of a paywalled resource.
pub struct PaywalledElement {
    access_unregistered: PaywallResponse,
    access_registered: PaywallResponse,
    access_paid: PaywallResponse,
}

/// How a request is answered. How an answer is produced is not settled
/// here.
pub enum PaywallResponse {
    /// A page rendered from a template.
    HtmlTemplate(),
    /// A redirect to another page.
    HtmlRedirect(),
}

} // verus!
