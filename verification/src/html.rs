//! What this library takes from the HTML engine `html_editor`: its node tree,
//! its compiled selectors, and the search for the first element that a
//! selector matches. Nothing here is proved; each contract says what the
//! engine's source shows.
//!
//! The engine's parser is not called from this library. It stops the program
//! on some malformed texts, such as `<a b=>` or `<!-->`, and which texts
//! those are takes its whole source to say. Whoever has the text calls the
//! parser and hands over what it returned.

use crate::selector_text::engine_takes;
use html_editor::operation::{Queryable, Selector};
use html_editor::Node;
use vstd::prelude::*;

verus! {

/// `html_editor::Node`: one node of a parsed document, with everything below it.
#[verifier::external_type_specification]
#[verifier::external_body]
pub struct ExNode(Node);

/// `html_editor::operation::Selector`: a compiled CSS selector.
#[verifier::external_type_specification]
#[verifier::external_body]
pub struct ExSelector(Selector);

/// The selector that the engine compiles from `text`.
pub uninterp spec fn selector_of(text: Seq<char>) -> Selector;

/// The attributes of the first element at or below `node` that `selector`
/// matches, in the order in which the element holds them; `None` where the
/// selector matches no element.
pub uninterp spec fn first_match_attrs(node: Node, selector: Selector) -> Option<
    Seq<(Seq<char>, Seq<char>)>,
>;

/// An attribute list as plain text: each name with its value.
pub open spec fn attrs_text(attrs: Seq<(String, String)>) -> Seq<(Seq<char>, Seq<char>)> {
    Seq::new(attrs.len(), |i: int| (attrs[i].0@, attrs[i].1@))
}

/// `Selector::from(&str)`. The engine splits the text at `,`, `.` and `#` by
/// byte offsets that it also uses as character positions. Where the two
/// differ so far that a slice or a position falls outside the text it stops
/// the program; `engine_takes` leaves those texts out and no others. It
/// refuses no text, and the selector it gives depends on the text alone.
#[verifier::external_body]
pub(crate) fn compile_selector(text: &str) -> (selector: Selector)
    requires
        engine_takes(text@),
    ensures
        selector == selector_of(text@),
{
    Selector::from(text)
}

/// `Queryable::query` on a `Node`: a search through the node and all below
/// it, parents before children and children in order, for the first element
/// that the selector matches. Of that element the attribute list is handed
/// out, borrowed from the node. What is found depends on the node and the
/// selector alone.
#[verifier::external_body]
pub(crate) fn query_attrs<'a>(node: &'a Node, selector: &Selector) -> (found: Option<
    &'a Vec<(String, String)>,
>)
    ensures
        first_match_attrs(*node, *selector) == match found {
            Some(attrs) => Some(attrs_text(attrs@)),
            None => None,
        },
{
    node.query(selector).map(|element| &element.attrs)
}

/// `Node::clone`, derived: the copy holds what the node holds.
pub assume_specification[ <Node as Clone>::clone ](node: &Node) -> (copy: Node)
    ensures
        copy == *node,
;

} // verus!
