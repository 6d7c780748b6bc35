//! Decides, for one requested document and the path it was requested at,
//! whether access has to be paid for and at what price.
//!
//! A policy is a list of elements. Each element pairs conditions on the
//! request with a source for the price: a fixed amount, or an attribute of
//! the document. Evaluating an element on a request gives a price, the
//! finding that the element does not apply, or the reason why the price
//! could not be resolved. Nothing is fetched, stored or remembered: the
//! outcome depends on the policy, the document and the path alone.
//!
//! The modules `html`, `pattern` and `money` hold what is taken on trust
//! from the HTML engine, the pattern engine and the amount type. All else is
//! proved against those contracts. `selector_text` tells which selector
//! texts the HTML engine compiles.

pub mod documents;
pub mod html;
pub mod money;
pub mod pattern;
pub mod paywall;
pub mod paywall_config;
pub mod selector_text;
pub mod utils;
