//! Reading typed values out of a parsed document.

pub mod html_attribute_selector;

pub use html_attribute_selector::{
    HtmlAttributeSelector, HtmlAttributeSelectorError, HtmlAttributeSelectorFormatError,
};
