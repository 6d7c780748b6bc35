//! A CSS selector paired with an attribute name, written in configuration as
//! `<css-selector>:::<attribute-name>`.

use crate::html::{attrs_text, compile_selector, first_match_attrs, query_attrs, selector_of};
use crate::selector_text::{engine_takes, selector_engine_takes};
use html_editor::operation::Selector;
use html_editor::Node;
use vstd::prelude::*;
use vstd::string::StringExecFns;

verus! {

/// The three colons that part the selector from the attribute name stand at
/// positions `at`, `at + 1` and `at + 2` of `text`.
pub open spec fn delimiter_at(text: Seq<char>, at: int) -> bool {
    &&& 0 <= at
    &&& at + 3 <= text.len()
    &&& text[at] == ':'
    &&& text[at + 1] == ':'
    &&& text[at + 2] == ':'
}

/// `text` holds the delimiter somewhere.
pub open spec fn has_delimiter(text: Seq<char>) -> bool {
    exists|at: int| delimiter_at(text, at)
}

/// The delimiter stands at `at`, and nowhere before.
pub open spec fn first_delimiter_at(text: Seq<char>, at: int) -> bool {
    &&& delimiter_at(text, at)
    &&& forall|before: int| 0 <= before < at ==> !delimiter_at(text, before)
}

/// Where the first delimiter of `text` stands. Meaningful only where
/// `has_delimiter(text)`.
pub open spec fn delimiter_position(text: Seq<char>) -> int {
    choose|at: int| first_delimiter_at(text, at)
}

/// What stands before the first delimiter: the CSS selector.
pub open spec fn selector_part(text: Seq<char>) -> Seq<char> {
    text.subrange(0, delimiter_position(text))
}

/// What stands after the first delimiter: the attribute name. Later
/// delimiters belong to the name.
pub open spec fn attribute_part(text: Seq<char>) -> Seq<char> {
    text.subrange(delimiter_position(text) + 3, text.len() as int)
}

/// A text has at most one first delimiter, so `delimiter_position` names it.
pub proof fn lemma_first_delimiter_is_unique(text: Seq<char>, at: int)
    requires
        first_delimiter_at(text, at),
    ensures
        has_delimiter(text),
        delimiter_position(text) == at,
{
    let chosen = delimiter_position(text);
    assert(first_delimiter_at(text, chosen));
    if chosen < at {
        assert(!delimiter_at(text, chosen));
    }
    if at < chosen {
        assert(!delimiter_at(text, at));
    }
}

/// A text with a delimiter falls into exactly two parts around the first
/// one: the selector part, the delimiter and the attribute part, in this
/// order and with nothing shared, make up the text. The selector part
/// holds no delimiter; the attribute part may.
pub proof fn lemma_parts_make_up_the_text(text: Seq<char>)
    requires
        has_delimiter(text),
    ensures
        first_delimiter_at(text, delimiter_position(text)),
        selector_part(text) + seq![':', ':', ':'] + attribute_part(text) == text,
        selector_part(text).len() + 3 + attribute_part(text).len() == text.len(),
        !has_delimiter(selector_part(text)),
{
    let some = choose|at: int| delimiter_at(text, at);
    lemma_first_delimiter_exists(text, some);
    let at = delimiter_position(text);
    assert(selector_part(text) + seq![':', ':', ':'] + attribute_part(text) =~= text);
    assert forall|inner: int| !delimiter_at(selector_part(text), inner) by {
        if delimiter_at(selector_part(text), inner) {
            assert(delimiter_at(text, inner));
        }
    }
}

/// Where a text holds the delimiter at all, it holds a first one.
pub proof fn lemma_first_delimiter_exists(text: Seq<char>, at: int)
    requires
        delimiter_at(text, at),
    ensures
        exists|first: int| first_delimiter_at(text, first),
        first_delimiter_at(text, delimiter_position(text)),
    decreases at,
{
    if exists|before: int| 0 <= before < at && delimiter_at(text, before) {
        let before = choose|before: int| 0 <= before < at && delimiter_at(text, before);
        lemma_first_delimiter_exists(text, before);
    } else {
        assert(first_delimiter_at(text, at));
    }
}

/// Looks for the first delimiter in one pass over the characters.
pub fn find_delimiter(value: &str) -> (found: Option<usize>)
    ensures
        found matches Some(at) ==> first_delimiter_at(value@, at as int),
        found is None ==> !has_delimiter(value@),
{
    let length = value.unicode_len();
    // How many colons stand directly before the current character, up to two.
    let mut colons: usize = 0;
    let mut position: usize = 0;
    for c in it: value.chars()
        invariant
            it.seq() == value@,
            length == value@.len(),
            position == it.index(),
            colons <= 2,
            colons <= position,
            forall|k: int| position - colons <= k < position ==> value@[k] == ':',
            colons < 2 && colons < position ==> value@[position - colons - 1] != ':',
            forall|at: int| at + 3 <= position ==> !delimiter_at(value@, at),
    {
        if c == ':' {
            if colons == 2 {
                assert(delimiter_at(value@, position - 2));
                return Some(position - 2);
            }
            colons = colons + 1;
        } else {
            colons = 0;
        }
        position = position + 1;
    }
    assert(forall|at: int| !delimiter_at(value@, at));
    None
}

/// A compiled CSS selector and the name of the attribute to read from the
/// element it finds. It is tied to no document and can be used on many.
#[derive(Debug)]
pub struct HtmlAttributeSelector {
    html_selector: Selector,
    attribute_name: String,
}

/// Why a text was refused as a selector with an attribute name.
#[derive(Debug)]
pub enum HtmlAttributeSelectorFormatError {
    /// The text holds no `:::`; it is carried unchanged.
    MissingDelimiter(String),
}

/// Why no value could be read from a document.
#[derive(Debug)]
pub enum HtmlAttributeSelectorError {
    /// The selector matches no element of the document.
    ElementNotFound,
    /// The element found has no attribute of the name asked for.
    AttributeNotFound(String),
    /// The attribute's text cannot be read as the type asked for.
    ConversionError { value: String, target_type: String },
}

/// `HtmlAttributeSelectorError` with its texts as character sequences.
pub enum HtmlAttributeSelectorErrorView {
    ElementNotFound,
    AttributeNotFound(Seq<char>),
    ConversionError { value: Seq<char>, target_type: Seq<char> },
}

impl View for HtmlAttributeSelectorError {
    type V = HtmlAttributeSelectorErrorView;

    open spec fn view(&self) -> HtmlAttributeSelectorErrorView {
        match self {
            HtmlAttributeSelectorError::ElementNotFound => {
                HtmlAttributeSelectorErrorView::ElementNotFound
            },
            HtmlAttributeSelectorError::AttributeNotFound(name) => {
                HtmlAttributeSelectorErrorView::AttributeNotFound(name@)
            },
            HtmlAttributeSelectorError::ConversionError { value, target_type } => {
                HtmlAttributeSelectorErrorView::ConversionError {
                    value: value@,
                    target_type: target_type@,
                }
            },
        }
    }
}

impl HtmlAttributeSelectorErrorView {
    /// The sentence that reports the error.
    pub open spec fn message(self) -> Seq<char> {
        match self {
            HtmlAttributeSelectorErrorView::ElementNotFound => {
                "No HTML element found matching the selector"@
            },
            HtmlAttributeSelectorErrorView::AttributeNotFound(name) => {
                "Attribute '"@ + name + "' not found on the selected element"@
            },
            HtmlAttributeSelectorErrorView::ConversionError { value, target_type } => {
                "Failed to convert attribute value '"@ + value + "' to type "@ + target_type
            },
        }
    }
}

impl HtmlAttributeSelectorError {
    /// The sentence that reports the error.
    pub fn to_string(&self) -> (text: String)
        ensures
            text@ == self@.message(),
    {
        match self {
            HtmlAttributeSelectorError::ElementNotFound => String::from_str(
                "No HTML element found matching the selector",
            ),
            HtmlAttributeSelectorError::AttributeNotFound(name) => {
                let mut text = String::from_str("Attribute '");
                text.append(name.as_str());
                text.append("' not found on the selected element");
                text
            },
            HtmlAttributeSelectorError::ConversionError { value, target_type } => {
                let mut text = String::from_str("Failed to convert attribute value '");
                text.append(value.as_str());
                text.append("' to type ");
                text.append(target_type.as_str());
                text
            },
        }
    }
}

/// The attribute at `at` is the first of `attrs` that bears `name`.
pub open spec fn first_named_at(
    attrs: Seq<(Seq<char>, Seq<char>)>,
    name: Seq<char>,
    at: int,
) -> bool {
    &&& 0 <= at < attrs.len()
    &&& attrs[at].0 == name
    &&& forall|before: int| 0 <= before < at ==> attrs[before].0 != name
}

/// The value of the first attribute of `attrs` that bears `name`; `None`
/// where none does. Names are compared as they stand, case included.
pub open spec fn first_value(attrs: Seq<(Seq<char>, Seq<char>)>, name: Seq<char>) -> Option<
    Seq<char>,
> {
    if exists|at: int| first_named_at(attrs, name, at) {
        Some(attrs[choose|at: int| first_named_at(attrs, name, at)].1)
    } else {
        None
    }
}

/// What a lookup gives, from what the search for the element gave: a missing
/// element is reported before a missing attribute.
pub open spec fn lookup(found: Option<Seq<(Seq<char>, Seq<char>)>>, name: Seq<char>) -> Result<
    Seq<char>,
    HtmlAttributeSelectorErrorView,
> {
    match found {
        None => Err(HtmlAttributeSelectorErrorView::ElementNotFound),
        Some(attrs) => match first_value(attrs, name) {
            None => Err(HtmlAttributeSelectorErrorView::AttributeNotFound(name)),
            Some(value) => Ok(value),
        },
    }
}

/// What a conversion gives, from what the converter made of `value`: its
/// result, or an error that carries the text and the name of the type.
pub open spec fn conversion<T>(
    value: Seq<char>,
    target_type: Seq<char>,
    converted: Option<T>,
) -> Result<T, HtmlAttributeSelectorErrorView> {
    match converted {
        Some(result) => Ok(result),
        None => Err(HtmlAttributeSelectorErrorView::ConversionError { value, target_type }),
    }
}

/// The text of a lookup's result, with errors by their views.
pub open spec fn lookup_view(result: Result<String, HtmlAttributeSelectorError>) -> Result<
    Seq<char>,
    HtmlAttributeSelectorErrorView,
> {
    match result {
        Ok(value) => Ok(value@),
        Err(error) => Err(error@),
    }
}

/// A conversion's result, with errors by their views.
pub open spec fn conversion_view<T>(result: Result<T, HtmlAttributeSelectorError>) -> Result<
    T,
    HtmlAttributeSelectorErrorView,
> {
    match result {
        Ok(value) => Ok(value),
        Err(error) => Err(error@),
    }
}

/// A list has at most one first attribute of a name, so `first_value` reads it.
pub proof fn lemma_first_named_is_unique(
    attrs: Seq<(Seq<char>, Seq<char>)>,
    name: Seq<char>,
    at: int,
)
    requires
        first_named_at(attrs, name, at),
    ensures
        first_value(attrs, name) == Some(attrs[at].1),
{
    let chosen = choose|other: int| first_named_at(attrs, name, other);
    assert(first_named_at(attrs, name, chosen));
    if chosen < at {
        assert(attrs[chosen].0 != name);
    }
    if at < chosen {
        assert(attrs[at].0 != name);
    }
}

/// The order of the errors is fixed. Where no element was found, that is
/// reported, whatever attributes were asked for. Where an element was found
/// without the attribute, that is reported, whatever a conversion would
/// have given. Only the text of an attribute that was found is converted.
pub proof fn lemma_error_precedence<T>(
    found: Option<Seq<(Seq<char>, Seq<char>)>>,
    name: Seq<char>,
    target_type: Seq<char>,
    converted: Option<T>,
)
    ensures
        found is None ==> lookup(found, name) == Err::<Seq<char>, HtmlAttributeSelectorErrorView>(
            HtmlAttributeSelectorErrorView::ElementNotFound,
        ),
        found matches Some(attrs) && (forall|at: int| 0 <= at < attrs.len() ==> attrs[at].0 != name)
            ==> lookup(found, name) == Err::<Seq<char>, HtmlAttributeSelectorErrorView>(
            HtmlAttributeSelectorErrorView::AttributeNotFound(name),
        ),
        found matches Some(attrs) && (exists|at: int| 0 <= at < attrs.len() && attrs[at].0 == name)
            ==> lookup(found, name) is Ok,
        lookup(found, name) matches Ok(value) ==> (conversion(value, target_type, converted) is Err
            <==> converted is None),
{
    if let Some(attrs) = found {
        if exists|at: int| 0 <= at < attrs.len() && attrs[at].0 == name {
            let at = choose|at: int| 0 <= at < attrs.len() && attrs[at].0 == name;
            lemma_first_named_exists(attrs, name, at);
        }
    }
}

/// Where a list holds an attribute of a name at all, it holds a first one.
pub proof fn lemma_first_named_exists(
    attrs: Seq<(Seq<char>, Seq<char>)>,
    name: Seq<char>,
    at: int,
)
    requires
        0 <= at < attrs.len(),
        attrs[at].0 == name,
    ensures
        exists|first: int| first_named_at(attrs, name, first),
    decreases at,
{
    if exists|before: int| 0 <= before < at && attrs[before].0 == name {
        let before = choose|before: int| 0 <= before < at && attrs[before].0 == name;
        lemma_first_named_exists(attrs, name, before);
    } else {
        assert(first_named_at(attrs, name, at));
    }
}

/// Looks for the first attribute of `attrs` that bears `name`.
pub fn find_attribute(attrs: &Vec<(String, String)>, name: &String) -> (found: Option<usize>)
    ensures
        found matches Some(at) ==> first_named_at(attrs_text(attrs@), name@, at as int),
        found is None ==> forall|at: int|
            0 <= at < attrs.len() ==> attrs_text(attrs@)[at].0 != name@,
{
    let mut at: usize = 0;
    while at < attrs.len()
        invariant
            at <= attrs.len(),
            forall|before: int| 0 <= before < at ==> attrs_text(attrs@)[before].0 != name@,
        decreases attrs.len() - at,
    {
        if attrs[at].0 == *name {
            return Some(at);
        }
        at = at + 1;
    }
    None
}

/// Reads the attribute `name` from what the search for the element gave.
pub fn select_attribute(found: Option<&Vec<(String, String)>>, name: &String) -> (result: Result<
    String,
    HtmlAttributeSelectorError,
>)
    ensures
        lookup_view(result) == lookup(
            match found {
                Some(attrs) => Some(attrs_text(attrs@)),
                None => None,
            },
            name@,
        ),
{
    match found {
        None => Err(HtmlAttributeSelectorError::ElementNotFound),
        Some(attrs) => match find_attribute(attrs, name) {
            None => Err(HtmlAttributeSelectorError::AttributeNotFound(name.clone())),
            Some(at) => {
                proof {
                    lemma_first_named_is_unique(attrs_text(attrs@), name@, at as int);
                }
                Ok(attrs[at].1.clone())
            },
        },
    }
}

/// Turns what the converter made of `value` into the result of the read.
pub fn conversion_result<T>(
    value: String,
    target_type: &str,
    converted: Option<T>,
) -> (result: Result<T, HtmlAttributeSelectorError>)
    ensures
        conversion_view(result) == conversion(value@, target_type@, converted),
{
    match converted {
        Some(result) => Ok(result),
        None => Err(
            HtmlAttributeSelectorError::ConversionError {
                value,
                target_type: target_type.to_owned(),
            },
        ),
    }
}

impl HtmlAttributeSelector {
    /// The compiled selector.
    pub closed spec fn html_selector(&self) -> Selector {
        self.html_selector
    }

    /// The name of the attribute to read, as it was written.
    pub closed spec fn attribute_name(&self) -> Seq<char> {
        self.attribute_name@
    }

    /// The text of the attribute in `node`, or why there is none.
    pub open spec fn attribute_text(&self, node: Node) -> Result<
        Seq<char>,
        HtmlAttributeSelectorErrorView,
    > {
        lookup(first_match_attrs(node, self.html_selector()), self.attribute_name())
    }

    /// Reads `<css-selector>:::<attribute-name>`. The text is parted at its
    /// first `:::`; without one it is refused. The selector is compiled as it
    /// stands and the attribute name is kept as it stands, spaces included.
    ///
    /// On a few selectors beyond ASCII the selector engine stops the
    /// program. They are left out here; `can_parse` tells which they are.
    pub fn parse(value: &str) -> (result: Result<Self, HtmlAttributeSelectorFormatError>)
        requires
            has_delimiter(value@) ==> engine_takes(selector_part(value@)),
        ensures
            result is Ok <==> has_delimiter(value@),
            result matches Ok(selector) ==> {
                &&& selector.html_selector() == selector_of(selector_part(value@))
                &&& selector.attribute_name() == attribute_part(value@)
            },
            result matches Err(HtmlAttributeSelectorFormatError::MissingDelimiter(refused))
                ==> refused@ == value@,
    {
        match find_delimiter(value) {
            None => Err(HtmlAttributeSelectorFormatError::MissingDelimiter(value.to_owned())),
            Some(at) => {
                proof {
                    lemma_first_delimiter_is_unique(value@, at as int);
                }
                let length = value.unicode_len();
                let selector_text = value.substring_char(0, at);
                let attribute_name = value.substring_char(at + 3, length);
                Ok(
                    HtmlAttributeSelector {
                        html_selector: compile_selector(selector_text),
                        attribute_name: attribute_name.to_owned(),
                    },
                )
            },
        }
    }

    /// Whether `parse` takes `value`: every text without a delimiter, and
    /// every text whose selector part the selector engine compiles.
    pub fn can_parse(value: &str) -> (accepted: bool)
        ensures
            accepted == (has_delimiter(value@) ==> engine_takes(selector_part(value@))),
    {
        match find_delimiter(value) {
            None => true,
            Some(at) => {
                proof {
                    lemma_first_delimiter_is_unique(value@, at as int);
                }
                selector_engine_takes(value.substring_char(0, at))
            },
        }
    }

    /// The text of the attribute in `html_node`. The first element that the
    /// selector matches is looked at and no other; of its attributes, the
    /// first that bears the name.
    pub fn get_attribute_text(&self, html_node: &Node) -> (result: Result<
        String,
        HtmlAttributeSelectorError,
    >)
        ensures
            lookup_view(result) == self.attribute_text(*html_node),
    {
        select_attribute(query_attrs(html_node, &self.html_selector), &self.attribute_name)
    }

    /// Reads the attribute from `html_node` as a `T`. How a text becomes a
    /// `T` is for `convert` to say, which returns `None` for a text that it
    /// cannot read; `target_type` names `T` in the error.
    ///
    /// A missing element is reported before a missing attribute, and that
    /// before a text that cannot be read. `convert` is called once, on the
    /// text of the attribute, and only where the attribute was found.
    pub fn get_attribute<T, F: Fn(&str) -> Option<T>>(
        &self,
        html_node: &Node,
        target_type: &str,
        convert: F,
    ) -> (result: Result<T, HtmlAttributeSelectorError>)
        requires
            self.attribute_text(*html_node) matches Ok(value) ==> forall|text: &str|
                text@ == value ==> call_requires(convert, (text,)),
        ensures
            match self.attribute_text(*html_node) {
                Err(error) => conversion_view(result) == Err::<T, HtmlAttributeSelectorErrorView>(
                    error,
                ),
                Ok(value) => exists|text: &str, converted: Option<T>|
                    {
                        &&& text@ == value
                        &&& call_ensures(convert, (text,), converted)
                        &&& conversion_view(result) == conversion(value, target_type@, converted)
                    },
            },
    {
        match self.get_attribute_text(html_node) {
            Err(error) => Err(error),
            Ok(value) => {
                let converted = convert(value.as_str());
                conversion_result(value, target_type, converted)
            },
        }
    }
}

} // verus!
