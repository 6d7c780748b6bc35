//! The policy: elements that pair conditions with a source for the price,
//! and their evaluation on a request.

pub mod currency_wrapper;
pub mod paywall_condition;

pub use crate::documents::{DocumentAndPath, RequestableDoc, UrlPath, UrlPathError};
pub use currency_wrapper::{CurrencyWrapper, CurrencyWrapperError};
pub use paywall_condition::{PaywallCondition, PaywallConditionError};

use crate::money::{amount_read, read_amount};
use crate::utils::html_attribute_selector::{conversion, HtmlAttributeSelectorErrorView};
use crate::utils::{HtmlAttributeSelector, HtmlAttributeSelectorError};
use currency::Currency;
use vstd::prelude::*;
use vstd::string::StringExecFns;

verus! {

/// Where the price of an element comes from.
pub enum PriceSource {
    /// A fixed amount, whatever the document.
    Hard(CurrencyWrapper),
    /// The amount written in an attribute of the document.
    FromHtmlAttribute(HtmlAttributeSelector),
}

/// Why a price source gave no price.
#[derive(Debug)]
pub enum PriceSourceExtractError {
    /// The attribute could not be read; the cause is carried unchanged.
    HtmlAttributeSelectorError(HtmlAttributeSelectorError),
}

/// `PriceSourceExtractError` with its texts as character sequences.
pub enum PriceSourceExtractErrorView {
    HtmlAttributeSelectorError(HtmlAttributeSelectorErrorView),
}

impl View for PriceSourceExtractError {
    type V = PriceSourceExtractErrorView;

    open spec fn view(&self) -> PriceSourceExtractErrorView {
        match self {
            PriceSourceExtractError::HtmlAttributeSelectorError(cause) => {
                PriceSourceExtractErrorView::HtmlAttributeSelectorError(cause@)
            },
        }
    }
}

impl PriceSourceExtractErrorView {
    /// The sentence that reports the error.
    pub open spec fn message(self) -> Seq<char> {
        match self {
            PriceSourceExtractErrorView::HtmlAttributeSelectorError(cause) => {
                "HtmlAttributeSelectorError: "@ + cause.message()
            },
        }
    }
}

impl PriceSourceExtractError {
    /// The sentence that reports the error.
    pub fn to_string(&self) -> (text: String)
        ensures
            text@ == self@.message(),
    {
        match self {
            PriceSourceExtractError::HtmlAttributeSelectorError(cause) => {
                let mut text = String::from_str("HtmlAttributeSelectorError: ");
                text.append(cause.to_string().as_str());
                text
            },
        }
    }
}

/// The name under which an amount is reported as the type that a text
/// could not be read as.
pub open spec fn amount_type_name() -> Seq<char> {
    "currency::Currency"@
}

/// The result of resolving a price, with the error by its view.
pub open spec fn price_view(result: Result<Currency, PriceSourceExtractError>) -> Result<
    Currency,
    PriceSourceExtractErrorView,
> {
    match result {
        Ok(amount) => Ok(amount),
        Err(error) => Err(error@),
    }
}

impl PriceSource {
    /// The price that the source gives for `doc_and_path`. A fixed amount is
    /// given whatever the document. An attribute is looked up in the
    /// document and its text is read as an amount.
    pub open spec fn price(&self, doc_and_path: &DocumentAndPath) -> Result<
        Currency,
        PriceSourceExtractErrorView,
    > {
        match self {
            PriceSource::Hard(wrapper) => Ok(wrapper.currency),
            PriceSource::FromHtmlAttribute(selector) => match doc_and_path.document() {
                RequestableDoc::HtmlNode(node) => match selector.attribute_text(node) {
                    Err(cause) => Err(
                        PriceSourceExtractErrorView::HtmlAttributeSelectorError(cause),
                    ),
                    Ok(text) => match conversion(text, amount_type_name(), amount_read(text)) {
                        Ok(amount) => Ok(amount),
                        Err(cause) => Err(
                            PriceSourceExtractErrorView::HtmlAttributeSelectorError(cause),
                        ),
                    },
                },
            },
        }
    }

    /// Resolves the price for `doc_and_path`.
    pub fn get_price(&self, doc_and_path: &DocumentAndPath) -> (result: Result<
        Currency,
        PriceSourceExtractError,
    >)
        ensures
            price_view(result) == self.price(doc_and_path),
    {
        match self {
            PriceSource::Hard(wrapper) => Ok(wrapper.currency.clone()),
            PriceSource::FromHtmlAttribute(selector) => match doc_and_path.get_document() {
                RequestableDoc::HtmlNode(node) => {
                    match selector.get_attribute(node, "currency::Currency", read_amount) {
                        Ok(amount) => Ok(amount),
                        Err(cause) => Err(
                            PriceSourceExtractError::HtmlAttributeSelectorError(cause),
                        ),
                    }
                },
            },
        }
    }
}

/// What evaluating one element on one request gives.
pub enum PaywallPriceOption {
    /// The element applies, and this is its price.
    Price(Currency),
    /// The element does not apply.
    ConditionsNotMet,
    /// The element applies, but its price could not be resolved; the
    /// sentence that reports the cause is carried as text.
    PriceParsingError(String),
}

/// `PaywallPriceOption` with its text as a character sequence.
pub enum PaywallPriceOptionView {
    Price(Currency),
    ConditionsNotMet,
    PriceParsingError(Seq<char>),
}

impl View for PaywallPriceOption {
    type V = PaywallPriceOptionView;

    open spec fn view(&self) -> PaywallPriceOptionView {
        match self {
            PaywallPriceOption::Price(amount) => PaywallPriceOptionView::Price(*amount),
            PaywallPriceOption::ConditionsNotMet => PaywallPriceOptionView::ConditionsNotMet,
            PaywallPriceOption::PriceParsingError(message) => {
                PaywallPriceOptionView::PriceParsingError(message@)
            },
        }
    }
}

impl PaywallPriceOption {
    /// What an element that applies gives, from what its price source gave:
    /// the price, or the sentence that reports why there is none.
    pub open spec fn of_price(
        price: Result<Currency, PriceSourceExtractErrorView>,
    ) -> PaywallPriceOptionView {
        match price {
            Ok(amount) => PaywallPriceOptionView::Price(amount),
            Err(error) => PaywallPriceOptionView::PriceParsingError(error.message()),
        }
    }

    /// Turns what a price source gave into what the element gives. An error
    /// is kept as its sentence only.
    pub fn from_price(
        price: Result<Currency, PriceSourceExtractError>,
    ) -> (option: PaywallPriceOption)
        ensures
            option@ == Self::of_price(price_view(price)),
    {
        match price {
            Ok(amount) => PaywallPriceOption::Price(amount),
            Err(error) => PaywallPriceOption::PriceParsingError(error.to_string()),
        }
    }

    /// The price, of an option that holds one.
    pub fn unwrap(&self) -> (amount: Currency)
        requires
            self is Price,
        ensures
            amount == self->Price_0,
    {
        match self {
            PaywallPriceOption::Price(amount) => amount.clone(),
            _ => vstd::pervasive::unreached(),
        }
    }
}

/// One rule of the policy: conditions, all of which must hold, and the
/// source of the price to ask where they do. It does not change once built.
pub struct PaywallElement {
    paywall_conditions: Vec<PaywallCondition>,
    price_source: PriceSource,
}

impl PaywallElement {
    /// The conditions, in the order in which they are evaluated.
    pub closed spec fn conditions(&self) -> Seq<PaywallCondition> {
        self.paywall_conditions@
    }

    /// The source of the price.
    pub closed spec fn price_source(&self) -> PriceSource {
        self.price_source
    }

    /// The element applies to `doc_and_path`: every condition holds. An
    /// element without conditions applies to every request.
    pub open spec fn applies(&self, doc_and_path: &DocumentAndPath) -> bool {
        forall|at: int|
            0 <= at < self.conditions().len() ==> (#[trigger] self.conditions()[at]).holds(
                doc_and_path,
            )
    }

    /// What the element gives for `doc_and_path`: nothing where it does not
    /// apply, whatever its price source would give; else what comes of
    /// resolving the price.
    pub open spec fn outcome(&self, doc_and_path: &DocumentAndPath) -> PaywallPriceOptionView {
        if self.applies(doc_and_path) {
            PaywallPriceOption::of_price(self.price_source().price(doc_and_path))
        } else {
            PaywallPriceOptionView::ConditionsNotMet
        }
    }

    /// An element of the given conditions and price source.
    pub fn new(
        paywall_conditions: Vec<PaywallCondition>,
        price_source: PriceSource,
    ) -> (element: PaywallElement)
        ensures
            element.conditions() == paywall_conditions@,
            element.price_source() == price_source,
    {
        PaywallElement { paywall_conditions, price_source }
    }

    /// Evaluates the element on `doc_and_path`. The conditions are evaluated
    /// in order up to the first that does not hold; the price source is
    /// resolved only where all of them hold.
    pub fn get_price(&self, doc_and_path: &DocumentAndPath) -> (option: PaywallPriceOption)
        ensures
            option@ == self.outcome(doc_and_path),
    {
        let mut at: usize = 0;
        while at < self.paywall_conditions.len()
            invariant
                at <= self.paywall_conditions.len(),
                forall|before: int|
                    0 <= before < at ==> (#[trigger] self.paywall_conditions@[before]).holds(
                        doc_and_path,
                    ),
            decreases self.paywall_conditions.len() - at,
        {
            if !self.paywall_conditions[at].is_paywalled(doc_and_path) {
                assert(!self.conditions()[at as int].holds(doc_and_path));
                return PaywallPriceOption::ConditionsNotMet;
            }
            at = at + 1;
        }
        PaywallPriceOption::from_price(self.price_source.get_price(doc_and_path))
    }
}

/// An element without conditions never reports that its conditions are not
/// met: it gives a price, or the reason why its price could not be resolved.
pub proof fn lemma_no_conditions_always_applies(
    element: PaywallElement,
    doc_and_path: &DocumentAndPath,
)
    requires
        element.conditions().len() == 0,
    ensures
        element.applies(doc_and_path),
        element.outcome(doc_and_path) == PaywallPriceOption::of_price(
            element.price_source().price(doc_and_path),
        ),
        !(element.outcome(doc_and_path) is ConditionsNotMet),
{
}

/// One condition that does not hold decides the outcome: the element
/// reports that its conditions are not met, whatever its price source is and
/// whatever that source would give, an error included.
pub proof fn lemma_failed_condition_hides_price_source(
    element: PaywallElement,
    doc_and_path: &DocumentAndPath,
    failed: int,
)
    requires
        0 <= failed < element.conditions().len(),
        !element.conditions()[failed].holds(doc_and_path),
    ensures
        element.outcome(doc_and_path) == PaywallPriceOptionView::ConditionsNotMet,
{
}

/// The whole policy: its elements in the order in which they were declared.
/// The order matters: the first element that applies to a request decides.
pub struct PaywallConfigV1 {
    paths: Vec<PaywallElement>,
}

impl PaywallConfigV1 {
    /// The elements, in declared order.
    pub closed spec fn elements(&self) -> Seq<PaywallElement> {
        self.paths@
    }

    /// What the policy gives for `doc_and_path`: what its first element
    /// that applies gives.
    pub open spec fn outcome(&self, doc_and_path: &DocumentAndPath) -> PaywallPriceOptionView {
        first_outcome(self.elements(), doc_and_path)
    }

    /// A policy of the given elements.
    pub fn new(paths: Vec<PaywallElement>) -> (config: PaywallConfigV1)
        ensures
            config.elements() == paths@,
    {
        PaywallConfigV1 { paths }
    }

    /// Evaluates the policy on `doc_and_path`. The first element that
    /// applies decides: its price, or the reason why its price could not be
    /// resolved. Elements behind it are not looked at. Where no element
    /// applies the conditions are not met.
    pub fn get_price(&self, doc_and_path: &DocumentAndPath) -> (option: PaywallPriceOption)
        ensures
            option@ == self.outcome(doc_and_path),
    {
        let mut at: usize = 0;
        assert(self.paths@.skip(0) == self.paths@);
        while at < self.paths.len()
            invariant
                at <= self.paths.len(),
                self.outcome(doc_and_path) == first_outcome(
                    self.paths@.skip(at as int),
                    doc_and_path,
                ),
            decreases self.paths.len() - at,
        {
            let option = self.paths[at].get_price(doc_and_path);
            proof {
                let rest = self.paths@.skip(at as int);
                assert(rest[0] == self.paths@[at as int]);
                assert(rest.drop_first() == self.paths@.skip(at + 1));
            }
            match option {
                PaywallPriceOption::ConditionsNotMet => {},
                _ => {
                    return option;
                },
            }
            at = at + 1;
        }
        PaywallPriceOption::ConditionsNotMet
    }
}

/// What the first element of `elements` that applies to `doc_and_path`
/// gives; where none applies, that the conditions are not met.
pub open spec fn first_outcome(
    elements: Seq<PaywallElement>,
    doc_and_path: &DocumentAndPath,
) -> PaywallPriceOptionView
    decreases elements.len(),
{
    if elements.len() == 0 {
        PaywallPriceOptionView::ConditionsNotMet
    } else if elements[0].applies(doc_and_path) {
        elements[0].outcome(doc_and_path)
    } else {
        first_outcome(elements.drop_first(), doc_and_path)
    }
}

/// The order of the elements decides. An element that applies, with none
/// before it that does, gives the policy's outcome, whatever stands behind
/// it. A policy gives "conditions not met" exactly where none of its
/// elements applies.
pub proof fn lemma_first_applying_element_decides(
    elements: Seq<PaywallElement>,
    doc_and_path: &DocumentAndPath,
    at: int,
)
    requires
        0 <= at <= elements.len(),
        forall|before: int|
            0 <= before < at ==> !(#[trigger] elements[before]).applies(doc_and_path),
    ensures
        at < elements.len() && elements[at].applies(doc_and_path) ==> first_outcome(
            elements,
            doc_and_path,
        ) == elements[at].outcome(doc_and_path),
        at == elements.len() ==> first_outcome(elements, doc_and_path)
            == PaywallPriceOptionView::ConditionsNotMet,
        first_outcome(elements, doc_and_path) is ConditionsNotMet ==> forall|any: int|
            0 <= any < elements.len() ==> !(#[trigger] elements[any]).applies(doc_and_path),
    decreases elements.len(),
{
    if elements.len() > 0 {
        let rest = elements.drop_first();
        assert forall|before: int| 0 <= before < at - 1 implies !(#[trigger] rest[before]).applies(
            doc_and_path,
        ) by {
            assert(rest[before] == elements[before + 1]);
        }
        if at > 0 {
            lemma_first_applying_element_decides(rest, doc_and_path, at - 1);
            assert(at < elements.len() ==> rest[at - 1] == elements[at]);
        } else if !elements[0].applies(doc_and_path) {
            lemma_first_applying_element_decides(rest, doc_and_path, 0);
        }
        if first_outcome(elements, doc_and_path) is ConditionsNotMet {
            assert forall|any: int| 0 <= any < elements.len() implies !(
            #[trigger] elements[any]).applies(doc_and_path) by {
                if any > 0 {
                    assert(rest[any - 1] == elements[any]);
                }
            }
        }
    }
}

} // verus!
