use currency::Currency;
use html_editor::parse;
use paywall_rules::documents::DocumentAndPath;
use paywall_rules::paywall_config::{
    CurrencyWrapper, PaywallCondition, PaywallConfigV1, PaywallElement, PaywallPriceOption,
    PriceSource, PriceSourceExtractError,
};
use paywall_rules::utils::{HtmlAttributeSelector, HtmlAttributeSelectorError};

const PRICED_PAGE: &str =
    "<html><head></head><body><div id=test data-price=\"$1.25\"/></body></html>";

const PLAIN_PAGE: &str = "<html><head></head><body></body></html>";

fn request(html: &str, path: &str) -> DocumentAndPath {
    DocumentAndPath::new_from_html_and_path_str(parse(html), path).unwrap()
}

fn hard(amount: &str) -> PriceSource {
    PriceSource::Hard(CurrencyWrapper::parse(amount).unwrap())
}

fn from_attribute(text: &str) -> PriceSource {
    PriceSource::FromHtmlAttribute(HtmlAttributeSelector::parse(text).unwrap())
}

fn path_matches(pattern: &str) -> PaywallCondition {
    PaywallCondition::from_regex(pattern).unwrap()
}

fn dollars(text: &str) -> Currency {
    Currency::from_str(text).unwrap()
}

#[test]
fn test_paywall_element_simple() {
    let element: PaywallElement =
        PaywallElement::new(vec![path_matches("^/premium/.*$")], hard("$1.25"));

    let doc_and_path = DocumentAndPath::new_from_html_and_path_str(
        parse("<html><head></head><body><div id=test data-price=\"$1.25\"/></body></html>"),
        "/premium/test",
    )
    .unwrap();

    let currency_target = element.get_price(&doc_and_path).unwrap();
    let currency_expected = Currency::from_str("$1.25").unwrap();

    assert_eq!(currency_target, currency_expected);
}

#[test]
fn test_price_source_hard() {
    let price_source: PriceSource = PriceSource::Hard(CurrencyWrapper::parse("$1.25").unwrap());

    let doc_and_path = DocumentAndPath::new_from_html_and_path_str(
        parse("<html><head></head><body><div id=test data-price=\"$1.25\"/></body></html>"),
        "/test/test",
    )
    .unwrap();

    let currency_target = price_source.get_price(&doc_and_path).unwrap();
    let currency_expected = Currency::from_str("$1.25").unwrap();

    assert_eq!(currency_target, currency_expected);
}

#[test]
fn test_price_from_html_selector() {
    let price_source: PriceSource = PriceSource::FromHtmlAttribute(
        HtmlAttributeSelector::parse("div#test:::data-price").unwrap(),
    );

    let doc_and_path = DocumentAndPath::new_from_html_and_path_str(
        parse("<html><head></head><body><div id=test data-price=\"$1.25\"/></body></html>"),
        "/test/test",
    )
    .unwrap();

    let currency_target = price_source.get_price(&doc_and_path).unwrap();
    let currency_expected = Currency::from_str("$1.25").unwrap();

    assert_eq!(currency_target, currency_expected);
}

#[test]
fn test_premium_path_is_priced_and_free_path_is_not() {
    let element = PaywallElement::new(vec![path_matches("^/premium/.*$")], hard("$1.25"));
    match element.get_price(&request(PLAIN_PAGE, "/premium/test")) {
        PaywallPriceOption::Price(amount) => assert_eq!(amount, dollars("$1.25")),
        _ => panic!(),
    }
    match element.get_price(&request(PLAIN_PAGE, "/free/test")) {
        PaywallPriceOption::ConditionsNotMet => {}
        _ => panic!(),
    }
}

#[test]
fn test_price_from_attribute_without_conditions() {
    let element = PaywallElement::new(Vec::new(), from_attribute("div#test:::data-price"));
    match element.get_price(&request(PRICED_PAGE, "/any")) {
        PaywallPriceOption::Price(amount) => assert_eq!(amount, dollars("$1.25")),
        _ => panic!(),
    }
    match element.get_price(&request(PLAIN_PAGE, "/any")) {
        PaywallPriceOption::PriceParsingError(message) => assert_eq!(
            message,
            "HtmlAttributeSelectorError: No HTML element found matching the selector"
        ),
        _ => panic!(),
    }
}

#[test]
fn test_no_conditions_never_gives_conditions_not_met() {
    let pages = [
        PRICED_PAGE,
        PLAIN_PAGE,
        "<div id=test></div>",
        "<div id=test data-price=\"1-2\"></div>",
    ];
    let sources = ["div#test:::data-price", "p:::x", ":::"];
    for page in pages {
        for source in sources {
            let element = PaywallElement::new(Vec::new(), from_attribute(source));
            match element.get_price(&request(page, "/any")) {
                PaywallPriceOption::ConditionsNotMet => panic!(),
                _ => {}
            }
        }
        let element = PaywallElement::new(Vec::new(), hard("$2"));
        match element.get_price(&request(page, "/any")) {
            PaywallPriceOption::Price(amount) => assert_eq!(amount, dollars("$2")),
            _ => panic!(),
        }
    }
}

#[test]
fn test_failed_condition_hides_a_failing_price_source() {
    let element = PaywallElement::new(
        vec![path_matches("^/premium/")],
        from_attribute("div#missing:::data-price"),
    );
    match element.get_price(&request(PLAIN_PAGE, "/free")) {
        PaywallPriceOption::ConditionsNotMet => {}
        _ => panic!(),
    }
    match element.get_price(&request(PLAIN_PAGE, "/premium/a")) {
        PaywallPriceOption::PriceParsingError(_) => {}
        _ => panic!(),
    }
}

#[test]
fn test_every_condition_must_hold() {
    let conditions = |first: &str, second: &str| {
        vec![path_matches(first), PaywallCondition::from_css_selector(second)]
    };
    let page = request(PRICED_PAGE, "/premium/a");
    let both = PaywallElement::new(conditions("^/premium/", "div#test"), hard("$1"));
    let path_only = PaywallElement::new(conditions("^/premium/", "div#other"), hard("$1"));
    let selector_only = PaywallElement::new(conditions("^/free/", "div#test"), hard("$1"));
    let neither = PaywallElement::new(conditions("^/free/", "div#other"), hard("$1"));
    assert!(matches!(both.get_price(&page), PaywallPriceOption::Price(_)));
    assert!(matches!(path_only.get_price(&page), PaywallPriceOption::ConditionsNotMet));
    assert!(matches!(selector_only.get_price(&page), PaywallPriceOption::ConditionsNotMet));
    assert!(matches!(neither.get_price(&page), PaywallPriceOption::ConditionsNotMet));
}

#[test]
fn test_hard_price_ignores_the_document() {
    let source = hard("$9.99");
    for page in [PRICED_PAGE, PLAIN_PAGE, "<p></p>"] {
        assert_eq!(source.get_price(&request(page, "/a")).unwrap(), dollars("$9.99"));
    }
}

#[test]
fn test_attribute_price_errors_are_carried_unchanged() {
    let source = from_attribute("div#test:::data-price");
    match source.get_price(&request(PLAIN_PAGE, "/a")) {
        Err(PriceSourceExtractError::HtmlAttributeSelectorError(
            HtmlAttributeSelectorError::ElementNotFound,
        )) => {}
        _ => panic!(),
    }
    match source.get_price(&request("<div id=test></div>", "/a")) {
        Err(PriceSourceExtractError::HtmlAttributeSelectorError(
            HtmlAttributeSelectorError::AttributeNotFound(name),
        )) => assert_eq!(name, "data-price"),
        _ => panic!(),
    }
    match source.get_price(&request("<div id=test data-price=\"1-2\"></div>", "/a")) {
        Err(PriceSourceExtractError::HtmlAttributeSelectorError(
            HtmlAttributeSelectorError::ConversionError { value, target_type },
        )) => {
            assert_eq!(value, "1-2");
            assert_eq!(target_type, "currency::Currency");
        }
        _ => panic!(),
    }
}

#[test]
fn test_attribute_price_with_too_many_trailing_digits() {
    let source = from_attribute("div#test:::data-price");
    let page = request("<div id=test data-price=\"$0.123456789012\"></div>", "/a");
    match source.get_price(&page) {
        Err(PriceSourceExtractError::HtmlAttributeSelectorError(
            HtmlAttributeSelectorError::ConversionError { value, .. },
        )) => assert_eq!(value, "$0.123456789012"),
        _ => panic!(),
    }
}

#[test]
fn test_price_source_error_text() {
    let error = PriceSourceExtractError::HtmlAttributeSelectorError(
        HtmlAttributeSelectorError::AttributeNotFound("data-price".to_string()),
    );
    assert_eq!(
        error.to_string(),
        "HtmlAttributeSelectorError: Attribute 'data-price' not found on the selected element"
    );
}

#[test]
fn test_price_parsing_error_carries_the_sentence() {
    let element = PaywallElement::new(Vec::new(), from_attribute("div#test:::data-price"));
    match element.get_price(&request("<div id=test data-price=\"1-2\"></div>", "/a")) {
        PaywallPriceOption::PriceParsingError(message) => {
            let cause = "Failed to convert attribute value '1-2' to type currency::Currency";
            assert_eq!(message, format!("HtmlAttributeSelectorError: {}", cause))
        }
        _ => panic!(),
    }
    match element.get_price(&request("<div id=test></div>", "/a")) {
        PaywallPriceOption::PriceParsingError(message) => assert_eq!(
            message,
            "HtmlAttributeSelectorError: Attribute 'data-price' not found on the selected element"
        ),
        _ => panic!(),
    }
}

#[test]
fn test_from_price() {
    match PaywallPriceOption::from_price(Ok(dollars("$3"))) {
        PaywallPriceOption::Price(amount) => assert_eq!(amount, dollars("$3")),
        _ => panic!(),
    }
    let error = PriceSourceExtractError::HtmlAttributeSelectorError(
        HtmlAttributeSelectorError::ElementNotFound,
    );
    match PaywallPriceOption::from_price(Err(error)) {
        PaywallPriceOption::PriceParsingError(message) => assert_eq!(
            message,
            "HtmlAttributeSelectorError: No HTML element found matching the selector"
        ),
        _ => panic!(),
    }
}

#[test]
fn test_unwrap_gives_a_copy_of_the_price() {
    let option = PaywallPriceOption::Price(dollars("$4.20"));
    assert_eq!(option.unwrap(), dollars("$4.20"));
    assert_eq!(option.unwrap(), dollars("$4.20"));
}

#[test]
fn test_first_applying_element_decides() {
    let premium = || PaywallElement::new(vec![path_matches("^/premium/")], hard("$5"));
    let any = || PaywallElement::new(Vec::new(), hard("$1"));
    let page = request(PLAIN_PAGE, "/premium/a");

    let config = PaywallConfigV1::new(vec![premium(), any()]);
    assert_eq!(config.get_price(&page).unwrap(), dollars("$5"));

    let config = PaywallConfigV1::new(vec![any(), premium()]);
    assert_eq!(config.get_price(&page).unwrap(), dollars("$1"));

    let free = request(PLAIN_PAGE, "/free/a");
    let config = PaywallConfigV1::new(vec![premium(), any()]);
    assert_eq!(config.get_price(&free).unwrap(), dollars("$1"));
}

#[test]
fn test_no_applying_element_is_not_paywalled() {
    let premium = PaywallElement::new(vec![path_matches("^/premium/")], hard("$5"));
    let archive = PaywallElement::new(vec![path_matches("^/archive/")], hard("$2"));
    let config = PaywallConfigV1::new(vec![premium, archive]);
    assert!(matches!(
        config.get_price(&request(PLAIN_PAGE, "/free")),
        PaywallPriceOption::ConditionsNotMet
    ));
    let empty = PaywallConfigV1::new(Vec::new());
    assert!(matches!(
        empty.get_price(&request(PLAIN_PAGE, "/premium/a")),
        PaywallPriceOption::ConditionsNotMet
    ));
}

#[test]
fn test_first_applying_element_decides_with_its_error() {
    let broken =
        PaywallElement::new(vec![path_matches("^/premium/")], from_attribute("p#none:::price"));
    let any = PaywallElement::new(Vec::new(), hard("$1"));
    let config = PaywallConfigV1::new(vec![broken, any]);
    match config.get_price(&request(PLAIN_PAGE, "/premium/a")) {
        PaywallPriceOption::PriceParsingError(message) => assert_eq!(
            message,
            "HtmlAttributeSelectorError: No HTML element found matching the selector"
        ),
        _ => panic!(),
    }
    assert_eq!(config.get_price(&request(PLAIN_PAGE, "/free")).unwrap(), dollars("$1"));
}
