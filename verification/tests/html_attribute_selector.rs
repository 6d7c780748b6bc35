use html_editor::{parse, Node};
use paywall_rules::utils::html_attribute_selector::{
    conversion_result, find_attribute, find_delimiter, select_attribute,
};
use paywall_rules::utils::{
    HtmlAttributeSelector, HtmlAttributeSelectorError, HtmlAttributeSelectorFormatError,
};

fn first_node(html: &str) -> Node {
    parse(html).unwrap()[0].clone()
}

fn to_u16(text: &str) -> Option<u16> {
    text.parse::<u16>().ok()
}

fn to_f32(text: &str) -> Option<f32> {
    text.parse::<f32>().ok()
}

fn never_called(_text: &str) -> Option<u16> {
    panic!("the converter was called")
}

#[test]
fn test_deserialize_html_attribute_selector_valid_input() {
    let selector = HtmlAttributeSelector::parse("div#test:::data-test");
    assert!(selector.is_ok());
}

#[test]
fn test_deserialize_html_attribute_selector_invalid_input() {
    let selector = HtmlAttributeSelector::parse("div#test:data-test");
    assert!(selector.is_err());
}

#[test]
fn test_get_attribute_success() {
    let selector = HtmlAttributeSelector::parse("div#test:::data-test").unwrap();
    let node = first_node(
        "<html><head></head><body><div id=\"test\" data-test=\"123\"/></body></html>",
    );

    let result: u16 = selector.get_attribute(&node, "u16", to_u16).unwrap();

    assert_eq!(result, 123);
}

#[test]
fn test_get_attribute_element_not_found() {
    let selector = HtmlAttributeSelector::parse("div#test:::data-test").unwrap();
    let node = first_node(
        "<html><head></head><body><div id=\"test123\" data-test=\"123\"/></body></html>",
    );

    let result = selector.get_attribute(&node, "u16", to_u16);

    match result {
        Err(HtmlAttributeSelectorError::ElementNotFound) => {}
        _ => panic!(),
    }
}

#[test]
fn test_get_attribute_attribute_not_found() {
    let selector = HtmlAttributeSelector::parse("div#test:::data-test").unwrap();
    let node = first_node(
        "<html><head></head><body><div id=\"test\" data-test-123=\"123\"/></body></html>",
    );

    let result = selector.get_attribute(&node, "u16", to_u16);

    match result {
        Err(HtmlAttributeSelectorError::AttributeNotFound(_)) => {}
        _ => panic!(),
    }
}

#[test]
fn test_get_attribute_conversion_impossible() {
    let selector = HtmlAttributeSelector::parse("div#test:::data-test").unwrap();
    let node = first_node(
        "<html><head></head><body><div id=\"test\" data-test=\"asdf\"/></body></html>",
    );

    let result = selector.get_attribute(&node, "f32", to_f32);

    match result {
        Err(HtmlAttributeSelectorError::ConversionError { value: v, target_type: t }) => {
            assert_eq!(v, "asdf");
            assert_eq!(t, "f32");
        }
        _ => panic!(),
    }
}

#[test]
fn test_find_delimiter_gives_the_first() {
    assert_eq!(find_delimiter("ab:::cd"), Some(2));
    assert_eq!(find_delimiter(":::"), Some(0));
    assert_eq!(find_delimiter("a::b:::c"), Some(4));
    assert_eq!(find_delimiter("a:::b:::c"), Some(1));
    assert_eq!(find_delimiter("a::::b"), Some(1));
    assert_eq!(find_delimiter("ab:::"), Some(2));
}

#[test]
fn test_find_delimiter_counts_characters() {
    assert_eq!(find_delimiter("ä:::x"), Some(1));
    assert_eq!(find_delimiter("日本語:::x"), Some(3));
}

#[test]
fn test_find_delimiter_without_one() {
    assert_eq!(find_delimiter(""), None);
    assert_eq!(find_delimiter(":"), None);
    assert_eq!(find_delimiter("::"), None);
    assert_eq!(find_delimiter("a::b::c"), None);
    assert_eq!(find_delimiter("a:b:c:"), None);
    assert_eq!(find_delimiter("div#test:data-test"), None);
}

#[test]
fn test_parse_fails_exactly_without_delimiter() {
    for text in ["", "div", "div:data", "div::data", "a::b::c", ": : :"] {
        match HtmlAttributeSelector::parse(text) {
            Err(HtmlAttributeSelectorFormatError::MissingDelimiter(refused)) => {
                assert_eq!(refused, text)
            }
            Ok(_) => panic!("{} was accepted", text),
        }
    }
    for text in [":::", "div:::", ":::data", "div:::data", "a:::b:::c", "a::::b"] {
        assert!(HtmlAttributeSelector::parse(text).is_ok(), "{} was refused", text);
    }
}

#[test]
fn test_parse_splits_at_the_first_delimiter() {
    let node = Node::new_element("p", vec![("b:::c", "later"), ("b", "sooner")], vec![]);
    let selector = HtmlAttributeSelector::parse("p:::b:::c").unwrap();
    assert_eq!(selector.get_attribute_text(&node).unwrap(), "later");

    let colon = Node::new_element("p", vec![(":b", "colon"), ("b", "plain")], vec![]);
    let selector = HtmlAttributeSelector::parse("p::::b").unwrap();
    assert_eq!(selector.get_attribute_text(&colon).unwrap(), "colon");
}

#[test]
fn test_parse_keeps_the_attribute_name_as_written() {
    let node = Node::new_element("p", vec![("data", "plain"), (" Data ", "spaced")], vec![]);
    let spaced = HtmlAttributeSelector::parse("p::: Data ").unwrap();
    assert_eq!(spaced.get_attribute_text(&node).unwrap(), "spaced");
    let upper = HtmlAttributeSelector::parse("p:::DATA").unwrap();
    match upper.get_attribute_text(&node) {
        Err(HtmlAttributeSelectorError::AttributeNotFound(name)) => assert_eq!(name, "DATA"),
        _ => panic!(),
    }
    let umlaut = Node::new_element("p", vec![("dätä", "x")], vec![]);
    let selector = HtmlAttributeSelector::parse("p:::dätä").unwrap();
    assert_eq!(selector.get_attribute_text(&umlaut).unwrap(), "x");
}

#[test]
fn test_parse_compiles_the_selector_part() {
    let node = first_node("<div><p class=\"a\" v=\"1\"></p><p class=\"b\" v=\"2\"></p></div>");
    let a = HtmlAttributeSelector::parse("p.a:::v").unwrap();
    let b = HtmlAttributeSelector::parse("p.b:::v").unwrap();
    assert_eq!(a.get_attribute_text(&node).unwrap(), "1");
    assert_eq!(b.get_attribute_text(&node).unwrap(), "2");
}

#[test]
fn test_unknown_selector_form_matches_nothing() {
    let node = first_node("<div><span v=\"1\"></span></div>");
    let selector = HtmlAttributeSelector::parse("div > span:::v").unwrap();
    match selector.get_attribute_text(&node) {
        Err(HtmlAttributeSelectorError::ElementNotFound) => {}
        _ => panic!(),
    }
}

#[test]
fn test_can_parse() {
    assert!(HtmlAttributeSelector::can_parse("div#test:::data-test"));
    assert!(HtmlAttributeSelector::can_parse("div:::dätä"));
    assert!(HtmlAttributeSelector::can_parse("no delimiter ä"));
    assert!(HtmlAttributeSelector::can_parse("ä without delimiter"));
    assert!(HtmlAttributeSelector::can_parse(":::"));
    assert!(HtmlAttributeSelector::can_parse("dív:::data"));
    assert!(HtmlAttributeSelector::can_parse("aé:::x"));
    assert!(HtmlAttributeSelector::can_parse("div.café:::x"));
    assert!(HtmlAttributeSelector::can_parse("aé.b:::ä:::ä"));
    assert!(!HtmlAttributeSelector::can_parse("ä:::ä"));
    assert!(!HtmlAttributeSelector::can_parse("a, é:::x"));
    assert!(!HtmlAttributeSelector::can_parse("aéé.b:::x"));
    assert!(!HtmlAttributeSelector::can_parse(".éé.a:::x"));
}

#[test]
fn test_selectors_beyond_ascii_are_compiled() {
    let node = Node::new_element(
        "div",
        vec![("class", "café"), ("x", "1")],
        vec![Node::new_element("aé", vec![("x", "2")], vec![])],
    );
    let by_class = HtmlAttributeSelector::parse("div.café:::x").unwrap();
    assert_eq!(by_class.get_attribute_text(&node).unwrap(), "1");
    let by_tag = HtmlAttributeSelector::parse("aé:::x").unwrap();
    assert_eq!(by_tag.get_attribute_text(&node).unwrap(), "2");
    let other = HtmlAttributeSelector::parse("div.cafe:::x").unwrap();
    match other.get_attribute_text(&node) {
        Err(HtmlAttributeSelectorError::ElementNotFound) => {}
        _ => panic!(),
    }
}

#[test]
fn test_the_first_matching_element_is_read() {
    let inner = "<p class=\"x\" v=\"outer\"><p class=\"x\" v=\"inner\"></p></p>";
    let next = "<p class=\"x\" v=\"next\"></p>";
    let node = first_node(&format!("<div>{}{}</div>", inner, next));
    let selector = HtmlAttributeSelector::parse(".x:::v").unwrap();
    assert_eq!(selector.get_attribute_text(&node).unwrap(), "outer");
}

#[test]
fn test_only_the_first_matching_element_is_read() {
    let node = first_node("<div><p class=\"x\"></p><p class=\"x\" v=\"second\"></p></div>");
    let selector = HtmlAttributeSelector::parse(".x:::v").unwrap();
    match selector.get_attribute_text(&node) {
        Err(HtmlAttributeSelectorError::AttributeNotFound(name)) => assert_eq!(name, "v"),
        _ => panic!(),
    }
}

#[test]
fn test_missing_element_comes_before_missing_attribute() {
    let node = first_node("<div id=\"other\" data-other=\"asdf\"></div>");
    let selector = HtmlAttributeSelector::parse("div#test:::data-test").unwrap();
    match selector.get_attribute(&node, "u16", never_called) {
        Err(HtmlAttributeSelectorError::ElementNotFound) => {}
        _ => panic!(),
    }
}

#[test]
fn test_missing_attribute_comes_before_conversion() {
    let node = first_node("<div id=\"test\" data-other=\"asdf\"></div>");
    let selector = HtmlAttributeSelector::parse("div#test:::data-test").unwrap();
    match selector.get_attribute(&node, "u16", never_called) {
        Err(HtmlAttributeSelectorError::AttributeNotFound(name)) => {
            assert_eq!(name, "data-test")
        }
        _ => panic!(),
    }
}

#[test]
fn test_missing_element_comes_before_conversion() {
    let node = first_node("<div id=\"other\" data-test=\"asdf\"></div>");
    let selector = HtmlAttributeSelector::parse("div#test:::data-test").unwrap();
    match selector.get_attribute(&node, "u16", to_u16) {
        Err(HtmlAttributeSelectorError::ElementNotFound) => {}
        _ => panic!(),
    }
}

#[test]
fn test_conversion_error_carries_text_and_type() {
    let node = first_node("<div id=\"test\" data-test=\"70000\"></div>");
    let selector = HtmlAttributeSelector::parse("div#test:::data-test").unwrap();
    match selector.get_attribute(&node, "u16", to_u16) {
        Err(HtmlAttributeSelectorError::ConversionError { value, target_type }) => {
            assert_eq!(value, "70000");
            assert_eq!(target_type, "u16");
        }
        _ => panic!(),
    }
}

#[test]
fn test_a_non_element_has_no_match() {
    let selector = HtmlAttributeSelector::parse("p:::v").unwrap();
    match selector.get_attribute_text(&Node::Text("p".to_string())) {
        Err(HtmlAttributeSelectorError::ElementNotFound) => {}
        _ => panic!(),
    }
}

#[test]
fn test_find_attribute() {
    let attrs = vec![
        ("a".to_string(), "1".to_string()),
        ("b".to_string(), "2".to_string()),
        ("b".to_string(), "3".to_string()),
        ("B".to_string(), "4".to_string()),
    ];
    assert_eq!(find_attribute(&attrs, &"a".to_string()), Some(0));
    assert_eq!(find_attribute(&attrs, &"b".to_string()), Some(1));
    assert_eq!(find_attribute(&attrs, &"B".to_string()), Some(3));
    assert_eq!(find_attribute(&attrs, &"c".to_string()), None);
    assert_eq!(find_attribute(&attrs, &"".to_string()), None);
    assert_eq!(find_attribute(&Vec::new(), &"a".to_string()), None);
}

#[test]
fn test_select_attribute() {
    let attrs = vec![
        ("a".to_string(), "1".to_string()),
        ("b".to_string(), "2".to_string()),
        ("b".to_string(), "3".to_string()),
    ];
    assert_eq!(select_attribute(Some(&attrs), &"b".to_string()).unwrap(), "2");
    assert_eq!(select_attribute(Some(&attrs), &"a".to_string()).unwrap(), "1");
    match select_attribute(Some(&attrs), &"c".to_string()) {
        Err(HtmlAttributeSelectorError::AttributeNotFound(name)) => assert_eq!(name, "c"),
        _ => panic!(),
    }
    match select_attribute(None, &"a".to_string()) {
        Err(HtmlAttributeSelectorError::ElementNotFound) => {}
        _ => panic!(),
    }
}

#[test]
fn test_conversion_result() {
    assert_eq!(conversion_result("12".to_string(), "u16", Some(12u16)).unwrap(), 12);
    match conversion_result::<u16>("x".to_string(), "u16", None) {
        Err(HtmlAttributeSelectorError::ConversionError { value, target_type }) => {
            assert_eq!(value, "x");
            assert_eq!(target_type, "u16");
        }
        _ => panic!(),
    }
}

#[test]
fn test_error_texts() {
    assert_eq!(
        HtmlAttributeSelectorError::ElementNotFound.to_string(),
        "No HTML element found matching the selector"
    );
    assert_eq!(
        HtmlAttributeSelectorError::AttributeNotFound("data-price".to_string()).to_string(),
        "Attribute 'data-price' not found on the selected element"
    );
    assert_eq!(
        HtmlAttributeSelectorError::ConversionError {
            value: "asdf".to_string(),
            target_type: "f32".to_string()
        }
        .to_string(),
        "Failed to convert attribute value 'asdf' to type f32"
    );
}

fn texts_over(alphabet: &[char], longest: usize) -> Vec<String> {
    let mut all = vec![String::new()];
    let mut last = vec![String::new()];
    for _ in 0..longest {
        let mut next = Vec::new();
        for text in &last {
            for c in alphabet {
                let mut longer = text.clone();
                longer.push(*c);
                next.push(longer);
            }
        }
        all.extend(next.iter().cloned());
        last = next;
    }
    all
}

#[test]
fn test_find_delimiter_on_all_short_texts() {
    for text in texts_over(&[':', 'a', 'é'], 8) {
        let expected = text.find(":::").map(|byte| text[..byte].chars().count());
        assert_eq!(find_delimiter(&text), expected, "{:?}", text);
    }
}

#[test]
fn test_parse_on_all_short_texts() {
    let node = Node::new_element("a", vec![("a", "x"), (":a", "y"), ("", "z")], vec![]);
    for text in texts_over(&[':', 'a'], 7) {
        let mut parts = text.splitn(2, ":::");
        let selector = parts.next().unwrap();
        match (parts.next(), HtmlAttributeSelector::parse(&text)) {
            (None, Err(HtmlAttributeSelectorFormatError::MissingDelimiter(refused))) => {
                assert_eq!(refused, text)
            }
            (Some(name), Ok(parsed)) => {
                let looked_up = parsed.get_attribute_text(&node);
                // The element is named `a`; the empty selector asks nothing of an element.
                if selector != "a" && !selector.is_empty() {
                    assert!(matches!(looked_up, Err(HtmlAttributeSelectorError::ElementNotFound)));
                } else if name == "a" {
                    assert_eq!(looked_up.unwrap(), "x");
                } else if name == ":a" {
                    assert_eq!(looked_up.unwrap(), "y");
                } else if name.is_empty() {
                    assert_eq!(looked_up.unwrap(), "z");
                } else {
                    match looked_up {
                        Err(HtmlAttributeSelectorError::AttributeNotFound(missing)) => {
                            assert_eq!(missing, name)
                        }
                        _ => panic!("{:?}", text),
                    }
                }
            }
            _ => panic!("{:?}", text),
        }
    }
}

#[test]
fn test_every_short_ascii_selector_is_compiled() {
    let node = Node::new_element("p", vec![("class", "c d"), ("id", "i"), ("v", "1")], vec![]);
    for selector in texts_over(&['p', 'c', '.', '#', ',', ' '], 5) {
        let text = format!("{}:::v", selector);
        assert!(HtmlAttributeSelector::can_parse(&text));
        let parsed = HtmlAttributeSelector::parse(&text).unwrap();
        match parsed.get_attribute_text(&node) {
            Ok(value) => assert_eq!(value, "1"),
            Err(HtmlAttributeSelectorError::ElementNotFound) => {}
            Err(_) => panic!("{:?}", selector),
        }
    }
}
