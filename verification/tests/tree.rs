//! Lookups on an element tree.

use firds::element::Element;
use firds::error::XmlError;
use firds::parse_utils::{child_or_none, text_or_none};

fn leaf(name: &str, text: &str) -> Element {
    Element { local_name: name.to_string(), text: text.to_string(), ..Default::default() }
}

fn node(name: &str, children: Vec<Element>) -> Element {
    Element { local_name: name.to_string(), children, ..Default::default() }
}

fn sample() -> Element {
    let mut amount = leaf("Amt", "100");
    amount.attributes = vec![
        ("Ccy".to_string(), "EUR".to_string()),
        ("Unit".to_string(), "1".to_string()),
        ("Ccy".to_string(), "USD".to_string()),
    ];
    node(
        "Root",
        vec![
            node("A", vec![node("B", vec![leaf("C", "deep")]), leaf("D", "second of A")]),
            amount,
            leaf("D", "first D"),
            leaf("D", "second D"),
        ],
    )
}

#[test]
fn find_child_takes_the_first_of_that_name() {
    let root = sample();
    assert_eq!(root.find_child("D"), Some(&leaf("D", "first D")));
    assert_eq!(root.find_child("Amt").map(|e| e.text.as_str()), Some("100"));
    assert_eq!(root.find_child("C"), None);
    assert_eq!(root.find_child("Root"), None);
    assert_eq!(root.find_child(""), None);
    assert_eq!(leaf("X", "").find_child("X"), None);
}

#[test]
fn get_child_reports_a_missing_element() {
    let root = sample();
    assert_eq!(root.get_child("D"), Ok(&leaf("D", "first D")));
    assert_eq!(root.get_child("Missing"), Err(XmlError::ElementNotFound));
    assert_eq!(root.child_text("D"), Ok("first D"));
    assert_eq!(root.child_text("d"), Err(XmlError::ElementNotFound));
}

#[test]
fn attributes_are_looked_up_by_name() {
    let root = sample();
    let amount = root.get_child("Amt").unwrap();
    assert_eq!(amount.find_attr("Unit"), Some(&"1".to_string()));
    assert_eq!(amount.find_attr("unit"), None);
    assert_eq!(amount.get_attr("Unit"), Ok(&"1".to_string()));
    assert_eq!(amount.get_attr("Missing"), Err(XmlError::AttributeNotFound));
    assert_eq!(root.get_attr("Ccy"), Err(XmlError::AttributeNotFound));
}

#[test]
fn the_later_of_two_attributes_with_one_name_counts() {
    let root = sample();
    let amount = root.get_child("Amt").unwrap();
    assert_eq!(amount.find_attr("Ccy"), Some(&"USD".to_string()));
}

#[test]
fn first_child() {
    let root = sample();
    assert_eq!(root.find_first_child().map(|e| e.local_name.as_str()), Some("A"));
    assert_eq!(root.get_first_child().map(|e| e.local_name.as_str()), Ok("A"));
    assert_eq!(leaf("X", "text").find_first_child(), None);
    assert_eq!(leaf("X", "text").get_first_child(), Err(XmlError::ElementNotFound));
}

#[test]
fn children_in_document_order() {
    let root = sample();
    let names: Vec<&str> = root.iter_children().iter().map(|e| e.local_name.as_str()).collect();
    assert_eq!(names, vec!["A", "Amt", "D", "D"]);
    assert_eq!(leaf("X", "").iter_children().len(), 0);
}

#[test]
fn text_and_name() {
    let root = sample();
    assert_eq!(root.name(), "Root");
    assert_eq!(root.text(), "");
    assert_eq!(root.get_child("Amt").unwrap().text(), "100");
}

#[test]
fn search_along_first_children() {
    let root = sample();
    assert_eq!(root.find_descendant("A", true).map(|e| e.children.len()), Some(2));
    assert_eq!(root.find_descendant("B", true).map(|e| e.children.len()), Some(1));
    assert_eq!(root.find_descendant("C", true), Some(&leaf("C", "deep")));
    assert_eq!(root.find_descendant("D", true), None);
    assert_eq!(root.find_descendant("Amt", true), None);
    assert_eq!(leaf("X", "").find_descendant("X", true), None);
}

#[test]
fn search_through_all_children_tests_no_name() {
    let root = sample();
    assert_eq!(root.find_descendant("A", false), None);
    assert_eq!(root.find_descendant("C", false), None);
    assert_eq!(root.find_descendant("D", false), None);
}

#[test]
fn child_and_text_of_an_element_that_may_be_absent() {
    let root = sample();
    assert_eq!(child_or_none(Some(&root), "D"), Some(&leaf("D", "first D")));
    assert_eq!(child_or_none(Some(&root), "Missing"), None);
    assert_eq!(child_or_none(None, "D"), None);
    assert_eq!(text_or_none(root.find_child("D")), Some("first D"));
    assert_eq!(text_or_none(Some(&root)), Some(""));
    assert_eq!(text_or_none(None), None);
}
