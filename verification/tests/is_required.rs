use generator::document::Node;
use generator::error::{Argument, FilterError, Shape};
use generator::filter::Filter;
use generator::is_required::is_required_filter;

fn text(s: &str) -> Node {
    Node::Text(s.to_string())
}

fn required_list(items: Vec<Node>) -> Vec<(String, Node)> {
    vec![("required_list".to_string(), Node::Array(items))]
}

#[test]
fn is_required_of_a_listed_property() {
    let args = required_list(vec![text("id"), text("name")]);
    assert_eq!(is_required_filter(&text("name"), &args).unwrap(), Node::Bool(true));
}

#[test]
fn is_required_of_an_unlisted_property() {
    let args = required_list(vec![text("id"), text("name")]);
    assert_eq!(is_required_filter(&text("age"), &args).unwrap(), Node::Bool(false));
    assert_eq!(is_required_filter(&text("age"), &required_list(vec![])).unwrap(), Node::Bool(false));
}

#[test]
fn is_required_ignores_elements_that_are_no_strings() {
    let args = required_list(vec![Node::Number("1".to_string()), Node::Null, text("id")]);
    assert_eq!(is_required_filter(&text("id"), &args).unwrap(), Node::Bool(true));
    assert_eq!(is_required_filter(&text("1"), &args).unwrap(), Node::Bool(false));
}

#[test]
fn is_required_of_a_name_that_is_no_string() {
    let args = required_list(vec![text("id")]);
    let error = is_required_filter(&Node::Bool(true), &args).unwrap_err();
    assert_eq!(error, FilterError::InvalidInputShape(Shape::PropertyNameNotString));
    assert_eq!(error.message(), "is_required filter expects property name as input string.");
}

#[test]
fn is_required_without_the_list() {
    let expected = FilterError::MissingRequiredArgument {
        filter: Filter::IsRequired,
        argument: Argument::RequiredList,
    };
    let error = is_required_filter(&text("id"), &Vec::new()).unwrap_err();
    assert_eq!(error, expected);
    assert_eq!(
        error.message(),
        "is_required filter requires 'required_list' argument, and it must be an array."
    );
    let args = vec![("required_list".to_string(), text("id"))];
    assert_eq!(is_required_filter(&text("id"), &args).unwrap_err(), expected);
}
