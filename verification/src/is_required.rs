//! Whether a property is among the required ones of a schema.

use vstd::prelude::*;
use crate::document::{Json, Node, entries_view, items_view, lookup, lookup_entry};
use crate::error::{Argument, FilterError, FilterErrorView, Shape, result_view};
use crate::filter::Filter;
use crate::text::str_eq;

verus! {

/// The array argument `required_list`, if the arguments hold one.
pub open spec fn required_list_argument(args: Seq<(Seq<char>, Json)>) -> Option<Seq<Json>> {
    match lookup(args, "required_list"@) {
        Some(list) => list.as_array(),
        None => None,
    }
}

/// What the filter `is_required` returns.
pub open spec fn is_required_result(value: Json, args: Seq<(Seq<char>, Json)>) -> Result<
    Json,
    FilterErrorView,
> {
    match value.as_str() {
        None => Err(FilterErrorView::InvalidInputShape(Shape::PropertyNameNotString)),
        Some(name) => match required_list_argument(args) {
            None => Err(
                FilterErrorView::MissingRequiredArgument {
                    filter: Filter::IsRequired,
                    argument: Argument::RequiredList,
                },
            ),
            Some(list) => Ok(Json::Bool(list.contains(Json::Text(name)))),
        },
    }
}

/// Tells whether the string `name` is an element of `list`.
fn contains_name(list: &Vec<Node>, name: &str) -> (r: bool)
    ensures
        r == items_view(list@).contains(Json::Text(name@)),
{
    let mut i: usize = 0;
    while i < list.len()
        invariant
            i <= list.len(),
            forall|j: int| 0 <= j < i ==> items_view(list@)[j] != Json::Text(name@),
        decreases list.len() - i,
    {
        if let Some(element) = list[i].as_str() {
            if str_eq(element, name) {
                assert(items_view(list@)[i as int] == Json::Text(name@));
                return true;
            }
        }
        i = i + 1;
    }
    false
}

/// The filter `is_required`: whether the property name `value` is an element
/// of the argument `required_list`. The name must be a string, and
/// `required_list` must be there and be an array.
pub fn is_required_filter(value: &Node, args: &Vec<(String, Node)>) -> (r: Result<
    Node,
    FilterError,
>)
    ensures
        result_view(r) == is_required_result(value@, entries_view(args@)),
{
    let prop_name = match value.as_str() {
        Some(name) => name,
        None => {
            return Err(FilterError::InvalidInputShape(Shape::PropertyNameNotString));
        },
    };
    let required_list = match lookup_entry(args, "required_list") {
        Some(list) => list.as_array(),
        None => None,
    };
    match required_list {
        Some(list) => Ok(Node::Bool(contains_name(list, prop_name))),
        None => Err(
            FilterError::MissingRequiredArgument {
                filter: Filter::IsRequired,
                argument: Argument::RequiredList,
            },
        ),
    }
}

} // verus!
