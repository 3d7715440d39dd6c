//! The errors of the filters. Each one is final: a filter computes on values
//! that are already in memory, so nothing is retried.

use vstd::prelude::*;
use vstd::string::StringExecFns;
use crate::filter::Filter;
use crate::document::{Json, Node};
use crate::text::{decimal, push_decimal};

verus! {

/// What was wrong with the kind of a filtered value.
#[derive(Clone, Copy, Debug, PartialEq, Eq)]
pub enum Shape {
    /// A path that is not a string.
    PathNotString,
    /// A property name that is not a string.
    PropertyNameNotString,
    /// A request body that is not an object.
    RequestBodyNotObject,
    /// A set of responses that is not an object.
    ResponsesNotObject,
    /// A list of tags that is not an array.
    TagsNotArray,
    /// A list of tags whose element at `index` is not a string.
    TagNotString { index: usize },
}

/// A named argument that a filter cannot do without.
#[derive(Clone, Copy, Debug, PartialEq, Eq)]
pub enum Argument {
    /// `method`, a string.
    Method,
    /// `required_list`, an array.
    RequiredList,
}

/// The two places where a schema is looked for.
#[derive(Clone, Copy, Debug, PartialEq, Eq)]
pub enum Container {
    RequestBody,
    Response,
}

/// Why a filter gave no result.
#[derive(Debug, PartialEq, Eq)]
pub enum FilterError {
    /// The filtered value is of the wrong kind.
    InvalidInputShape(Shape),
    /// A mandatory argument is absent, or is not of the kind it must have.
    MissingRequiredArgument { filter: Filter, argument: Argument },
    /// The method is none of get, post, put, delete, patch and head.
    UnsupportedMethod { method: String },
    /// The request body, or the chosen response, has no `content`.
    MissingContent(Container),
    /// Neither `application/json` nor the first media type carries a schema.
    NoUsableSchema(Container),
    /// The responses object has no entry.
    EmptyResponses,
}

/// The mathematical model of a [`FilterError`].
pub enum FilterErrorView {
    InvalidInputShape(Shape),
    MissingRequiredArgument { filter: Filter, argument: Argument },
    UnsupportedMethod { method: Seq<char> },
    MissingContent(Container),
    NoUsableSchema(Container),
    EmptyResponses,
}

impl View for FilterError {
    type V = FilterErrorView;

    open spec fn view(&self) -> FilterErrorView {
        match self {
            FilterError::InvalidInputShape(shape) => FilterErrorView::InvalidInputShape(*shape),
            FilterError::MissingRequiredArgument { filter, argument } => {
                FilterErrorView::MissingRequiredArgument { filter: *filter, argument: *argument }
            },
            FilterError::UnsupportedMethod { method } => FilterErrorView::UnsupportedMethod {
                method: method@,
            },
            FilterError::MissingContent(container) => FilterErrorView::MissingContent(*container),
            FilterError::NoUsableSchema(container) => FilterErrorView::NoUsableSchema(*container),
            FilterError::EmptyResponses => FilterErrorView::EmptyResponses,
        }
    }
}

/// The model of what a filter returns.
pub open spec fn result_view(r: Result<Node, FilterError>) -> Result<Json, FilterErrorView> {
    match r {
        Ok(value) => Ok(value@),
        Err(error) => Err(error@),
    }
}

impl Shape {
    /// The text that describes the fault.
    pub open spec fn message(self) -> Seq<char> {
        match self {
            Shape::PathNotString => "Path must be a string"@,
            Shape::PropertyNameNotString => "is_required filter expects property name as input string."@,
            Shape::RequestBodyNotObject => "Input to get_body_schema must be a valid requestBody object."@,
            Shape::ResponsesNotObject => "Input to response_body_schema must be a valid responses object."@,
            Shape::TagsNotArray => "tags_to_pipe_separated filter expects an array of strings as input."@,
            Shape::TagNotString { index } => "tags_to_pipe_separated filter expects all elements to be strings. Element at index "@
                + decimal(index as nat) + " is not a string."@,
        }
    }
}

impl Container {
    /// The name of the container in a message about its `content`.
    pub open spec fn owner(self) -> Seq<char> {
        match self {
            Container::RequestBody => "requestBody"@,
            Container::Response => "Response"@,
        }
    }

    /// The name of the container in a message about its schemas.
    pub open spec fn content_name(self) -> Seq<char> {
        match self {
            Container::RequestBody => "requestBody"@,
            Container::Response => "responses"@,
        }
    }
}

impl Argument {
    /// What a message says of the filter that lacks the argument.
    pub open spec fn demand(self) -> Seq<char> {
        match self {
            Argument::Method => " requires a 'method' argument"@,
            Argument::RequiredList => " filter requires 'required_list' argument, and it must be an array."@,
        }
    }
}

impl FilterErrorView {
    /// The text that describes the error.
    pub open spec fn message(self) -> Seq<char> {
        match self {
            FilterErrorView::InvalidInputShape(shape) => shape.message(),
            FilterErrorView::MissingRequiredArgument { filter, argument } => filter.spec_name()
                + argument.demand(),
            FilterErrorView::UnsupportedMethod { method } => "Unsupported HTTP method: '"@ + method
                + "'. Supported methods are: get, post, put, delete, patch, head"@,
            FilterErrorView::MissingContent(container) => container.owner()
                + " object is missing 'content' field."@,
            FilterErrorView::NoUsableSchema(container) => "Could not find a valid schema object within "@
                + container.content_name()
                + " content (checked application/json and first available type)."@,
            FilterErrorView::EmptyResponses => "Responses object is empty."@,
        }
    }
}

impl FilterError {
    /// The text that describes the error.
    pub fn message(&self) -> (r: String)
        ensures
            r@ == self@.message(),
    {
        match self {
            FilterError::InvalidInputShape(shape) => match shape {
                Shape::PathNotString => String::from_str("Path must be a string"),
                Shape::PropertyNameNotString => String::from_str(
                    "is_required filter expects property name as input string.",
                ),
                Shape::RequestBodyNotObject => String::from_str(
                    "Input to get_body_schema must be a valid requestBody object.",
                ),
                Shape::ResponsesNotObject => String::from_str(
                    "Input to response_body_schema must be a valid responses object.",
                ),
                Shape::TagsNotArray => String::from_str(
                    "tags_to_pipe_separated filter expects an array of strings as input.",
                ),
                Shape::TagNotString { index } => {
                    let mut r = String::from_str(
                        "tags_to_pipe_separated filter expects all elements to be strings. Element at index ",
                    );
                    push_decimal(&mut r, *index);
                    r.append(" is not a string.");
                    r
                },
            },
            FilterError::MissingRequiredArgument { filter, argument } => {
                let mut r = String::from_str(filter.name());
                match argument {
                    Argument::Method => r.append(" requires a 'method' argument"),
                    Argument::RequiredList => r.append(
                        " filter requires 'required_list' argument, and it must be an array.",
                    ),
                }
                r
            },
            FilterError::UnsupportedMethod { method } => {
                let mut r = String::from_str("Unsupported HTTP method: '");
                r.append(method.as_str());
                r.append("'. Supported methods are: get, post, put, delete, patch, head");
                r
            },
            FilterError::MissingContent(container) => {
                let mut r = match container {
                    Container::RequestBody => String::from_str("requestBody"),
                    Container::Response => String::from_str("Response"),
                };
                r.append(" object is missing 'content' field.");
                r
            },
            FilterError::NoUsableSchema(container) => {
                let mut r = String::from_str("Could not find a valid schema object within ");
                match container {
                    Container::RequestBody => r.append("requestBody"),
                    Container::Response => r.append("responses"),
                }
                r.append(" content (checked application/json and first available type).");
                r
            },
            FilterError::EmptyResponses => String::from_str("Responses object is empty."),
        }
    }
}

} // verus!
