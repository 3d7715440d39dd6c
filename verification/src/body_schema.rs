//! The schema of a request body and of the responses of an operation.
//!
//! Both go by one rule for a `content` node: the schema of `application/json`
//! is preferred, and the schema of the first media type is taken where
//! `application/json` offers none. Among responses the success codes 200 to
//! 204 are tried in that order; where none is there, the first response of
//! the document is taken, so the order of the document then decides.

use vstd::prelude::*;
use crate::document::{Json, Node, entries_view, lookup, lookup_entry};
use crate::error::{Container, FilterError, FilterErrorView, Shape, result_view};

verus! {

/// The first of two options that holds a value.
pub open spec fn or_else(first: Option<Json>, second: Option<Json>) -> Option<Json> {
    match first {
        Some(value) => Some(value),
        None => second,
    }
}

/// The `schema` of a media type node.
pub open spec fn media_schema(media: Option<Json>) -> Option<Json> {
    match media {
        Some(media) => media.get("schema"@),
        None => None,
    }
}

/// The first media type of a `content` node, in document order.
pub open spec fn first_media(content: Json) -> Option<Json> {
    match content {
        Json::Object(entries) => if entries.len() > 0 {
            Some(entries[0].1)
        } else {
            None
        },
        _ => None,
    }
}

/// The schema that a `content` node offers: that of `application/json` where
/// it has one, else that of the first media type.
pub open spec fn content_schema(content: Json) -> Option<Json> {
    or_else(media_schema(content.get("application/json"@)), media_schema(first_media(content)))
}

/// The schema of a container, given the `content` member that it may have.
pub open spec fn schema_of_content(content: Option<Json>, container: Container) -> Result<
    Json,
    FilterErrorView,
> {
    match content {
        None => Err(FilterErrorView::MissingContent(container)),
        Some(content) => match content_schema(content) {
            Some(schema) => Ok(schema),
            None => Err(FilterErrorView::NoUsableSchema(container)),
        },
    }
}

/// What the filter `request_body_schema` returns.
pub open spec fn request_body_schema_result(value: Json) -> Result<Json, FilterErrorView> {
    match value {
        Json::Object(_) => schema_of_content(value.get("content"@), Container::RequestBody),
        _ => Err(FilterErrorView::InvalidInputShape(Shape::RequestBodyNotObject)),
    }
}

/// The response of the first success code that the responses hold, where the
/// codes are tried in the order 200, 201, 202, 203, 204.
pub open spec fn success_response(responses: Seq<(Seq<char>, Json)>) -> Option<Json> {
    or_else(
        lookup(responses, "200"@),
        or_else(
            lookup(responses, "201"@),
            or_else(
                lookup(responses, "202"@),
                or_else(lookup(responses, "203"@), lookup(responses, "204"@)),
            ),
        ),
    )
}

/// The response whose schema is taken: that of the first success code, else
/// the first response in document order.
pub open spec fn selected_response(responses: Seq<(Seq<char>, Json)>) -> Option<Json> {
    or_else(
        success_response(responses),
        if responses.len() > 0 {
            Some(responses[0].1)
        } else {
            None
        },
    )
}

/// The schema for the responses given as entries.
pub open spec fn responses_schema(responses: Seq<(Seq<char>, Json)>) -> Result<
    Json,
    FilterErrorView,
> {
    match selected_response(responses) {
        None => Err(FilterErrorView::EmptyResponses),
        Some(response) => schema_of_content(response.get("content"@), Container::Response),
    }
}

/// What the filter `response_body_schema` returns.
pub open spec fn response_body_schema_result(value: Json) -> Result<Json, FilterErrorView> {
    match value {
        Json::Object(responses) => responses_schema(responses),
        _ => Err(FilterErrorView::InvalidInputShape(Shape::ResponsesNotObject)),
    }
}

/// The schema that a `content` node offers.
fn select_content_schema(content: &Node) -> (r: Option<&Node>)
    ensures
        match r {
            Some(schema) => content_schema(content@) == Some(schema@),
            None => content_schema(content@) is None,
        },
{
    if let Some(media) = content.get("application/json") {
        if let Some(schema) = media.get("schema") {
            return Some(schema);
        }
    }
    if let Some(entries) = content.as_object() {
        if entries.len() > 0 {
            return entries[0].1.get("schema");
        }
    }
    None
}

/// The schema of a container, given the `content` member that it may have.
fn select_schema(content: Option<&Node>, container: Container) -> (r: Result<Node, FilterError>)
    ensures
        result_view(r) == schema_of_content(
            match content {
                Some(content) => Some(content@),
                None => None,
            },
            container,
        ),
{
    match content {
        None => Err(FilterError::MissingContent(container)),
        Some(content) => match select_content_schema(content) {
            Some(schema) => Ok(schema.clone()),
            None => Err(FilterError::NoUsableSchema(container)),
        },
    }
}

/// The filter `request_body_schema`: the schema of the request body `value`.
/// It fails where the value is no object, where it has no `content`, and
/// where the content offers no schema.
pub fn request_body_schema_filter(value: &Node, args: &Vec<(String, Node)>) -> (r: Result<
    Node,
    FilterError,
>)
    ensures
        result_view(r) == request_body_schema_result(value@),
{
    if !value.is_object() {
        return Err(FilterError::InvalidInputShape(Shape::RequestBodyNotObject));
    }
    select_schema(value.get("content"), Container::RequestBody)
}

/// The response whose schema is taken.
fn select_response(responses: &Vec<(String, Node)>) -> (r: Option<&Node>)
    ensures
        match r {
            Some(response) => selected_response(entries_view(responses@)) == Some(
                response@,
            ),
            None => selected_response(entries_view(responses@)) is None,
        },
{
    if let Some(response) = lookup_entry(responses, "200") {
        return Some(response);
    }
    if let Some(response) = lookup_entry(responses, "201") {
        return Some(response);
    }
    if let Some(response) = lookup_entry(responses, "202") {
        return Some(response);
    }
    if let Some(response) = lookup_entry(responses, "203") {
        return Some(response);
    }
    if let Some(response) = lookup_entry(responses, "204") {
        return Some(response);
    }
    if responses.len() > 0 {
        Some(&responses[0].1)
    } else {
        None
    }
}

/// The filter `response_body_schema`: the schema of the responses `value`.
/// It fails where the value is no object or an empty one, where the chosen
/// response has no `content`, and where the content offers no schema.
pub fn response_body_schema_filter(value: &Node, args: &Vec<(String, Node)>) -> (r: Result<
    Node,
    FilterError,
>)
    ensures
        result_view(r) == response_body_schema_result(value@),
{
    let responses = match value.as_object() {
        Some(responses) => responses,
        None => {
            return Err(FilterError::InvalidInputShape(Shape::ResponsesNotObject));
        },
    };
    match select_response(responses) {
        Some(response) => select_schema(response.get("content"), Container::Response),
        None => Err(FilterError::EmptyResponses),
    }
}

/// Whether the responses hold one of the success codes.
pub open spec fn has_success_code(responses: Seq<(Seq<char>, Json)>) -> bool {
    success_response(responses) is Some
}

/// Priority of the success codes: two sets of responses that hold the same
/// response under every code, in whatever order, and that hold a success
/// code, give the same schema. Where `200` is among the codes, the response
/// under `200` is the one that is taken.
pub proof fn lemma_success_code_wins(
    responses: Seq<(Seq<char>, Json)>,
    reordered: Seq<(Seq<char>, Json)>,
)
    requires
        forall|code: Seq<char>| lookup(responses, code) == lookup(reordered, code),
        has_success_code(responses),
    ensures
        response_body_schema_result(Json::Object(responses)) == response_body_schema_result(
            Json::Object(reordered),
        ),
        lookup(responses, "200"@) is Some ==> selected_response(responses) == lookup(
            responses,
            "200"@,
        ),
{
}

/// Without a success code the first response of the document is taken.
pub proof fn lemma_first_response_fallback(responses: Seq<(Seq<char>, Json)>)
    requires
        !has_success_code(responses),
        responses.len() > 0,
    ensures
        selected_response(responses) == Some(responses[0].1),
        response_body_schema_result(Json::Object(responses)) == schema_of_content(
            responses[0].1.get("content"@),
            Container::Response,
        ),
{
}

} // verus!
