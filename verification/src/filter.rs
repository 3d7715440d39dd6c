//! The filters by name: the table from which a template engine is given its
//! filters.

use vstd::prelude::*;
use crate::body_schema::{
    request_body_schema_filter, request_body_schema_result, response_body_schema_filter,
    response_body_schema_result,
};
use crate::document::{Json, Node, entries_view};
use crate::error::{FilterError, FilterErrorView, result_view};
use crate::http_request::{
    http_request_builder_filter, http_request_builder_result, http_request_params_filter,
    http_request_params_result,
};
use crate::is_required::{is_required_filter, is_required_result};
use crate::path_to_func_name::{path_to_func_name_filter, path_to_func_name_result};
use crate::tags_to_pipe_separated::{tags_to_pipe_separated_filter, tags_to_pipe_separated_result};
use crate::to_ue_type::{cpp_type, to_ue_type_filter};

verus! {

/// A filter of the library.
#[derive(Clone, Copy, Debug, PartialEq, Eq)]
pub enum Filter {
    ToUeType,
    IsRequired,
    TagsToPipeSeparated,
    RequestBodySchema,
    ResponseBodySchema,
    PathToFuncName,
    HttpRequestBuilder,
    HttpRequestParams,
}

impl Filter {
    /// The name under which a template calls the filter.
    pub fn name(&self) -> (r: &'static str)
        ensures
            r@ == self.spec_name(),
    {
        match self {
            Filter::ToUeType => "to_ue_type",
            Filter::IsRequired => "is_required",
            Filter::TagsToPipeSeparated => "tags_to_pipe_separated",
            Filter::RequestBodySchema => "request_body_schema",
            Filter::ResponseBodySchema => "response_body_schema",
            Filter::PathToFuncName => "path_to_func_name",
            Filter::HttpRequestBuilder => "http_request_builder",
            Filter::HttpRequestParams => "http_request_params",
        }
    }

    /// The name under which a template calls the filter.
    pub open spec fn spec_name(&self) -> Seq<char> {
        match self {
            Filter::ToUeType => "to_ue_type"@,
            Filter::IsRequired => "is_required"@,
            Filter::TagsToPipeSeparated => "tags_to_pipe_separated"@,
            Filter::RequestBodySchema => "request_body_schema"@,
            Filter::ResponseBodySchema => "response_body_schema"@,
            Filter::PathToFuncName => "path_to_func_name"@,
            Filter::HttpRequestBuilder => "http_request_builder"@,
            Filter::HttpRequestParams => "http_request_params"@,
        }
    }
}

/// The filters that a renderer is given, in the order in which they are
/// registered.
pub open spec fn registered() -> Seq<Filter> {
    seq![
        Filter::ToUeType,
        Filter::IsRequired,
        Filter::TagsToPipeSeparated,
        Filter::RequestBodySchema,
        Filter::ResponseBodySchema,
        Filter::PathToFuncName,
        Filter::HttpRequestBuilder,
    ]
}

/// What a filter returns for a value and its arguments.
pub open spec fn filter_result(filter: Filter, value: Json, args: Seq<(Seq<char>, Json)>) -> Result<
    Json,
    FilterErrorView,
> {
    match filter {
        Filter::ToUeType => Ok(Json::Text(cpp_type(value))),
        Filter::IsRequired => is_required_result(value, args),
        Filter::TagsToPipeSeparated => tags_to_pipe_separated_result(value),
        Filter::RequestBodySchema => request_body_schema_result(value),
        Filter::ResponseBodySchema => response_body_schema_result(value),
        Filter::PathToFuncName => path_to_func_name_result(value, args),
        Filter::HttpRequestBuilder => http_request_builder_result(value, args),
        Filter::HttpRequestParams => http_request_params_result(value, args),
    }
}

/// The filters that a renderer is given, in the order in which they are
/// registered.
pub fn registered_filters() -> (r: Vec<Filter>)
    ensures
        r@ == registered(),
{
    let mut filters: Vec<Filter> = Vec::new();
    filters.push(Filter::ToUeType);
    filters.push(Filter::IsRequired);
    filters.push(Filter::TagsToPipeSeparated);
    filters.push(Filter::RequestBodySchema);
    filters.push(Filter::ResponseBodySchema);
    filters.push(Filter::PathToFuncName);
    filters.push(Filter::HttpRequestBuilder);
    assert(filters@ =~= registered());
    filters
}

/// Applies a filter to a value and its arguments.
pub fn apply_filter(filter: Filter, value: &Node, args: &Vec<(String, Node)>) -> (r: Result<
    Node,
    FilterError,
>)
    ensures
        result_view(r) == filter_result(filter, value@, entries_view(args@)),
{
    match filter {
        Filter::ToUeType => to_ue_type_filter(value, args),
        Filter::IsRequired => is_required_filter(value, args),
        Filter::TagsToPipeSeparated => tags_to_pipe_separated_filter(value, args),
        Filter::RequestBodySchema => request_body_schema_filter(value, args),
        Filter::ResponseBodySchema => response_body_schema_filter(value, args),
        Filter::PathToFuncName => path_to_func_name_filter(value, args),
        Filter::HttpRequestBuilder => http_request_builder_filter(value, args),
        Filter::HttpRequestParams => http_request_params_filter(value, args),
    }
}

/// Determinism: what a filter returns is fixed by the value and the
/// arguments that it is given. Two runs on one input, whatever the filter,
/// give the same node or the same error.
pub proof fn lemma_filter_deterministic(
    filter: Filter,
    value: Node,
    args: Vec<(String, Node)>,
    first: Result<Node, FilterError>,
    second: Result<Node, FilterError>,
)
    requires
        result_view(first) == filter_result(filter, value@, entries_view(args@)),
        result_view(second) == filter_result(filter, value@, entries_view(args@)),
    ensures
        result_view(first) == result_view(second),
        first matches Ok(node) ==> second matches Ok(other) && node@ == other@,
{
}

} // verus!
