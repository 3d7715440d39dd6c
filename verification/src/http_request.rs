//! The expression that builds the request of an operation.
//!
//! The URL is the path as a string literal. Where the operation has path or
//! query parameters, the query parameters are appended to the path as
//! `name={name}` pairs and the literal is formatted with one named argument
//! for each parameter, path parameters first. The method is one of six
//! tokens. A request body that is an object adds its content type, where it
//! names one, and the body.

use vstd::prelude::*;
use vstd::string::StringExecFns;
use crate::filter::Filter;
use crate::path_to_func_name::method_argument;
use crate::document::{Json, Node, entries_view, items_view, lookup, lookup_entry};
use crate::error::{Argument, FilterError, FilterErrorView, Shape, result_view};
use crate::text::{join, join_strings, str_eq, str_lowercase, strings_view};

verus! {

/// The token of a method, given the method in lower case.
pub open spec fn method_token(lowered: Seq<char>) -> Option<Seq<char>> {
    if lowered == "get"@ {
        Some("Get"@)
    } else if lowered == "post"@ {
        Some("Post"@)
    } else if lowered == "put"@ {
        Some("Put"@)
    } else if lowered == "delete"@ {
        Some("Delete"@)
    } else if lowered == "patch"@ {
        Some("Patch"@)
    } else if lowered == "head"@ {
        Some("Head"@)
    } else {
        None
    }
}

/// The token of a method, whatever its case, or the error that names it.
pub open spec fn http_method(method: Seq<char>) -> Result<Seq<char>, FilterErrorView> {
    match method_token(str_lowercase(method)) {
        Some(token) => Ok(token),
        None => Err(FilterErrorView::UnsupportedMethod { method }),
    }
}

/// A character as it stands inside a string literal: a backslash goes before a
/// backslash and before a double quote.
pub open spec fn escape_char(c: char) -> Seq<char> {
    if c == '\\' {
        seq!['\\', '\\']
    } else if c == '"' {
        seq!['\\', '"']
    } else {
        seq![c]
    }
}

/// A text as it stands inside a string literal.
pub open spec fn escape(s: Seq<char>) -> Seq<char>
    decreases s.len(),
{
    if s.len() == 0 {
        Seq::empty()
    } else {
        escape(s.drop_last()) + escape_char(s.last())
    }
}

/// The name of a parameter, if it is one of the location `location` and its
/// name is a string.
pub open spec fn parameter_name(parameter: Json, location: Seq<char>) -> Option<Seq<char>> {
    if parameter.get_str("in"@) == Some(location) {
        parameter.get_str("name"@)
    } else {
        None
    }
}

/// The names of the parameters of one location, in their order.
pub open spec fn names_in(parameters: Seq<Json>, location: Seq<char>) -> Seq<Seq<char>>
    decreases parameters.len(),
{
    if parameters.len() == 0 {
        Seq::empty()
    } else {
        let before = names_in(parameters.drop_last(), location);
        match parameter_name(parameters.last(), location) {
            Some(name) => before.push(name),
            None => before,
        }
    }
}

/// The names of the parameters of one location, where the list of parameters
/// may be absent.
pub open spec fn parameters_in(parameters: Option<Seq<Json>>, location: Seq<char>) -> Seq<
    Seq<char>,
> {
    match parameters {
        Some(parameters) => names_in(parameters, location),
        None => Seq::empty(),
    }
}

/// A query parameter as it is appended to the path.
pub open spec fn query_pair(name: Seq<char>) -> Seq<char> {
    name + "={"@ + name + "}"@
}

/// The named argument that binds a parameter to its own name.
pub open spec fn named_argument(name: Seq<char>) -> Seq<char> {
    "{\""@ + name + "\", "@ + name + "}"@
}

/// The template of the URL: the escaped path, and behind `?` the query pairs
/// joined by `&` where there are query parameters.
pub open spec fn url_template(path: Seq<char>, query_params: Seq<Seq<char>>) -> Seq<char> {
    if query_params.len() > 0 {
        escape(path) + "?"@ + join(query_params.map_values(|name: Seq<char>| query_pair(name)), "&"@)
    } else {
        escape(path)
    }
}

/// The expression of the URL.
pub open spec fn url_expression(
    path: Seq<char>,
    path_params: Seq<Seq<char>>,
    query_params: Seq<Seq<char>>,
) -> Seq<char> {
    if path_params.len() == 0 && query_params.len() == 0 {
        "TEXT(\""@ + escape(path) + "\")"@
    } else {
        "FString::Format(TEXT(\""@ + url_template(path, query_params) + "\"), "@
            + "FStringFormatNamedArguments{"@ + join(
            (path_params + query_params).map_values(|name: Seq<char>| named_argument(name)),
            ", "@,
        ) + "}"@ + ")"@
    }
}

/// The content type of a request body: `application/json` where its content
/// lists it, else the first media type that its content lists.
pub open spec fn content_type(request_body: Json) -> Option<Seq<char>> {
    match request_body.get("content"@) {
        Some(Json::Object(entries)) => if lookup(entries, "application/json"@) is Some {
            Some("application/json"@)
        } else if entries.len() > 0 {
            Some(entries[0].0)
        } else {
            None
        },
        _ => None,
    }
}

/// The calls that a request body adds to the expression.
pub open spec fn body_calls(request_body: Option<Json>) -> Seq<char> {
    match request_body {
        Some(Json::Object(entries)) => (match content_type(Json::Object(entries)) {
            Some(media_type) => ".With_ContentType(TEXT(\""@ + escape(media_type) + "\"))"@,
            None => Seq::empty(),
        }) + ".With_Body(ToBinary(RequestBody))"@,
        _ => Seq::empty(),
    }
}

/// The array argument `parameters`, if the arguments hold one.
pub open spec fn parameters_argument(args: Seq<(Seq<char>, Json)>) -> Option<Seq<Json>> {
    match lookup(args, "parameters"@) {
        Some(parameters) => parameters.as_array(),
        None => None,
    }
}

/// The expression that builds a request.
pub open spec fn request_expression(
    path: Seq<char>,
    method: Seq<char>,
    parameters: Option<Seq<Json>>,
    request_body: Option<Json>,
) -> Result<Seq<char>, FilterErrorView> {
    match http_method(method) {
        Err(error) => Err(error),
        Ok(token) => Ok(
            ".With_Url("@ + url_expression(
                path,
                parameters_in(parameters, "path"@),
                parameters_in(parameters, "query"@),
            ) + ")"@ + ".With_Method(EHttpMethod::"@ + token + ")"@ + body_calls(request_body),
        ),
    }
}

/// The parameters from which a request is constructed: the URL and the method.
pub open spec fn request_params(
    path: Seq<char>,
    method: Seq<char>,
    parameters: Option<Seq<Json>>,
) -> Result<Seq<char>, FilterErrorView> {
    match http_method(method) {
        Err(error) => Err(error),
        Ok(token) => Ok(
            url_expression(
                path,
                parameters_in(parameters, "path"@),
                parameters_in(parameters, "query"@),
            ) + ", EHttpMethod::"@ + token,
        ),
    }
}

/// A result that holds text, as a result that holds a string node.
pub open spec fn text_result(r: Result<Seq<char>, FilterErrorView>) -> Result<
    Json,
    FilterErrorView,
> {
    match r {
        Ok(text) => Ok(Json::Text(text)),
        Err(error) => Err(error),
    }
}

/// What a filter on a path returns that needs the argument `method`.
pub open spec fn path_filter_result(
    filter: Filter,
    value: Json,
    args: Seq<(Seq<char>, Json)>,
    outcome: spec_fn(Seq<char>, Seq<char>) -> Result<Seq<char>, FilterErrorView>,
) -> Result<Json, FilterErrorView> {
    match value.as_str() {
        None => Err(FilterErrorView::InvalidInputShape(Shape::PathNotString)),
        Some(path) => match method_argument(args) {
            None => Err(
                FilterErrorView::MissingRequiredArgument { filter, argument: Argument::Method },
            ),
            Some(method) => text_result(outcome(path, method)),
        },
    }
}

/// What the filter `http_request_builder` returns.
pub open spec fn http_request_builder_result(value: Json, args: Seq<(Seq<char>, Json)>) -> Result<
    Json,
    FilterErrorView,
> {
    path_filter_result(
        Filter::HttpRequestBuilder,
        value,
        args,
        |path: Seq<char>, method: Seq<char>|
            request_expression(
                path,
                method,
                parameters_argument(args),
                lookup(args, "request_body"@),
            ),
    )
}

/// What the filter `http_request_params` returns.
pub open spec fn http_request_params_result(value: Json, args: Seq<(Seq<char>, Json)>) -> Result<
    Json,
    FilterErrorView,
> {
    path_filter_result(
        Filter::HttpRequestParams,
        value,
        args,
        |path: Seq<char>, method: Seq<char>| request_params(path, method, parameters_argument(args)),
    )
}

/// The model of a result that holds text.
pub open spec fn text_view(r: Result<String, FilterError>) -> Result<Seq<char>, FilterErrorView> {
    match r {
        Ok(text) => Ok(text@),
        Err(error) => Err(error@),
    }
}

/// The token of a method that is given in lower case: one of `Get`, `Post`,
/// `Put`, `Delete`, `Patch` and `Head`, and none for any other text.
pub fn http_method_token(lowered: &str) -> (r: Option<&'static str>)
    ensures
        match r {
            Some(token) => method_token(lowered@) == Some(token@),
            None => method_token(lowered@) is None,
        },
{
    if str_eq(lowered, "get") {
        Some("Get")
    } else if str_eq(lowered, "post") {
        Some("Post")
    } else if str_eq(lowered, "put") {
        Some("Put")
    } else if str_eq(lowered, "delete") {
        Some("Delete")
    } else if str_eq(lowered, "patch") {
        Some("Patch")
    } else if str_eq(lowered, "head") {
        Some("Head")
    } else {
        None
    }
}

/// The token of a method, whatever its case. A method that is none of the six
/// is an error that holds the method as it was given.
pub fn convert_to_http_method(method: &str) -> (r: Result<&'static str, FilterError>)
    ensures
        match r {
            Ok(token) => http_method(method@) == Ok::<Seq<char>, FilterErrorView>(token@),
            Err(error) => http_method(method@) == Err::<Seq<char>, FilterErrorView>(error@),
        },
{
    let lowered = method.to_lowercase();
    match http_method_token(lowered.as_str()) {
        Some(token) => Ok(token),
        None => Err(FilterError::UnsupportedMethod { method: String::from_str(method) }),
    }
}

/// The text as it stands inside a string literal: every backslash and every
/// double quote gets a backslash before it.
pub fn escape_cpp_string(s: &str) -> (r: String)
    ensures
        r@ == escape(s@),
{
    let mut r = String::new();
    for c in it: s.chars()
        invariant
            it.seq() == s@,
            r@ == escape(s@.take(it.index())),
    {
        proof {
            assert(s@.take(it.index() + 1).drop_last() =~= s@.take(it.index()));
        }
        if c == '\\' {
            r.push('\\');
            r.push('\\');
        } else if c == '"' {
            r.push('\\');
            r.push('"');
        } else {
            r.push(c);
        }
    }
    proof {
        assert(s@.take(s@.len() as int) =~= s@);
    }
    r
}

/// The names of the parameters of one location.
fn extract_parameters(parameters: Option<&Vec<Node>>, location: &str) -> (r: Vec<String>)
    ensures
        strings_view(r@) == parameters_in(
            match parameters {
                Some(parameters) => Some(items_view(parameters@)),
                None => None,
            },
            location@,
        ),
{
    let mut names: Vec<String> = Vec::new();
    let parameters = match parameters {
        Some(parameters) => parameters,
        None => {
            assert(strings_view(names@) =~= Seq::empty());
            return names;
        },
    };
    let ghost all = items_view(parameters@);
    let mut i: usize = 0;
    assert(strings_view(names@) =~= Seq::empty());
    while i < parameters.len()
        invariant
            i <= parameters.len(),
            all == items_view(parameters@),
            strings_view(names@) == names_in(all.take(i as int), location@),
        decreases parameters.len() - i,
    {
        proof {
            assert(all.take(i + 1).drop_last() =~= all.take(i as int));
            assert(all.take(i + 1).last() == parameters@[i as int]@);
        }
        let parameter = &parameters[i];
        if let Some(in_type) = parameter.get_str("in") {
            if str_eq(in_type, location) {
                if let Some(name) = parameter.get_str("name") {
                    let ghost before = strings_view(names@);
                    names.push(String::from_str(name));
                    assert(strings_view(names@) =~= before.push(name@));
                }
            }
        }
        i = i + 1;
    }
    proof {
        assert(all.take(parameters.len() as int) =~= all);
    }
    names
}

/// The names of the path parameters: of those parameters whose `in` is
/// `path` and whose `name` is a string, in their order.
pub fn extract_path_parameters(parameters: Option<&Vec<Node>>) -> (r: Vec<String>)
    ensures
        strings_view(r@) == parameters_in(
            match parameters {
                Some(parameters) => Some(items_view(parameters@)),
                None => None,
            },
            "path"@,
        ),
{
    extract_parameters(parameters, "path")
}

/// The names of the query parameters: of those parameters whose `in` is
/// `query` and whose `name` is a string, in their order.
pub fn extract_query_parameters(parameters: Option<&Vec<Node>>) -> (r: Vec<String>)
    ensures
        strings_view(r@) == parameters_in(
            match parameters {
                Some(parameters) => Some(items_view(parameters@)),
                None => None,
            },
            "query"@,
        ),
{
    extract_parameters(parameters, "query")
}

/// The expression of the URL for a path and the names of its path and query
/// parameters.
pub fn build_url_expression(path: &str, path_params: &Vec<String>, query_params: &Vec<String>) -> (r:
    String)
    ensures
        r@ == url_expression(path@, strings_view(path_params@), strings_view(query_params@)),
{
    let escaped_path = escape_cpp_string(path);
    if path_params.len() == 0 && query_params.len() == 0 {
        let mut r = String::from_str("TEXT(\"");
        r.append(escaped_path.as_str());
        r.append("\")");
        return r;
    }
    let mut url_template = escaped_path;
    if query_params.len() > 0 {
        let mut pairs: Vec<String> = Vec::new();
        let ghost wanted = strings_view(query_params@).map_values(
            |name: Seq<char>| query_pair(name),
        );
        let mut i: usize = 0;
        while i < query_params.len()
            invariant
                i <= query_params.len(),
                wanted == strings_view(query_params@).map_values(
                    |name: Seq<char>| query_pair(name),
                ),
                strings_view(pairs@) =~= wanted.take(i as int),
            decreases query_params.len() - i,
        {
            let name = query_params[i].as_str();
            let mut pair = String::from_str(name);
            pair.append("={");
            pair.append(name);
            pair.append("}");
            let ghost before = strings_view(pairs@);
            pairs.push(pair);
            proof {
                assert(strings_view(pairs@) =~= before.push(pair@));
                assert(strings_view(query_params@)[i as int] == name@);
                assert(wanted.take(i + 1) =~= wanted.take(i as int).push(query_pair(name@)));
            }
            i = i + 1;
        }
        proof {
            assert(wanted.take(query_params.len() as int) =~= wanted);
        }
        let query_string = join_strings(&pairs, "&");
        url_template.append("?");
        url_template.append(query_string.as_str());
    }
    let mut entries: Vec<String> = Vec::new();
    let ghost names = strings_view(path_params@) + strings_view(query_params@);
    let ghost wanted = names.map_values(|name: Seq<char>| named_argument(name));
    let mut i: usize = 0;
    while i < path_params.len()
        invariant
            i <= path_params.len(),
            names == strings_view(path_params@) + strings_view(query_params@),
            wanted == names.map_values(|name: Seq<char>| named_argument(name)),
            strings_view(entries@) =~= wanted.take(i as int),
        decreases path_params.len() - i,
    {
        let entry = named_argument_of(path_params[i].as_str());
        let ghost before = strings_view(entries@);
        entries.push(entry);
        proof {
            assert(strings_view(entries@) =~= before.push(entry@));
            assert(names[i as int] == path_params@[i as int]@);
            assert(wanted.take(i + 1) =~= wanted.take(i as int).push(entry@));
        }
        i = i + 1;
    }
    let mut j: usize = 0;
    while j < query_params.len()
        invariant
            j <= query_params.len(),
            names == strings_view(path_params@) + strings_view(query_params@),
            wanted == names.map_values(|name: Seq<char>| named_argument(name)),
            strings_view(entries@) =~= wanted.take(path_params.len() + j),
        decreases query_params.len() - j,
    {
        let entry = named_argument_of(query_params[j].as_str());
        let ghost before = strings_view(entries@);
        entries.push(entry);
        proof {
            assert(strings_view(entries@) =~= before.push(entry@));
            assert(names[path_params.len() + j] == query_params@[j as int]@);
            assert(wanted.take(path_params.len() + j + 1) =~= wanted.take(
                path_params.len() + j,
            ).push(entry@));
        }
        j = j + 1;
    }
    proof {
        assert(wanted.take(path_params.len() + query_params.len()) =~= wanted);
    }
    let format_args = join_strings(&entries, ", ");
    let mut r = String::from_str("FString::Format(TEXT(\"");
    r.append(url_template.as_str());
    r.append("\"), ");
    r.append("FStringFormatNamedArguments{");
    r.append(format_args.as_str());
    r.append("}");
    r.append(")");
    r
}

/// The named argument that binds a parameter to its own name.
fn named_argument_of(name: &str) -> (r: String)
    ensures
        r@ == named_argument(name@),
{
    let mut r = String::from_str("{\"");
    r.append(name);
    r.append("\", ");
    r.append(name);
    r.append("}");
    r
}

/// The content type of a request body: `application/json` where its content
/// lists it, else the first media type that its content lists.
pub fn extract_content_type(request_body: &Node) -> (r: Option<String>)
    ensures
        match r {
            Some(media_type) => content_type(request_body@) == Some(media_type@),
            None => content_type(request_body@) is None,
        },
{
    let content = match request_body.get("content") {
        Some(content) => content,
        None => {
            return None;
        },
    };
    let entries = match content.as_object() {
        Some(entries) => entries,
        None => {
            return None;
        },
    };
    if lookup_entry(entries, "application/json").is_some() {
        return Some(String::from_str("application/json"));
    }
    if entries.len() > 0 {
        Some(entries[0].0.clone())
    } else {
        None
    }
}

/// The model of an optional node.
pub open spec fn option_view(value: Option<&Node>) -> Option<Json> {
    match value {
        Some(value) => Some(value@),
        None => None,
    }
}

/// The model of an optional list of nodes.
pub open spec fn option_items_view(items: Option<&Vec<Node>>) -> Option<Seq<Json>> {
    match items {
        Some(items) => Some(items_view(items@)),
        None => None,
    }
}

/// The expression that builds the request of an operation: the URL, the
/// method and, for a request body that is an object, its content type and the
/// body. It fails where the method is none of the six.
pub fn http_request_builder(
    path: &str,
    method: &str,
    parameters: Option<&Vec<Node>>,
    request_body: Option<&Node>,
) -> (r: Result<String, FilterError>)
    ensures
        text_view(r) == request_expression(
            path@,
            method@,
            option_items_view(parameters),
            option_view(request_body),
        ),
{
    let http_method = match convert_to_http_method(method) {
        Ok(token) => token,
        Err(error) => {
            return Err(error);
        },
    };
    let path_params = extract_path_parameters(parameters);
    let query_params = extract_query_parameters(parameters);
    let url_expr = build_url_expression(path, &path_params, &query_params);
    let mut r = String::from_str(".With_Url(");
    r.append(url_expr.as_str());
    r.append(")");
    r.append(".With_Method(EHttpMethod::");
    r.append(http_method);
    r.append(")");
    let ghost head = r@;
    if let Some(body) = request_body {
        if body.is_object() {
            if let Some(media_type) = extract_content_type(body) {
                let escaped = escape_cpp_string(media_type.as_str());
                r.append(".With_ContentType(TEXT(\"");
                r.append(escaped.as_str());
                r.append("\"))");
            }
            r.append(".With_Body(ToBinary(RequestBody))");
        }
    }
    proof {
        assert(r@ =~= head + body_calls(option_view(request_body)));
    }
    Ok(r)
}

/// The parameters from which a request is constructed: the expression of the
/// URL and the method. It fails where the method is none of the six.
pub fn http_request_params(path: &str, method: &str, parameters: Option<&Vec<Node>>) -> (r: Result<
    String,
    FilterError,
>)
    ensures
        text_view(r) == request_params(path@, method@, option_items_view(parameters)),
{
    let http_method = match convert_to_http_method(method) {
        Ok(token) => token,
        Err(error) => {
            return Err(error);
        },
    };
    let path_params = extract_path_parameters(parameters);
    let query_params = extract_query_parameters(parameters);
    let mut r = build_url_expression(path, &path_params, &query_params);
    r.append(", EHttpMethod::");
    r.append(http_method);
    Ok(r)
}

/// The string argument `method`.
fn get_method<'a>(args: &'a Vec<(String, Node)>) -> (r: Option<&'a str>)
    ensures
        match r {
            Some(method) => method_argument(entries_view(args@)) == Some(method@),
            None => method_argument(entries_view(args@)) is None,
        },
{
    match lookup_entry(args, "method") {
        Some(method) => method.as_str(),
        None => None,
    }
}

/// The array argument `parameters`.
fn get_parameters<'a>(args: &'a Vec<(String, Node)>) -> (r: Option<&'a Vec<Node>>)
    ensures
        option_items_view(r) == parameters_argument(entries_view(args@)),
{
    match lookup_entry(args, "parameters") {
        Some(parameters) => parameters.as_array(),
        None => None,
    }
}

/// The filter `http_request_builder`: the expression that builds the request
/// for the path `value`, from the arguments `method`, `parameters` and
/// `request_body`. The path must be a string and `method` a string argument;
/// the other two may be absent.
pub fn http_request_builder_filter(value: &Node, args: &Vec<(String, Node)>) -> (r: Result<
    Node,
    FilterError,
>)
    ensures
        result_view(r) == http_request_builder_result(value@, entries_view(args@)),
{
    let path = match value.as_str() {
        Some(path) => path,
        None => {
            return Err(FilterError::InvalidInputShape(Shape::PathNotString));
        },
    };
    let method = match get_method(args) {
        Some(method) => method,
        None => {
            return Err(
                FilterError::MissingRequiredArgument {
                    filter: Filter::HttpRequestBuilder,
                    argument: Argument::Method,
                },
            );
        },
    };
    let parameters = get_parameters(args);
    let request_body = lookup_entry(args, "request_body");
    match http_request_builder(path, method, parameters, request_body) {
        Ok(expression) => Ok(Node::Text(expression)),
        Err(error) => Err(error),
    }
}

/// The filter `http_request_params`: the URL expression and the method for
/// the path `value`, from the arguments `method` and `parameters`.
pub fn http_request_params_filter(value: &Node, args: &Vec<(String, Node)>) -> (r: Result<
    Node,
    FilterError,
>)
    ensures
        result_view(r) == http_request_params_result(value@, entries_view(args@)),
{
    let path = match value.as_str() {
        Some(path) => path,
        None => {
            return Err(FilterError::InvalidInputShape(Shape::PathNotString));
        },
    };
    let method = match get_method(args) {
        Some(method) => method,
        None => {
            return Err(
                FilterError::MissingRequiredArgument {
                    filter: Filter::HttpRequestParams,
                    argument: Argument::Method,
                },
            );
        },
    };
    let parameters = get_parameters(args);
    match http_request_params(path, method, parameters) {
        Ok(expression) => Ok(Node::Text(expression)),
        Err(error) => Err(error),
    }
}

} // verus!
