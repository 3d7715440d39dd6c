use generator::http_request::{
    convert_to_http_method, escape_cpp_string, extract_path_parameters, extract_query_parameters,
    http_request_params_filter,
};
use generator::document::Node;

fn text(s: &str) -> Node {
    Node::Text(s.to_string())
}

fn num(literal: &str) -> Node {
    Node::Number(literal.to_string())
}

fn obj(entries: Vec<(&str, Node)>) -> Node {
    Node::Object(entries.into_iter().map(|(key, value)| (key.to_string(), value)).collect())
}

fn arr(items: Vec<Node>) -> Node {
    Node::Array(items)
}

fn create_method_args(method: &str) -> Vec<(String, Node)> {
    vec![("method".to_string(), text(method))]
}

/// Arguments with a method and, where given, parameters.
fn create_args_with_params(method: &str, parameters: Option<Node>) -> Vec<(String, Node)> {
    let mut args = create_method_args(method);
    if let Some(params) = parameters {
        args.push(("parameters".to_string(), params));
    }
    args
}

#[test]
fn test_http_request_params_simple_get() {
    let path = text("/v1/player/characters");
    let args = create_method_args("get");

    let result = http_request_params_filter(&path, &args).unwrap();
    assert_eq!(
        result.as_str().unwrap(),
        "TEXT(\"/v1/player/characters\"), EHttpMethod::Get"
    );
}

#[test]
fn test_http_request_params_with_path_parameter() {
    let path = text("/character/{id}");
    let params = arr(vec![
        obj(vec![
            ("in", text("path")),
            ("name", text("id")),
            ("required", Node::Bool(true)),
            ("schema", obj(vec![
                ("type", text("string")),
            ])),
        ]),
    ]);
    let args = create_args_with_params("post", Some(params));

    let result = http_request_params_filter(&path, &args).unwrap();
    assert_eq!(
        result.as_str().unwrap(),
        "FString::Format(TEXT(\"/character/{id}\"), FStringFormatNamedArguments{{\"id\", id}}), EHttpMethod::Post"
    );
}

#[test]
fn test_http_request_params_put_method() {
    let path = text("/api/resource/{id}");
    let params = arr(vec![
        obj(vec![
            ("in", text("path")),
            ("name", text("id")),
            ("required", Node::Bool(true)),
            ("schema", obj(vec![
                ("type", text("string")),
            ])),
        ]),
    ]);
    let args = create_args_with_params("put", Some(params));

    let result = http_request_params_filter(&path, &args).unwrap();
    assert_eq!(
        result.as_str().unwrap(),
        "FString::Format(TEXT(\"/api/resource/{id}\"), FStringFormatNamedArguments{{\"id\", id}}), EHttpMethod::Put"
    );
}

#[test]
fn test_http_request_params_delete_method() {
    let path = text("/items/{item_id}");
    let params = arr(vec![
        obj(vec![
            ("in", text("path")),
            ("name", text("item_id")),
            ("required", Node::Bool(true)),
            ("schema", obj(vec![
                ("type", text("string")),
            ])),
        ]),
    ]);
    let args = create_args_with_params("delete", Some(params));

    let result = http_request_params_filter(&path, &args).unwrap();
    assert_eq!(
        result.as_str().unwrap(),
        "FString::Format(TEXT(\"/items/{item_id}\"), FStringFormatNamedArguments{{\"item_id\", item_id}}), EHttpMethod::Delete"
    );
}

#[test]
fn test_http_request_params_patch_method() {
    let path = text("/user/{user_id}/profile");
    let params = arr(vec![
        obj(vec![
            ("in", text("path")),
            ("name", text("user_id")),
            ("required", Node::Bool(true)),
            ("schema", obj(vec![
                ("type", text("string")),
            ])),
        ]),
    ]);
    let args = create_args_with_params("patch", Some(params));

    let result = http_request_params_filter(&path, &args).unwrap();
    assert_eq!(
        result.as_str().unwrap(),
        "FString::Format(TEXT(\"/user/{user_id}/profile\"), FStringFormatNamedArguments{{\"user_id\", user_id}}), EHttpMethod::Patch"
    );
}

#[test]
fn test_http_request_params_head_method() {
    let path = text("/health");
    let args = create_method_args("head");

    let result = http_request_params_filter(&path, &args).unwrap();
    assert_eq!(
        result.as_str().unwrap(),
        "TEXT(\"/health\"), EHttpMethod::Head"
    );
}

#[test]
fn test_http_request_params_uppercase_method() {
    let path = text("/api/data");
    let args = create_method_args("GET");

    let result = http_request_params_filter(&path, &args).unwrap();
    assert_eq!(
        result.as_str().unwrap(),
        "TEXT(\"/api/data\"), EHttpMethod::Get"
    );
}

#[test]
fn test_http_request_params_mixed_case_method() {
    let path = text("/api/data");
    let args = create_method_args("PoSt");

    let result = http_request_params_filter(&path, &args).unwrap();
    assert_eq!(
        result.as_str().unwrap(),
        "TEXT(\"/api/data\"), EHttpMethod::Post"
    );
}

#[test]
fn test_http_request_params_complex_path() {
    let path = text("/api/v2/{resource_id}/sub/{sub_id}/details");
    let params = arr(vec![
        obj(vec![
            ("in", text("path")),
            ("name", text("resource_id")),
            ("required", Node::Bool(true)),
            ("schema", obj(vec![
                ("type", text("string")),
            ])),
        ]),
        obj(vec![
            ("in", text("path")),
            ("name", text("sub_id")),
            ("required", Node::Bool(true)),
            ("schema", obj(vec![
                ("type", text("string")),
            ])),
        ]),
    ]);
    let args = create_args_with_params("get", Some(params));

    let result = http_request_params_filter(&path, &args).unwrap();
    assert_eq!(
        result.as_str().unwrap(),
        "FString::Format(TEXT(\"/api/v2/{resource_id}/sub/{sub_id}/details\"), FStringFormatNamedArguments{{\"resource_id\", resource_id}, {\"sub_id\", sub_id}}), EHttpMethod::Get"
    );
}

#[test]
fn test_http_request_params_missing_method() {
    let path = text("/users");
    let args: Vec<(String, Node)> = Vec::new();

    let result = http_request_params_filter(&path, &args);
    assert!(result.is_err());
    assert!(result.unwrap_err().message().contains("method"));
}

#[test]
fn test_http_request_params_invalid_path_type() {
    let path = num("123");
    let args = create_method_args("get");

    let result = http_request_params_filter(&path, &args);
    assert!(result.is_err());
    assert!(
        result
            .unwrap_err().message()
            .contains("Path must be a string")
    );
}

#[test]
fn test_http_request_params_unsupported_method() {
    let path = text("/api/resource");
    let args = create_method_args("options");

    let result = http_request_params_filter(&path, &args);
    assert!(result.is_err());
    let error_msg = result.unwrap_err().message();
    assert!(error_msg.contains("Unsupported HTTP method"));
    assert!(error_msg.contains("options"));
}

#[test]
fn test_http_request_params_root_path() {
    let path = text("/");
    let args = create_method_args("get");

    let result = http_request_params_filter(&path, &args).unwrap();
    assert_eq!(result.as_str().unwrap(), "TEXT(\"/\"), EHttpMethod::Get");
}

#[test]
fn test_http_request_params_empty_path() {
    let path = text("");
    let args = create_method_args("get");

    let result = http_request_params_filter(&path, &args).unwrap();
    assert_eq!(result.as_str().unwrap(), "TEXT(\"\"), EHttpMethod::Get");
}

#[test]
fn test_convert_to_http_method_all_methods() {
    assert_eq!(convert_to_http_method("get").unwrap(), "Get");
    assert_eq!(convert_to_http_method("post").unwrap(), "Post");
    assert_eq!(convert_to_http_method("put").unwrap(), "Put");
    assert_eq!(convert_to_http_method("delete").unwrap(), "Delete");
    assert_eq!(convert_to_http_method("patch").unwrap(), "Patch");
    assert_eq!(convert_to_http_method("head").unwrap(), "Head");
}

#[test]
fn test_convert_to_http_method_case_insensitive() {
    assert_eq!(convert_to_http_method("GET").unwrap(), "Get");
    assert_eq!(convert_to_http_method("POST").unwrap(), "Post");
    assert_eq!(convert_to_http_method("Put").unwrap(), "Put");
    assert_eq!(convert_to_http_method("DELETE").unwrap(), "Delete");
    assert_eq!(convert_to_http_method("PATCH").unwrap(), "Patch");
    assert_eq!(convert_to_http_method("HEAD").unwrap(), "Head");
}

#[test]
fn test_escape_cpp_string() {
    assert_eq!(escape_cpp_string("simple"), "simple");
    assert_eq!(escape_cpp_string("with\"quote"), "with\\\"quote");
    assert_eq!(escape_cpp_string("with\\backslash"), "with\\\\backslash");
    assert_eq!(escape_cpp_string("both\"and\\here"), "both\\\"and\\\\here");
}

#[test]
fn test_http_request_params_with_special_characters() {
    let path = text("/api/path\"with\"quotes");
    let args = create_method_args("get");

    let result = http_request_params_filter(&path, &args).unwrap();
    assert_eq!(
        result.as_str().unwrap(),
        "TEXT(\"/api/path\\\"with\\\"quotes\"), EHttpMethod::Get"
    );
}

#[test]
fn test_http_request_params_with_backslash() {
    let path = text("/api/path\\with\\backslash");
    let args = create_method_args("post");

    let result = http_request_params_filter(&path, &args).unwrap();
    assert_eq!(
        result.as_str().unwrap(),
        "TEXT(\"/api/path\\\\with\\\\backslash\"), EHttpMethod::Post"
    );
}

#[test]
fn test_extract_path_parameters() {
    let params = arr(vec![
        obj(vec![
            ("in", text("path")),
            ("name", text("id")),
        ]),
        obj(vec![
            ("in", text("query")),
            ("name", text("shard")),
        ]),
    ]);
    assert_eq!(
        extract_path_parameters(params.as_array()),
        vec!["id".to_string()]
    );

    let params_multi = arr(vec![
        obj(vec![
            ("in", text("path")),
            ("name", text("user_id")),
        ]),
        obj(vec![
            ("in", text("path")),
            ("name", text("post_id")),
        ]),
        obj(vec![
            ("in", text("query")),
            ("name", text("limit")),
        ]),
    ]);
    assert_eq!(
        extract_path_parameters(params_multi.as_array()),
        vec!["user_id".to_string(), "post_id".to_string()]
    );

    assert!(extract_path_parameters(None).is_empty());

    let empty_params = arr(vec![]);
    assert!(extract_path_parameters(empty_params.as_array()).is_empty());
}

#[test]
fn test_extract_query_parameters() {
    let params = arr(vec![
        obj(vec![
            ("in", text("query")),
            ("name", text("shard")),
        ]),
        obj(vec![
            ("in", text("path")),
            ("name", text("id")),
        ]),
        obj(vec![
            ("in", text("query")),
            ("name", text("limit")),
        ]),
    ]);

    let result = extract_query_parameters(params.as_array());
    assert_eq!(result, vec!["shard".to_string(), "limit".to_string()]);
}

#[test]
fn test_extract_query_parameters_empty() {
    let result = extract_query_parameters(None);
    assert!(result.is_empty());

    let params = arr(vec![]);
    let result = extract_query_parameters(params.as_array());
    assert!(result.is_empty());
}

#[test]
fn test_http_request_params_with_query_parameters() {
    let path = text("/v1/player/characters");
    let params = arr(vec![
        obj(vec![
            ("in", text("query")),
            ("name", text("shard")),
            ("schema", obj(vec![
                ("type", text("string")),
                ("default", text("CN-1")),
            ])),
        ]),
    ]);
    let args = create_args_with_params("get", Some(params));

    let result = http_request_params_filter(&path, &args).unwrap();
    assert_eq!(
        result.as_str().unwrap(),
        "FString::Format(TEXT(\"/v1/player/characters?shard={shard}\"), FStringFormatNamedArguments{{\"shard\", shard}}), EHttpMethod::Get"
    );
}

#[test]
fn test_http_request_params_with_path_and_query_parameters() {
    let path = text("/v1/player/characters/{id}");
    let params = arr(vec![
        obj(vec![
            ("in", text("path")),
            ("name", text("id")),
        ]),
        obj(vec![
            ("in", text("query")),
            ("name", text("shard")),
        ]),
    ]);
    let args = create_args_with_params("get", Some(params));

    let result = http_request_params_filter(&path, &args).unwrap();
    assert_eq!(
        result.as_str().unwrap(),
        "FString::Format(TEXT(\"/v1/player/characters/{id}?shard={shard}\"), FStringFormatNamedArguments{{\"id\", id}, {\"shard\", shard}}), EHttpMethod::Get"
    );
}

#[test]
fn test_http_request_params_with_multiple_query_parameters() {
    let path = text("/v1/player/characters");
    let params = arr(vec![
        obj(vec![
            ("in", text("query")),
            ("name", text("shard")),
        ]),
        obj(vec![
            ("in", text("query")),
            ("name", text("limit")),
        ]),
        obj(vec![
            ("in", text("query")),
            ("name", text("offset")),
        ]),
    ]);
    let args = create_args_with_params("get", Some(params));

    let result = http_request_params_filter(&path, &args).unwrap();
    assert_eq!(
        result.as_str().unwrap(),
        "FString::Format(TEXT(\"/v1/player/characters?shard={shard}&limit={limit}&offset={offset}\"), FStringFormatNamedArguments{{\"shard\", shard}, {\"limit\", limit}, {\"offset\", offset}}), EHttpMethod::Get"
    );
}
