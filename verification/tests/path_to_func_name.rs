use generator::path_to_func_name::{convert_to_pascal_case, path_to_func_name_filter};
use generator::document::Node;

fn text(s: &str) -> Node {
    Node::Text(s.to_string())
}

fn num(literal: &str) -> Node {
    Node::Number(literal.to_string())
}

fn create_method_args(method: &str) -> Vec<(String, Node)> {
    vec![("method".to_string(), text(method))]
}

#[test]
fn path_to_func_name_test_path_to_func_name_simple_path() {
    let path = text("/v1/player/characters");
    let args = create_method_args("get");

    let result = path_to_func_name_filter(&path, &args).unwrap();
    assert_eq!(result.as_str().unwrap(), "GET_V1_Player_Characters");
}

#[test]
fn path_to_func_name_test_path_to_func_name_with_single_parameter() {
    let path = text("/character/{id}");
    let args = create_method_args("get");

    let result = path_to_func_name_filter(&path, &args).unwrap();
    assert_eq!(result.as_str().unwrap(), "GET_Character_By_Id");
}

#[test]
fn path_to_func_name_test_path_to_func_name_with_snake_case_parameter() {
    let path = text("/user/{user_id}");
    let args = create_method_args("get");

    let result = path_to_func_name_filter(&path, &args).unwrap();
    assert_eq!(result.as_str().unwrap(), "GET_User_By_UserId");
}

#[test]
fn path_to_func_name_test_path_to_func_name_with_multiple_parameters() {
    let path = text("/user/{user_id}/posts/{post_id}");
    let args = create_method_args("get");

    let result = path_to_func_name_filter(&path, &args).unwrap();
    assert_eq!(result.as_str().unwrap(), "GET_User_Posts_By_UserId_PostId");
}

#[test]
fn path_to_func_name_test_path_to_func_name_with_hyphenated_parameter() {
    let path = text("/resource/{resource-id}");
    let args = create_method_args("delete");

    let result = path_to_func_name_filter(&path, &args).unwrap();
    assert_eq!(result.as_str().unwrap(), "DELETE_Resource_By_ResourceId");
}

#[test]
fn path_to_func_name_test_path_to_func_name_complex_path() {
    let path = text("/api/v2/{resource_id}/sub/{sub_id}/details");
    let args = create_method_args("post");

    let result = path_to_func_name_filter(&path, &args).unwrap();
    assert_eq!(
        result.as_str().unwrap(),
        "POST_Api_V2_Sub_Details_By_ResourceId_SubId"
    );
}

#[test]
fn path_to_func_name_test_path_to_func_name_different_methods() {
    let path = text("/items/{id}");

    // Test with GET
    let args_get = create_method_args("get");
    let result_get = path_to_func_name_filter(&path, &args_get).unwrap();
    assert_eq!(result_get.as_str().unwrap(), "GET_Items_By_Id");

    // Test with POST
    let args_post = create_method_args("post");
    let result_post = path_to_func_name_filter(&path, &args_post).unwrap();
    assert_eq!(result_post.as_str().unwrap(), "POST_Items_By_Id");

    // Test with PUT
    let args_put = create_method_args("put");
    let result_put = path_to_func_name_filter(&path, &args_put).unwrap();
    assert_eq!(result_put.as_str().unwrap(), "PUT_Items_By_Id");

    // Test with DELETE
    let args_delete = create_method_args("delete");
    let result_delete = path_to_func_name_filter(&path, &args_delete).unwrap();
    assert_eq!(result_delete.as_str().unwrap(), "DELETE_Items_By_Id");
}

#[test]
fn path_to_func_name_test_path_to_func_name_with_camel_case_parameter() {
    // Test that camelCase parameters are converted correctly
    let path = text("/resource/{userId}");
    let args = create_method_args("get");

    let result = path_to_func_name_filter(&path, &args).unwrap();
    assert_eq!(result.as_str().unwrap(), "GET_Resource_By_UserId");
}

#[test]
fn path_to_func_name_test_convert_to_pascal_case() {
    assert_eq!(convert_to_pascal_case("id"), "Id");
    assert_eq!(convert_to_pascal_case("user_id"), "UserId");
    assert_eq!(convert_to_pascal_case("resource-name"), "ResourceName");
    assert_eq!(convert_to_pascal_case("userId"), "UserId");
    assert_eq!(convert_to_pascal_case("post_author_id"), "PostAuthorId");
    assert_eq!(convert_to_pascal_case("userId_name"), "UserIdName");
    assert_eq!(convert_to_pascal_case("resource-type-id"), "ResourceTypeId");
    assert_eq!(convert_to_pascal_case("mixed_case-value"), "MixedCaseValue");
}

#[test]
fn path_to_func_name_test_path_to_func_name_edge_cases() {
    // Test empty path segments (shouldn't happen in real APIs, but good to handle)
    let path = text("/api//resource/{id}");
    let args = create_method_args("get");

    let result = path_to_func_name_filter(&path, &args).unwrap();
    assert_eq!(result.as_str().unwrap(), "GET_Api_Resource_By_Id");
}

#[test]
fn path_to_func_name_test_path_to_func_name_only_parameter() {
    let path = text("/{id}");
    let args = create_method_args("get");

    let result = path_to_func_name_filter(&path, &args).unwrap();
    assert_eq!(result.as_str().unwrap(), "GET_By_Id");
}

#[test]
fn path_to_func_name_test_path_to_func_name_missing_method() {
    let path = text("/users");
    let args: Vec<(String, Node)> = Vec::new(); // No method provided

    let result = path_to_func_name_filter(&path, &args);
    assert!(result.is_err());
    assert!(result.unwrap_err().message().contains("method"));
}

#[test]
fn path_to_func_name_test_path_to_func_name_invalid_path_type() {
    let path = num("123"); // Not a string
    let args = create_method_args("get");

    let result = path_to_func_name_filter(&path, &args);
    assert!(result.is_err());
    assert!(
        result
            .unwrap_err().message()
            .contains("Path must be a string")
    );
}

#[test]
fn path_to_func_name_test_path_to_func_name_empty_braces() {
    // Test that empty braces {} are handled gracefully
    let path = text("/api/{}/resource");
    let args = create_method_args("get");

    let result = path_to_func_name_filter(&path, &args).unwrap();
    // Empty braces should be skipped
    assert_eq!(result.as_str().unwrap(), "GET_Api_Resource");
}

#[test]
fn path_to_func_name_test_convert_to_pascal_case_empty_string() {
    // Test that an empty string returns empty string
    assert_eq!(convert_to_pascal_case(""), "");
}

#[test]
fn path_to_func_name_test_convert_to_pascal_case_only_separators() {
    // Test strings with only separators
    assert_eq!(convert_to_pascal_case("___"), "");
    assert_eq!(convert_to_pascal_case("---"), "");
    assert_eq!(convert_to_pascal_case("_-_"), "");
}

#[test]
fn path_to_func_name_test_path_to_func_name_problem_statement_example_1() {
    let path = text("/v1/player/characters");
    let args = create_method_args("get");

    let result = path_to_func_name_filter(&path, &args).unwrap();
    assert_eq!(result.as_str().unwrap(), "GET_V1_Player_Characters");
}

#[test]
fn path_to_func_name_test_path_to_func_name_problem_statement_example_2() {
    let path = text("/character/{id}");
    let args = create_method_args("get");

    let result = path_to_func_name_filter(&path, &args).unwrap();
    assert_eq!(result.as_str().unwrap(), "GET_Character_By_Id");
}

#[test]
fn path_to_func_name_test_path_to_func_name_problem_statement_example_3() {
    let path = text("/user/{user_id}/posts");
    let args = create_method_args("get");

    let result = path_to_func_name_filter(&path, &args).unwrap();
    assert_eq!(result.as_str().unwrap(), "GET_User_Posts_By_UserId");
}

#[test]
fn path_to_func_name_test_path_to_func_name_problem_statement_example_4() {
    let path = text("/api/{resource_id}/sub/{sub_id}");
    let args = create_method_args("post");

    let result = path_to_func_name_filter(&path, &args).unwrap();
    assert_eq!(result.as_str().unwrap(), "POST_Api_Sub_By_ResourceId_SubId");
}
