use generator::loader::{infer_format, is_remote_location, parse_openapi_spec, Format, LoadError};

const YAML: &str = "
openapi: \"3.1.0\"
info:
  title: Test API
  version: \"1.0.0\"
paths: {}
";

const JSON: &str = "{
  \"openapi\": \"3.1.0\",
  \"info\": {
    \"title\": \"JSON Test API\",
    \"version\": \"3.0.0\"
  },
  \"paths\": {}
}";

#[test]
fn parse_spec_from_yaml_text() {
    let spec = parse_openapi_spec(Format::Yaml, YAML).unwrap();
    assert_eq!(spec.info.title, "Test API");
    assert_eq!(spec.info.version, "1.0.0");
}

#[test]
fn parse_spec_from_json_text() {
    let spec = parse_openapi_spec(Format::Json, JSON).unwrap();
    assert_eq!(spec.info.title, "JSON Test API");
    assert_eq!(spec.info.version, "3.0.0");
}

#[test]
fn parse_spec_twice_gives_the_same() {
    assert_eq!(
        parse_openapi_spec(Format::Json, JSON).unwrap(),
        parse_openapi_spec(Format::Json, JSON).unwrap()
    );
    assert_eq!(
        parse_openapi_spec(Format::Yaml, YAML).unwrap(),
        parse_openapi_spec(Format::Yaml, YAML).unwrap()
    );
}

#[test]
fn parse_spec_from_text_that_is_no_json() {
    let error = parse_openapi_spec(Format::Json, "{ \"openapi\": ").unwrap_err();
    assert!(matches!(error, LoadError::JsonSyntax(_)));
    assert_eq!(error.message(), "Failed to parse initial JSON content");
    assert!(matches!(
        parse_openapi_spec(Format::Json, YAML).unwrap_err(),
        LoadError::JsonSyntax(_)
    ));
}

#[test]
fn parse_spec_from_json_that_is_no_specification() {
    let error = parse_openapi_spec(Format::Json, "[1, 2, 3]").unwrap_err();
    assert!(matches!(error, LoadError::JsonSpec(_)));
    assert_eq!(error.message(), "Failed to parse into OpenAPI Spec object");
    assert!(matches!(
        parse_openapi_spec(Format::Json, "{\"openapi\": \"3.1.0\"}").unwrap_err(),
        LoadError::JsonSpec(_)
    ));
}

#[test]
fn parse_spec_from_text_that_is_no_yaml() {
    let error = parse_openapi_spec(Format::Yaml, "openapi: [1, 2").unwrap_err();
    assert!(matches!(error, LoadError::YamlSyntax(_)));
    assert_eq!(error.message(), "Failed to parse initial YAML content with serde-yaml-bw");
}

#[test]
fn parse_spec_from_yaml_that_is_no_specification() {
    let error = parse_openapi_spec(Format::Yaml, "- 1\n- 2\n").unwrap_err();
    assert!(matches!(error, LoadError::YamlSpec(_)));
    assert_eq!(error.message(), "Failed to parse YAML into OpenAPI Spec object");
}

#[test]
fn format_goes_by_the_suffix_alone() {
    assert_eq!(infer_format(".json").unwrap(), Format::Json);
    assert_eq!(infer_format("a.yaml").unwrap(), Format::Yaml);
    assert_eq!(infer_format("a.json.yml").unwrap(), Format::Yaml);
    assert!(infer_format("json").is_err());
    assert!(infer_format("a.JSON").is_err());
    assert!(infer_format("a.json ").is_err());
    assert!(infer_format("a.json?x=1").is_err());
    assert!(infer_format("").is_err());
}

#[test]
fn format_error_holds_the_path() {
    let error = infer_format("path/to/spec.txt").unwrap_err();
    assert!(matches!(&error, LoadError::UnknownFormat { path } if path == "path/to/spec.txt"));
    assert_eq!(
        error.message(),
        "Failed to detect OpenAPI format from path: path/to/spec.txt. Expected .json, .yaml, or .yml suffix"
    );
}

#[test]
fn remote_locations_begin_with_a_scheme() {
    assert!(is_remote_location("http://127.0.0.1:10802/docs/api.json"));
    assert!(is_remote_location("https://example.com/openapi.yaml"));
    assert!(is_remote_location("http://"));
    assert!(!is_remote_location("HTTP://example.com/a.json"));
    assert!(!is_remote_location("ftp://example.com/a.json"));
    assert!(!is_remote_location("docs/http://a.json"));
    assert!(!is_remote_location("http:/a.json"));
    assert!(!is_remote_location(""));
}
