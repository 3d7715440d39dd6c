use generator::loader::{infer_format, parse_openapi_spec, Format};

#[test]
fn test_infer_format_json() {
    assert!(matches!(
        infer_format("path/to/spec.json").unwrap(),
        Format::Json
    ));
}

#[test]
fn test_infer_format_yaml() {
    assert!(matches!(
        infer_format("path/to/spec.yaml").unwrap(),
        Format::Yaml
    ));
}

#[test]
fn test_infer_format_yml() {
    assert!(matches!(
        infer_format("path/to/spec.yml").unwrap(),
        Format::Yaml
    ));
}

#[test]
fn test_infer_format_http_json() {
    assert!(matches!(
        infer_format("https://example.com/openapi.json").unwrap(),
        Format::Json
    ));
}

#[test]
fn test_infer_format_http_yaml() {
    assert!(matches!(
        infer_format("http://example.com/spec.yaml").unwrap(),
        Format::Yaml
    ));
}

#[test]
fn test_infer_format_unknown() {
    let result = infer_format("path/to/spec.txt");
    assert!(result.is_err());
    let err_msg = result.unwrap_err().message();
    assert!(err_msg.contains("Failed to detect OpenAPI format"));
}

#[test]
fn test_infer_format_no_extension() {
    let result = infer_format("path/to/spec");
    assert!(result.is_err());
}

#[test]
fn test_load_openapi_spec_local_yaml() {
    let yaml_content = r#"
openapi: "3.1.0"
info:
  title: Test API
  version: "1.0.0"
paths: {}
"#;
    let format = infer_format("test_openapi.yaml").unwrap();
    let result = parse_openapi_spec(format, yaml_content);
    assert!(
        result.is_ok(),
        "Failed to load YAML spec: {:?}",
        result.err()
    );

    let spec = result.unwrap();
    assert_eq!(spec.info.title, "Test API");
    assert_eq!(spec.info.version, "1.0.0");
}

#[test]
fn test_load_openapi_spec_local_yml() {
    let yaml_content = r#"
openapi: "3.1.0"
info:
  title: YML Extension Test
  version: "2.0.0"
paths: {}
"#;
    let format = infer_format("test_openapi.yml").unwrap();
    let result = parse_openapi_spec(format, yaml_content);
    assert!(
        result.is_ok(),
        "Failed to load YML spec: {:?}",
        result.err()
    );

    let spec = result.unwrap();
    assert_eq!(spec.info.title, "YML Extension Test");
}

#[test]
fn test_load_openapi_spec_local_json() {
    let json_content = r#"{
  "openapi": "3.1.0",
  "info": {
    "title": "JSON Test API",
    "version": "3.0.0"
  },
  "paths": {}
}"#;
    let format = infer_format("test_openapi.json").unwrap();
    let result = parse_openapi_spec(format, json_content);
    assert!(
        result.is_ok(),
        "Failed to load JSON spec: {:?}",
        result.err()
    );

    let spec = result.unwrap();
    assert_eq!(spec.info.title, "JSON Test API");
    assert_eq!(spec.info.version, "3.0.0");
}
