//! Where a specification comes from and how it is written.

use vstd::prelude::*;
use vstd::string::StringExecFns;
use crate::text::{chars_of, ends_with, has_prefix, has_suffix, starts_with};

verus! {

/// The format of a specification file.
#[derive(Clone, Copy, Debug, PartialEq, Eq)]
pub enum Format {
    Json,
    Yaml,
}

/// A parsed OpenAPI specification, as `oas3` holds it.
#[verifier::external_type_specification]
#[verifier::external_body]
pub struct ExSpec(oas3::spec::Spec);

/// A parsed JSON document, as `serde_json` holds it.
#[verifier::external_type_specification]
#[verifier::external_body]
pub struct ExJsonDocument(serde_json::Value);

/// The error of `serde_json`.
#[verifier::external_type_specification]
#[verifier::external_body]
pub struct ExJsonError(serde_json::Error);

/// The error of `serde_yaml_bw`.
#[verifier::external_type_specification]
#[verifier::external_body]
pub struct ExYamlCheckError(serde_yaml_bw::Error);

/// The error of `yaml_serde`, with which `oas3` reads YAML.
#[verifier::external_type_specification]
#[verifier::external_body]
pub struct ExYamlError(yaml_serde::Error);

/// Why a specification could not be loaded. The errors of the parsers are
/// kept as they came, for whoever reports them.
#[derive(Debug)]
pub enum LoadError {
    /// The path ends with none of `.json`, `.yaml` and `.yml`.
    UnknownFormat { path: String },
    /// The text is not JSON.
    JsonSyntax(serde_json::Error),
    /// The JSON document could not be written out again.
    JsonNormalize(serde_json::Error),
    /// The JSON document is not an OpenAPI specification.
    JsonSpec(serde_json::Error),
    /// The text is not YAML.
    YamlSyntax(serde_yaml_bw::Error),
    /// The YAML document is not an OpenAPI specification.
    YamlSpec(yaml_serde::Error),
}

/// The mathematical model of a [`LoadError`].
pub enum LoadErrorView {
    UnknownFormat { path: Seq<char> },
    JsonSyntax(serde_json::Error),
    JsonNormalize(serde_json::Error),
    JsonSpec(serde_json::Error),
    YamlSyntax(serde_yaml_bw::Error),
    YamlSpec(yaml_serde::Error),
}

impl View for LoadError {
    type V = LoadErrorView;

    open spec fn view(&self) -> LoadErrorView {
        match self {
            LoadError::UnknownFormat { path } => LoadErrorView::UnknownFormat { path: path@ },
            LoadError::JsonSyntax(cause) => LoadErrorView::JsonSyntax(*cause),
            LoadError::JsonNormalize(cause) => LoadErrorView::JsonNormalize(*cause),
            LoadError::JsonSpec(cause) => LoadErrorView::JsonSpec(*cause),
            LoadError::YamlSyntax(cause) => LoadErrorView::YamlSyntax(*cause),
            LoadError::YamlSpec(cause) => LoadErrorView::YamlSpec(*cause),
        }
    }
}

impl LoadErrorView {
    /// The text that describes the error, without what the parser said.
    pub open spec fn message(self) -> Seq<char> {
        match self {
            LoadErrorView::UnknownFormat { path } => "Failed to detect OpenAPI format from path: "@
                + path + ". Expected .json, .yaml, or .yml suffix"@,
            LoadErrorView::JsonSyntax(_) => "Failed to parse initial JSON content"@,
            LoadErrorView::JsonNormalize(_) => "Failed to normalize JSON structure"@,
            LoadErrorView::JsonSpec(_) => "Failed to parse into OpenAPI Spec object"@,
            LoadErrorView::YamlSyntax(_) => "Failed to parse initial YAML content with serde-yaml-bw"@,
            LoadErrorView::YamlSpec(_) => "Failed to parse YAML into OpenAPI Spec object"@,
        }
    }
}

impl LoadError {
    /// The text that describes the error, without what the parser said.
    pub fn message(&self) -> (r: String)
        ensures
            r@ == self@.message(),
    {
        match self {
            LoadError::UnknownFormat { path } => {
                let mut r = String::from_str("Failed to detect OpenAPI format from path: ");
                r.append(path.as_str());
                r.append(". Expected .json, .yaml, or .yml suffix");
                r
            },
            LoadError::JsonSyntax(_) => String::from_str("Failed to parse initial JSON content"),
            LoadError::JsonNormalize(_) => String::from_str("Failed to normalize JSON structure"),
            LoadError::JsonSpec(_) => String::from_str("Failed to parse into OpenAPI Spec object"),
            LoadError::YamlSyntax(_) => String::from_str(
                "Failed to parse initial YAML content with serde-yaml-bw",
            ),
            LoadError::YamlSpec(_) => String::from_str(
                "Failed to parse YAML into OpenAPI Spec object",
            ),
        }
    }
}

/// The format that the suffix of a path or URL stands for.
pub open spec fn format_of(path: Seq<char>) -> Option<Format> {
    if ends_with(path, ".json"@) {
        Some(Format::Json)
    } else if ends_with(path, ".yaml"@) || ends_with(path, ".yml"@) {
        Some(Format::Yaml)
    } else {
        None
    }
}

/// Whether a location is a URL that is fetched over HTTP, and not the path of
/// a local file.
pub open spec fn is_remote(path: Seq<char>) -> bool {
    starts_with(path, "http://"@) || starts_with(path, "https://"@)
}

/// The format of the specification at `path`, by its suffix: `.json` for
/// JSON, `.yaml` and `.yml` for YAML. Any other path is an error that holds
/// the path.
pub fn infer_format(path: &str) -> (r: Result<Format, LoadError>)
    ensures
        match r {
            Ok(format) => format_of(path@) == Some(format),
            Err(error) => format_of(path@) is None && error@ == (LoadErrorView::UnknownFormat {
                path: path@,
            }),
        },
{
    let chars = chars_of(path);
    if has_suffix(&chars, &chars_of(".json")) {
        Ok(Format::Json)
    } else if has_suffix(&chars, &chars_of(".yaml")) || has_suffix(&chars, &chars_of(".yml")) {
        Ok(Format::Yaml)
    } else {
        Err(LoadError::UnknownFormat { path: String::from_str(path) })
    }
}

/// Tells whether the specification at `path` is fetched over HTTP: whether the
/// path begins with `http://` or `https://`.
pub fn is_remote_location(path: &str) -> (r: bool)
    ensures
        r == is_remote(path@),
{
    let chars = chars_of(path);
    has_prefix(&chars, &chars_of("http://")) || has_prefix(&chars, &chars_of("https://"))
}

/// The JSON document that a text holds, or why it holds none.
pub uninterp spec fn json_document(text: Seq<char>) -> Result<serde_json::Value, serde_json::Error>;

/// The text of a JSON document, written out with indentation.
pub uninterp spec fn json_pretty_text(document: serde_json::Value) -> Result<
    Seq<char>,
    serde_json::Error,
>;

/// The OpenAPI specification that a JSON text holds, or why it holds none.
pub uninterp spec fn json_spec(text: Seq<char>) -> Result<oas3::spec::Spec, serde_json::Error>;

/// Why a text is not YAML, if it is not.
pub uninterp spec fn yaml_fault(text: Seq<char>) -> Option<serde_yaml_bw::Error>;

/// The OpenAPI specification that a YAML text holds, or why it holds none.
pub uninterp spec fn yaml_spec(text: Seq<char>) -> Result<oas3::spec::Spec, yaml_serde::Error>;

/// `serde_json::from_str`, read as a `serde_json::Value`: parses the text as
/// one JSON document. Whether it succeeds, and with what, depends on the text
/// alone.
#[verifier::external_body]
fn parse_json(text: &str) -> (r: Result<serde_json::Value, serde_json::Error>)
    ensures
        r == json_document(text@),
{
    serde_json::from_str(text)
}

/// `serde_json::to_string_pretty`, of a `serde_json::Value`: writes the
/// document as indented JSON text, which depends on the document alone.
#[verifier::external_body]
fn pretty_json(document: &serde_json::Value) -> (r: Result<String, serde_json::Error>)
    ensures
        match r {
            Ok(text) => json_pretty_text(*document) == Ok::<Seq<char>, serde_json::Error>(text@),
            Err(cause) => json_pretty_text(*document) == Err::<Seq<char>, serde_json::Error>(cause),
        },
{
    serde_json::to_string_pretty(document)
}

/// `oas3::from_json`: deserializes an OpenAPI specification from JSON text.
/// Whether it succeeds, and with what, depends on the text alone.
#[verifier::external_body]
fn spec_from_json(text: &str) -> (r: Result<oas3::spec::Spec, serde_json::Error>)
    ensures
        r == json_spec(text@),
{
    oas3::from_json(text)
}

/// `serde_yaml_bw::from_str`, read as a `serde_yaml_bw::Value`: parses the
/// text as YAML. Only the error is kept; whether there is one, and which,
/// depends on the text alone.
#[verifier::external_body]
fn check_yaml(text: &str) -> (r: Option<serde_yaml_bw::Error>)
    ensures
        r == yaml_fault(text@),
{
    serde_yaml_bw::from_str::<serde_yaml_bw::Value>(text).err()
}

/// `oas3::from_yaml`: deserializes an OpenAPI specification from YAML text.
/// Whether it succeeds, and with what, depends on the text alone.
#[verifier::external_body]
fn spec_from_yaml(text: &str) -> (r: Result<oas3::spec::Spec, yaml_serde::Error>)
    ensures
        r == yaml_spec(text@),
{
    oas3::from_yaml(text)
}

/// The specification that a JSON text holds. The text is parsed as a JSON
/// document, the document is written out again, and the specification is
/// read from what was written.
pub open spec fn spec_of_json(text: Seq<char>) -> Result<oas3::spec::Spec, LoadErrorView> {
    match json_document(text) {
        Err(cause) => Err(LoadErrorView::JsonSyntax(cause)),
        Ok(document) => match json_pretty_text(document) {
            Err(cause) => Err(LoadErrorView::JsonNormalize(cause)),
            Ok(pretty) => match json_spec(pretty) {
                Err(cause) => Err(LoadErrorView::JsonSpec(cause)),
                Ok(spec) => Ok(spec),
            },
        },
    }
}

/// The specification that a YAML text holds. The text is checked to be YAML
/// before the specification is read from it.
pub open spec fn spec_of_yaml(text: Seq<char>) -> Result<oas3::spec::Spec, LoadErrorView> {
    match yaml_fault(text) {
        Some(cause) => Err(LoadErrorView::YamlSyntax(cause)),
        None => match yaml_spec(text) {
            Err(cause) => Err(LoadErrorView::YamlSpec(cause)),
            Ok(spec) => Ok(spec),
        },
    }
}

/// The specification that a text of the given format holds.
pub open spec fn spec_of_text(format: Format, text: Seq<char>) -> Result<
    oas3::spec::Spec,
    LoadErrorView,
> {
    match format {
        Format::Json => spec_of_json(text),
        Format::Yaml => spec_of_yaml(text),
    }
}

/// The model of what parsing returns.
pub open spec fn load_view(r: Result<oas3::spec::Spec, LoadError>) -> Result<
    oas3::spec::Spec,
    LoadErrorView,
> {
    match r {
        Ok(spec) => Ok(spec),
        Err(error) => Err(error@),
    }
}

/// The OpenAPI specification that `raw_spec` holds in the given format. The
/// first step that fails gives the error.
pub fn parse_openapi_spec(format: Format, raw_spec: &str) -> (r: Result<
    oas3::spec::Spec,
    LoadError,
>)
    ensures
        load_view(r) == spec_of_text(format, raw_spec@),
{
    match format {
        Format::Json => {
            let spec_json = match parse_json(raw_spec) {
                Ok(document) => document,
                Err(cause) => {
                    return Err(LoadError::JsonSyntax(cause));
                },
            };
            let pretty_str = match pretty_json(&spec_json) {
                Ok(text) => text,
                Err(cause) => {
                    return Err(LoadError::JsonNormalize(cause));
                },
            };
            match spec_from_json(pretty_str.as_str()) {
                Ok(spec) => Ok(spec),
                Err(cause) => Err(LoadError::JsonSpec(cause)),
            }
        },
        Format::Yaml => {
            if let Some(cause) = check_yaml(raw_spec) {
                return Err(LoadError::YamlSyntax(cause));
            }
            match spec_from_yaml(raw_spec) {
                Ok(spec) => Ok(spec),
                Err(cause) => Err(LoadError::YamlSpec(cause)),
            }
        },
    }
}

} // verus!
