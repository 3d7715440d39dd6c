//! Resolution of OpenAPI schema and operation fragments into the text of
//! native bindings: type names, function names and request expressions.
//!
//! Every function is a pure transformation of its arguments. Documents are
//! handled as [`document::Node`] trees; what a function returns is stated over
//! the mathematical view of those trees and over sequences of characters.

pub mod body_schema;
pub mod document;
pub mod error;
pub mod filter;
pub mod http_request;
pub mod is_required;
pub mod loader;
pub mod parser;
pub mod path_to_func_name;
pub mod tags_to_pipe_separated;
pub mod text;
pub mod to_ue_type;
