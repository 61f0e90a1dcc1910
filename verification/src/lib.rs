//! A verified validation engine for HTTP requests and responses against an
//! OpenAPI 3.0 description.
pub mod body;
pub mod content_type;
pub mod item_or_fetch;
pub mod json;
pub mod jsonschema;
pub mod model;
pub mod operation;
pub mod parameters;
pub mod paths;
pub mod request;
pub mod response;
pub mod text;
pub mod to_jsonschema;
