//! Client-code generation for services described by handler metadata.

pub mod text;
pub mod buf;
pub mod naming;
pub mod model;
pub mod typemap;
pub mod collect;
pub mod json;
pub mod stable_id;
pub mod meta_spec;
pub mod cs;
pub mod params;
pub mod headers;
pub mod js;
pub mod rs;
pub mod code;
pub mod doc;
pub mod output;
pub mod extractors;
pub mod routes;
pub mod handler_rules;
pub mod wire;
pub mod checks;
