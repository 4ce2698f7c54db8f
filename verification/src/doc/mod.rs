//! The interactive API documentation: the schema of a service and the
//! HTML pages that present it.

pub mod assets;
pub mod schema;
pub mod html;
