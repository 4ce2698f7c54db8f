//! The JavaScript client generator.

pub mod typedefs;
pub mod exports;
pub mod codec;
pub mod validate;
pub mod methods;
pub mod ordinary;
pub mod objects;
pub mod streams;
pub mod service;
