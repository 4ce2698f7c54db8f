//! The C# client generator.

pub mod typedefs;
pub mod codec;
pub mod validate;
pub mod exports;
pub mod methods;
pub mod ordinary;
pub mod objects;
pub mod common;
pub mod streams;
pub mod service;
