//! The Rust client generator.

pub mod typedefs;
pub mod exports;
pub mod codec;
pub mod validate;
pub mod methods;
pub mod common;
pub mod streams;
pub mod service;
