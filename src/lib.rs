//! A URL shortener's core: short-code generation, input validation, the
//! shorten / redirect / admin request flows as verified state machines, and
//! the store and cache model against which their laws are proved.
pub mod admin;
pub mod cache;
pub mod codegen;
pub mod config;
pub mod error;
pub mod keys;
pub mod model;
pub mod redirect;
pub mod shorten;
pub mod stats;
pub mod text;
pub mod validate;
