//! Boxed-constructor generation for sum types.
//!
//! Given a description of an `enum` declaration, the library builds a
//! companion module named after the type with the suffix `B`, holding one
//! function per variant that constructs the variant and returns it boxed.
//! The module is available both as a structured value and as source text.
pub mod generate;
pub mod laws;
pub mod model;
pub mod render;
pub mod text;
