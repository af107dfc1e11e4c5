//! Generates, for each variant of an enum, a standalone type that mirrors the
//! variant's payload, with `From` and `TryFrom` conversions between the two.
//!
//! The item arrives as a [`model::Item`]; [`directives`] reads its `#[evt(...)]`
//! attributes, [`plan`] decides what each kept variant yields, [`render`] writes it
//! out as Rust source, and [`generate`] joins the steps. [`semantics`] and [`laws`]
//! state what the generated items do and prove it.
pub mod model;
pub mod directives;
pub mod text;
pub mod plan;
pub mod render;
pub mod generate;
pub mod semantics;
pub mod laws;

pub use generate::enum_variant_type_impl;
