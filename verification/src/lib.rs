//! A translation layer from a shader compiler's intermediate representation
//! to a small, stable, documentation-oriented schema.
//!
//! The [`ir`] module models the slice of the upstream IR that the translation
//! reads; the [`schema`] module defines the destination vocabulary; the
//! [`translate`] module holds the total mapping functions between the two,
//! and [`laws`] states and proves the properties the mapping guarantees.

pub mod ir;
pub mod laws;
pub mod schema;
pub mod translate;
