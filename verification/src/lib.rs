//! Attribute-driven synthesis of boilerplate members for data structures.
//!
//! The crate resolves a structure's attribute options (defaults, sequencing,
//! accessors, comparison and arithmetic participation) into per-field and
//! per-structure policies, validates them, and assembles an abstract plan of
//! the members to generate.  Host-syntax parsing and token rendering are left
//! to outside collaborators.

use vstd::prelude::*;

pub mod cmp;
pub mod field_config;
pub mod generate;
pub mod meta;
pub mod ops;
pub mod plan;
mod sorting;
pub mod struct_config;
pub mod synerr;
pub mod text;

verus! {

/// The generated `default` option implements this trait for the structure.
pub trait DataStruct {
    /// Returns the default value of the structure.
    fn data_default() -> Self where Self: core::marker::Sized;
}

/// The generated `const` option implements this trait for the structure.
pub trait ConstDataStruct {
    /// The constant default value of the structure.
    const DEFAULT: Self;
}

} // verus!
