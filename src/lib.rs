//! A marker for types whose `Clone` is O(1), and the generator of its derive.
//!
//! `LightClone` marks a type whose duplication costs only refcount
//! bookkeeping or a bitwise copy. The generator in `codegen` turns a type
//! declaration into the impl of the marker, built field by field, with a
//! where-clause that asks the marker of every field type.
//!
//! The marker's duplicate operation is a provided method that delegates to
//! `clone`, so a hand-written grant is an empty impl. The derive instead
//! emits a field-wise duplicate and a `Clone` that forwards to it, so a type
//! that uses the derive has no `Clone` impl of its own.

pub mod codegen;
mod containers;
mod conversions;
pub mod decl;
mod im_collections;
mod primitives;
mod smart_pointers;
pub mod text;
mod trait_def;
mod value_types;

pub use codegen::{
    derive_lc_clone, derive_light_clone, derive_light_clone_impl, generate_named_struct_clones,
    generate_named_variant_arm, generate_unit_variant_arm, generate_unnamed_struct_clones,
    generate_unnamed_variant_arm, synthesize_bounds, DeriveError,
};
pub use conversions::{IntoLcStr, IntoLightStr, LightStr};
pub use decl::{Data, Fields, NamedField, TypeDecl, Variant};
pub use im_collections::{LcList, LcMap, LcOrdMap, LcSet};
pub use text::{join_comma, push_decimal};
pub use trait_def::LightClone;

pub use conversions::LightStr as LcStr;
pub use trait_def::LightClone as LcClone;
