//! Compile-time metadata for column-oriented row types.
//!
//! Given the declaration of a plain structural record — its name, its
//! lifetime parameters, its field list and the renaming and skip directives
//! on it — this crate derives the static description that a row
//! serialization layer consumes: the ordered column-name list, the column
//! count, the record-kind discriminator and the value-type binding of the
//! borrowed view. The analyzer filters and renames fields; the emitter
//! decides, from the declaration's shape, whether a description exists and
//! which binding it carries, or which diagnostic refuses it.

pub mod analyze;
pub mod decl;
pub mod emit;
pub mod laws;
pub mod rename;
