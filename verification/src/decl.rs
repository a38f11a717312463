//! The declaration model: the shape of a record declaration as the analyzer
//! and the emitter read it — a name, lifetime parameters, a field list and
//! the renaming and skip directives attached to it.

use vstd::prelude::*;

verus! {

/// A container-level renaming policy, applied to the source name of every
/// included field that carries no explicit rename of its own.
#[derive(Clone, Copy, Debug, PartialEq, Eq)]
pub enum RenameRule {
    /// Leave field names unchanged.
    Unchanged,
    /// "lowercase" style; field names are already lower case, so unchanged.
    Lower,
    /// "UPPERCASE" style.
    Upper,
    /// "PascalCase" style.
    Pascal,
    /// "camelCase" style.
    Camel,
    /// "snake_case" style; field names are already snake case, so unchanged.
    Snake,
    /// "SCREAMING_SNAKE_CASE" style.
    ScreamingSnake,
    /// "kebab-case" style.
    Kebab,
    /// "SCREAMING-KEBAB-CASE" style.
    ScreamingKebab,
}

/// One field of a named-field declaration.
#[derive(Clone, Debug, PartialEq, Eq)]
pub struct FieldDecl {
    /// The field's literal source name.
    pub name: String,
    /// An explicit per-field rename, which overrides the container rule.
    pub rename: Option<String>,
    /// Whether the field is flagged skip-serializing.
    pub skip_serializing: bool,
    /// Whether the field is flagged skip-deserializing.
    pub skip_deserializing: bool,
}

/// The shape of a declaration's field list.
#[derive(Clone, Debug, PartialEq, Eq)]
pub enum FieldsDecl {
    /// Fields with explicit labels, in declaration order.
    Named(Vec<FieldDecl>),
    /// Positional fields, of which only the count is known.
    Unnamed(usize),
    /// No field list at all.
    Unit,
}

/// The kind of data declaration.
#[derive(Clone, Debug, PartialEq, Eq)]
pub enum DataDecl {
    /// A plain structural record, the only kind a description is emitted for.
    Struct(FieldsDecl),
    /// A sum type; refused.
    Enum,
    /// A union type; refused.
    Union,
}

/// A record declaration as handed to the emitter.
#[derive(Clone, Debug, PartialEq, Eq)]
pub struct TypeDecl {
    /// The declaration's literal identifier.
    pub name: String,
    /// The names of the declaration's lifetime parameters, in order.
    pub lifetimes: Vec<String>,
    /// The container-level deserialize-facing rename rule.
    pub rename_all: RenameRule,
    /// The declared data shape.
    pub data: DataDecl,
}

/// A field contributes a column exactly when neither skip flag is set.
pub open spec fn field_included(f: FieldDecl) -> bool {
    !f.skip_serializing && !f.skip_deserializing
}

/// Whether a field list has no field members at all.
pub open spec fn fields_is_empty(fields: FieldsDecl) -> bool {
    match fields {
        FieldsDecl::Named(fs) => fs@.len() == 0,
        FieldsDecl::Unnamed(n) => n == 0,
        FieldsDecl::Unit => true,
    }
}

/// Executable mirror of `fields_is_empty`.
pub fn fields_empty(fields: &FieldsDecl) -> (b: bool)
    ensures
        b == fields_is_empty(*fields),
{
    match fields {
        FieldsDecl::Named(fs) => fs.len() == 0,
        FieldsDecl::Unnamed(n) => *n == 0,
        FieldsDecl::Unit => true,
    }
}

} // verus!
