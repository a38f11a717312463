//! The metadata emitter: from a record declaration to the row description
//! that a serialization layer consumes, or to the diagnostics that refuse it.

use crate::analyze::{column_names, spec_names_of, views_of};
use crate::decl::{fields_empty, fields_is_empty, DataDecl, FieldsDecl, TypeDecl};
use crate::rename::rule_applicable;
use vstd::prelude::*;

verus! {

/// The record-kind discriminator of an emitted description.
#[derive(Clone, Copy, Debug, PartialEq, Eq)]
pub enum RowKind {
    /// A plain structural record, the only kind this emitter produces.
    Struct,
}

/// The value-type binding: how the borrowed view of the record is
/// parameterized, decided by the declaration's lifetime count.
#[derive(Clone, Copy, Debug, PartialEq, Eq)]
pub enum ValueBinding {
    /// Zero lifetime parameters: the view is the record type itself.
    SelfType,
    /// Exactly one lifetime parameter: the view is the record type with the
    /// declared lifetime replaced by the description's own fresh lifetime.
    SelfWithFreshLifetime,
}

/// Where a diagnostic is attached.
#[derive(Clone, Debug, PartialEq, Eq)]
pub enum DiagTarget {
    /// The declaration's name.
    TypeName,
    /// The lifetime parameter with this name.
    Lifetime(String),
    /// An attribute, described by the attribute-parsing layer.
    Attribute(String),
}

/// One diagnostic: a message attached to a piece of the declaration.
#[derive(Clone, Debug, PartialEq, Eq)]
pub struct Diagnostic {
    /// Where the diagnostic points.
    pub target: DiagTarget,
    /// The human-readable reason.
    pub message: String,
}

/// The emitted row description: the static metadata the serialization layer
/// reads for one record type.
#[derive(Clone, Debug, PartialEq, Eq)]
pub struct RowDescription {
    /// The name constant: the declaration's literal identifier.
    pub name: String,
    /// The column-name list constant, in declaration order.
    pub column_names: Vec<String>,
    /// The column-count constant, always the length of `column_names`.
    pub column_count: usize,
    /// The record-kind discriminator.
    pub kind: RowKind,
    /// The value-type binding of the borrowed view.
    pub value: ValueBinding,
}

/// The diagnostic for a unit or empty structural declaration.
pub open spec fn empty_struct_message() -> Seq<char> {
    "`Row` cannot be derived for unit or empty structs"@
}

/// The diagnostic for a sum or union declaration.
pub open spec fn only_structs_message() -> Seq<char> {
    "`Row` can only be derived for structs"@
}

/// The diagnostic for a declaration with two or more lifetime parameters.
pub open spec fn multiple_lifetimes_message() -> Seq<char> {
    "`Row` cannot be derived for structs with multiple lifetimes"@
}

/// The emitter. Diagnostics accumulated by the attribute-parsing layer are
/// returned first, all together; then the declaration's shape is judged; then
/// its lifetime count. A refused declaration receives no description at all.
pub fn row_impl(input: &TypeDecl, attribute_diagnostics: Vec<Diagnostic>) -> (r: Result<
    RowDescription,
    Vec<Diagnostic>,
>)
    requires
        input.data matches DataDecl::Struct(FieldsDecl::Named(fs)) ==> rule_applicable(
            input.rename_all,
            fs@,
        ),
    ensures
        r is Err <==> (attribute_diagnostics@.len() > 0 || !(input.data is Struct)
            || fields_is_empty(input.data->Struct_0) || input.lifetimes@.len() >= 2),
        attribute_diagnostics@.len() > 0 ==> (r is Err && r->Err_0 == attribute_diagnostics),
        attribute_diagnostics@.len() == 0 && (input.data is Enum || input.data is Union) ==> (
        r is Err && r->Err_0@.len() == 1 && r->Err_0@[0].target is TypeName
            && r->Err_0@[0].message@ == only_structs_message()),
        attribute_diagnostics@.len() == 0 && input.data is Struct && fields_is_empty(
            input.data->Struct_0,
        ) ==> (r is Err && r->Err_0@.len() == 1 && r->Err_0@[0].target is TypeName
            && r->Err_0@[0].message@ == empty_struct_message()),
        attribute_diagnostics@.len() == 0 && input.data is Struct && !fields_is_empty(
            input.data->Struct_0,
        ) && input.lifetimes@.len() >= 2 ==> (r is Err && r->Err_0@.len() == 1
            && r->Err_0@[0].target is Lifetime && r->Err_0@[0].target->Lifetime_0@
            == input.lifetimes@[1]@ && r->Err_0@[0].message@ == multiple_lifetimes_message()),
        attribute_diagnostics@.len() == 0 && input.data is Struct && !fields_is_empty(
            input.data->Struct_0,
        ) && input.lifetimes@.len() < 2 ==> (r is Ok && r->Ok_0.name@ == input.name@ && views_of(
            r->Ok_0.column_names@,
        ) == spec_names_of(input.rename_all, input.data->Struct_0) && r->Ok_0.kind is Struct && (
        input.lifetimes@.len() == 0 ==> r->Ok_0.value is SelfType) && (input.lifetimes@.len() == 1
            ==> r->Ok_0.value is SelfWithFreshLifetime)),
        r is Ok ==> r->Ok_0.column_count == r->Ok_0.column_names@.len(),
{
    if attribute_diagnostics.len() > 0 {
        return Err(attribute_diagnostics);
    }
    match &input.data {
        DataDecl::Enum | DataDecl::Union => {
            let d = Diagnostic {
                target: DiagTarget::TypeName,
                message: "`Row` can only be derived for structs".to_owned(),
            };
            Err(vec![d])
        },
        DataDecl::Struct(fields) => {
            if fields_empty(fields) {
                let d = Diagnostic {
                    target: DiagTarget::TypeName,
                    message: "`Row` cannot be derived for unit or empty structs".to_owned(),
                };
                Err(vec![d])
            } else {
                let names = column_names(fields, input.rename_all);
                if input.lifetimes.len() >= 2 {
                    let d = Diagnostic {
                        target: DiagTarget::Lifetime(input.lifetimes[1].clone()),
                        message: "`Row` cannot be derived for structs with multiple lifetimes".to_owned(),
                    };
                    Err(vec![d])
                } else {
                    let value = if input.lifetimes.len() == 0 {
                        ValueBinding::SelfType
                    } else {
                        ValueBinding::SelfWithFreshLifetime
                    };
                    let count = names.len();
                    Ok(
                        RowDescription {
                            name: input.name.clone(),
                            column_names: names,
                            column_count: count,
                            kind: RowKind::Struct,
                            value,
                        },
                    )
                }
            }
        },
    }
}

} // verus!
