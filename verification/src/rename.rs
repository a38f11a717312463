//! Application of the container-level rename rule to a field's source name.
//!
//! The case conversion itself is done by `serde_derive_internals`; this
//! module states what of it the rest of the crate relies on.

use crate::decl::{FieldDecl, RenameRule};
use serde_derive_internals::attr::RenameRule as SdRenameRule;
use vstd::prelude::*;
use vstd::utf8::is_ascii_chars;

verus! {

/// What `RenameRule::apply_to_field` returns for the rules that transform a
/// name (told apart by `rule_id`); the exact case conversion is not restated.
pub uninterp spec fn rename_applied(rule: int, name: Seq<char>) -> Seq<char>;

/// A numeric tag for each rename rule, used to index `rename_applied`.
pub open spec fn rule_id(rule: RenameRule) -> int {
    match rule {
        RenameRule::Unchanged => 0,
        RenameRule::Lower => 1,
        RenameRule::Upper => 2,
        RenameRule::Pascal => 3,
        RenameRule::Camel => 4,
        RenameRule::Snake => 5,
        RenameRule::ScreamingSnake => 6,
        RenameRule::Kebab => 7,
        RenameRule::ScreamingKebab => 8,
    }
}

/// The rules under which a field's source name is already in the requested
/// style, so that applying the rule returns it exactly as written.
pub open spec fn rule_is_identity(rule: RenameRule) -> bool {
    rule is Unchanged || rule is Lower || rule is Snake
}

/// The result of applying a container rule to a field's source name.
pub open spec fn spec_rename(rule: RenameRule, name: Seq<char>) -> Seq<char> {
    if rule_is_identity(rule) {
        name
    } else {
        rename_applied(rule_id(rule), name)
    }
}

/// The camel-case rule uppercases the first character after any leading
/// underscores; it is defined only for ASCII names that hold at least one
/// character other than an underscore.
pub open spec fn camel_applicable(name: Seq<char>) -> bool {
    &&& is_ascii_chars(name)
    &&& exists|i: int| 0 <= i < name.len() && name[i] != '_'
}

/// Whether the rule can be applied to every field that has no explicit
/// rename of its own.
pub open spec fn rule_applicable(rule: RenameRule, fields: Seq<FieldDecl>) -> bool {
    rule is Camel ==> forall|i: int|
        0 <= i < fields.len() && fields[i].rename is None ==> camel_applicable(fields[i].name@)
}

/// Relies on `serde_derive_internals::attr::RenameRule::apply_to_field`: the
/// result is a pure case conversion of the given name, and for the rules
/// `None`, `LowerCase` and `SnakeCase` its source returns the name as given.
/// Its camel-case arm slices the converted name at its first byte, so that
/// rule is only called on ASCII names with a non-underscore character.
#[verifier::external_body]
pub(crate) fn apply_rename(rule: RenameRule, name: &str) -> (r: String)
    requires
        rule is Camel ==> camel_applicable(name@),
    ensures
        rule_is_identity(rule) ==> r@ == name@,
        !rule_is_identity(rule) ==> r@ == rename_applied(rule_id(rule), name@),
        r@ == spec_rename(rule, name@),
{
    let sd_rule = match rule {
        RenameRule::Unchanged => SdRenameRule::None,
        RenameRule::Lower => SdRenameRule::LowerCase,
        RenameRule::Upper => SdRenameRule::UpperCase,
        RenameRule::Pascal => SdRenameRule::PascalCase,
        RenameRule::Camel => SdRenameRule::CamelCase,
        RenameRule::Snake => SdRenameRule::SnakeCase,
        RenameRule::ScreamingSnake => SdRenameRule::ScreamingSnakeCase,
        RenameRule::Kebab => SdRenameRule::KebabCase,
        RenameRule::ScreamingKebab => SdRenameRule::ScreamingKebabCase,
    };
    sd_rule.apply_to_field(name)
}

} // verus!
