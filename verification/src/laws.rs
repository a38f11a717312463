//! Laws of the analyzer: what holds of the column-name list of every named
//! field list, beyond the exact contracts of the functions that build it.

use crate::analyze::{spec_column_names, spec_effective_name};
use crate::decl::{field_included, FieldDecl, RenameRule};
use vstd::prelude::*;

verus! {

/// How many fields of the list carry no skip directive.
pub open spec fn count_included(fields: Seq<FieldDecl>) -> nat
    decreases fields.len(),
{
    if fields.len() == 0 {
        0
    } else {
        (if field_included(fields[0]) {
            1nat
        } else {
            0nat
        }) + count_included(fields.drop_first())
    }
}

/// Law: the column-name list has exactly one entry per field that carries no
/// skip directive.
pub proof fn lemma_length_counts_included(rule: RenameRule, fields: Seq<FieldDecl>)
    ensures
        spec_column_names(rule, fields).len() == count_included(fields),
    decreases fields.len(),
{
    if fields.len() > 0 {
        lemma_length_counts_included(rule, fields.drop_first());
    }
}

/// Law: with no skip directive on any field, the column-name list has one
/// entry per field — the field's effective name — in declaration order.
pub proof fn lemma_no_skips_full_length(rule: RenameRule, fields: Seq<FieldDecl>)
    requires
        forall|i: int| 0 <= i < fields.len() ==> field_included(#[trigger] fields[i]),
    ensures
        spec_column_names(rule, fields).len() == fields.len(),
        forall|i: int|
            0 <= i < fields.len() ==> spec_column_names(rule, fields)[i] == spec_effective_name(
                rule,
                #[trigger] fields[i],
            ),
    decreases fields.len(),
{
    if fields.len() > 0 {
        assert(forall|i: int|
            0 <= i < fields.drop_first().len() ==> field_included(
                #[trigger] fields.drop_first()[i],
            ));
        lemma_no_skips_full_length(rule, fields.drop_first());
        assert(field_included(fields[0]));
        assert forall|i: int| 0 <= i < fields.len() implies spec_column_names(rule, fields)[i]
            == spec_effective_name(rule, #[trigger] fields[i]) by {
            if i > 0 {
                assert(spec_column_names(rule, fields)[i] == spec_column_names(
                    rule,
                    fields.drop_first(),
                )[i - 1]);
                assert(fields.drop_first()[i - 1] == fields[i]);
            }
        }
    }
}

/// Law: a name stands in the column-name list exactly when some field without
/// a skip directive has it as its effective name.
pub proof fn lemma_contains_iff_included(rule: RenameRule, fields: Seq<FieldDecl>, x: Seq<char>)
    ensures
        spec_column_names(rule, fields).contains(x) <==> exists|j: int|
            0 <= j < fields.len() && field_included(#[trigger] fields[j]) && spec_effective_name(
                rule,
                fields[j],
            ) == x,
    decreases fields.len(),
{
    if fields.len() == 0 {
    } else {
        lemma_contains_iff_included(rule, fields.drop_first(), x);
        let names = spec_column_names(rule, fields);
        let rest = spec_column_names(rule, fields.drop_first());
        if field_included(fields[0]) {
            assert(names == seq![spec_effective_name(rule, fields[0])] + rest);
            if names.contains(x) {
                let k = choose|k: int| 0 <= k < names.len() && names[k] == x;
                if k == 0 {
                    assert(field_included(fields[0]) && spec_effective_name(rule, fields[0]) == x);
                } else {
                    assert(rest[k - 1] == x);
                    assert(rest.contains(x));
                    let j = choose|j: int|
                        0 <= j < fields.drop_first().len() && field_included(
                            #[trigger] fields.drop_first()[j],
                        ) && spec_effective_name(rule, fields.drop_first()[j]) == x;
                    assert(fields.drop_first()[j] == fields[j + 1]);
                    assert(field_included(fields[j + 1]) && spec_effective_name(
                        rule,
                        fields[j + 1],
                    ) == x);
                }
            }
            if exists|j: int|
                0 <= j < fields.len() && field_included(#[trigger] fields[j])
                    && spec_effective_name(rule, fields[j]) == x {
                let j = choose|j: int|
                    0 <= j < fields.len() && field_included(#[trigger] fields[j])
                        && spec_effective_name(rule, fields[j]) == x;
                if j == 0 {
                    assert(names[0] == x);
                } else {
                    assert(fields.drop_first()[j - 1] == fields[j]);
                    assert(rest.contains(x));
                    let k = choose|k: int| 0 <= k < rest.len() && rest[k] == x;
                    assert(names[k + 1] == x);
                }
            }
        } else {
            assert(names == rest);
            if names.contains(x) {
                let j = choose|j: int|
                    0 <= j < fields.drop_first().len() && field_included(
                        #[trigger] fields.drop_first()[j],
                    ) && spec_effective_name(rule, fields.drop_first()[j]) == x;
                assert(fields.drop_first()[j] == fields[j + 1]);
                assert(field_included(fields[j + 1]) && spec_effective_name(rule, fields[j + 1])
                    == x);
            }
            if exists|j: int|
                0 <= j < fields.len() && field_included(#[trigger] fields[j])
                    && spec_effective_name(rule, fields[j]) == x {
                let j = choose|j: int|
                    0 <= j < fields.len() && field_included(#[trigger] fields[j])
                        && spec_effective_name(rule, fields[j]) == x;
                assert(j != 0);
                assert(fields.drop_first()[j - 1] == fields[j]);
                assert(rest.contains(x));
            }
        }
    }
}

/// Law: the effective name of a field marked skip-serializing or
/// skip-deserializing never stands in the column-name list, as long as no
/// included field shares that effective name.
pub proof fn lemma_skipped_name_absent(rule: RenameRule, fields: Seq<FieldDecl>, i: int)
    requires
        0 <= i < fields.len(),
        !field_included(fields[i]),
        forall|j: int|
            0 <= j < fields.len() && field_included(#[trigger] fields[j]) ==> spec_effective_name(
                rule,
                fields[j],
            ) != spec_effective_name(rule, fields[i]),
    ensures
        !spec_column_names(rule, fields).contains(spec_effective_name(rule, fields[i])),
{
    lemma_contains_iff_included(rule, fields, spec_effective_name(rule, fields[i]));
}

/// Law: clearing the skip directives of one skipped field lengthens the
/// column-name list by exactly one — a skipped field costs one entry.
pub proof fn lemma_skip_shortens_by_one(
    rule: RenameRule,
    fields: Seq<FieldDecl>,
    i: int,
    replacement: FieldDecl,
)
    requires
        0 <= i < fields.len(),
        !field_included(fields[i]),
        field_included(replacement),
    ensures
        spec_column_names(rule, fields.update(i, replacement)).len() == spec_column_names(
            rule,
            fields,
        ).len() + 1,
{
    lemma_length_counts_included(rule, fields);
    lemma_length_counts_included(rule, fields.update(i, replacement));
    lemma_count_included_update(fields, i, replacement);
}

/// Replacing one skipped field by an included one raises the included count
/// by exactly one.
proof fn lemma_count_included_update(fields: Seq<FieldDecl>, i: int, replacement: FieldDecl)
    requires
        0 <= i < fields.len(),
        !field_included(fields[i]),
        field_included(replacement),
    ensures
        count_included(fields.update(i, replacement)) == count_included(fields) + 1,
    decreases fields.len(),
{
    let updated = fields.update(i, replacement);
    if i == 0 {
        assert(updated[0] == replacement);
        assert(updated.drop_first() =~= fields.drop_first());
    } else {
        assert(updated[0] == fields[0]);
        assert(updated.drop_first() =~= fields.drop_first().update(i - 1, replacement));
        assert(fields.drop_first()[i - 1] == fields[i]);
        lemma_count_included_update(fields.drop_first(), i - 1, replacement);
    }
}

} // verus!
