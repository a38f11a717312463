//! The field analyzer: from a field list and the container's rename rule to
//! the ordered list of column names.

use crate::decl::{field_included, fields_is_empty, FieldDecl, FieldsDecl, RenameRule};
use crate::rename::{apply_rename, rule_applicable, spec_rename};
use vstd::prelude::*;

verus! {

/// The effective serialized name of one field: its explicit rename if
/// present, else the container rule applied to its source name.
pub open spec fn spec_effective_name(rule: RenameRule, f: FieldDecl) -> Seq<char> {
    match f.rename {
        Option::Some(n) => n@,
        Option::None => spec_rename(rule, f.name@),
    }
}

/// The column names of a named field list: the effective names of the fields
/// that carry no skip directive, in declaration order.
pub open spec fn spec_column_names(rule: RenameRule, fields: Seq<FieldDecl>) -> Seq<Seq<char>>
    decreases fields.len(),
{
    if fields.len() == 0 {
        Seq::empty()
    } else if field_included(fields[0]) {
        seq![spec_effective_name(rule, fields[0])] + spec_column_names(rule, fields.drop_first())
    } else {
        spec_column_names(rule, fields.drop_first())
    }
}

/// The column names of a whole field list: named fields contribute their
/// effective names; positional fields contribute none.
pub open spec fn spec_names_of(rule: RenameRule, fields: FieldsDecl) -> Seq<Seq<char>> {
    match fields {
        FieldsDecl::Named(fs) => spec_column_names(rule, fs@),
        FieldsDecl::Unnamed(_) => Seq::empty(),
        FieldsDecl::Unit => Seq::empty(),
    }
}

/// The views of a sequence of strings.
pub open spec fn views_of(s: Seq<String>) -> Seq<Seq<char>> {
    s.map_values(|x: String| x@)
}

/// Appending one field extends the column-name list by that field's
/// effective name exactly when the field is included.
pub proof fn lemma_spec_column_names_push(rule: RenameRule, fields: Seq<FieldDecl>, f: FieldDecl)
    ensures
        spec_column_names(rule, fields.push(f)) == spec_column_names(rule, fields) + (if field_included(f) {
            seq![spec_effective_name(rule, f)]
        } else {
            Seq::<Seq<char>>::empty()
        }),
    decreases fields.len(),
{
    if fields.len() == 0 {
        assert(fields.push(f)[0] == f);
        assert(fields.push(f).drop_first() =~= Seq::<FieldDecl>::empty());
        assert(spec_column_names(rule, Seq::<FieldDecl>::empty()) == Seq::<Seq<char>>::empty());
        assert(spec_column_names(rule, fields) == Seq::<Seq<char>>::empty());
        if field_included(f) {
            assert(spec_column_names(rule, fields.push(f)) == seq![spec_effective_name(rule, f)]
                + spec_column_names(rule, fields.push(f).drop_first()));
            assert(spec_column_names(rule, fields.push(f)) =~= spec_column_names(rule, fields)
                + seq![spec_effective_name(rule, f)]);
        } else {
            assert(spec_column_names(rule, fields.push(f)) == spec_column_names(
                rule,
                fields.push(f).drop_first(),
            ));
            assert(spec_column_names(rule, fields.push(f)) =~= spec_column_names(rule, fields));
        }
    } else {
        lemma_spec_column_names_push(rule, fields.drop_first(), f);
        assert(fields.push(f).drop_first() =~= fields.drop_first().push(f));
        assert(fields.push(f)[0] == fields[0]);
        if field_included(fields[0]) {
            assert(spec_column_names(rule, fields.push(f))
                == seq![spec_effective_name(rule, fields[0])]
                    + spec_column_names(rule, fields.drop_first().push(f)));
            assert(spec_column_names(rule, fields.push(f)) =~= spec_column_names(rule, fields)
                + (if field_included(f) {
                    seq![spec_effective_name(rule, f)]
                } else {
                    Seq::<Seq<char>>::empty()
                }));
        } else {
            assert(spec_column_names(rule, fields.push(f)) =~= spec_column_names(rule, fields)
                + (if field_included(f) {
                    seq![spec_effective_name(rule, f)]
                } else {
                    Seq::<Seq<char>>::empty()
                }));
        }
    }
}

/// The analyzer: collect the effective names of the included fields, in
/// declaration order. A positional field list yields no names at all; an
/// empty field list is rejected before analysis is reached.
pub fn column_names(fields: &FieldsDecl, rule: RenameRule) -> (r: Vec<String>)
    requires
        !fields_is_empty(*fields),
        *fields matches FieldsDecl::Named(fs) ==> rule_applicable(rule, fs@),
    ensures
        views_of(r@) == spec_names_of(rule, *fields),
        *fields matches FieldsDecl::Unnamed(_) ==> r@.len() == 0,
{
    match fields {
        FieldsDecl::Named(fs) => {
            let mut out: Vec<String> = Vec::new();
            let mut i: usize = 0;
            while i < fs.len()
                invariant
                    i <= fs@.len(),
                    rule_applicable(rule, fs@),
                    views_of(out@) == spec_column_names(rule, fs@.take(i as int)),
                decreases fs@.len() - i,
            {
                let f = &fs[i];
                let ghost prefix = fs@.take(i as int);
                let ghost old_out = out@;
                if !f.skip_serializing && !f.skip_deserializing {
                    let name: String = match &f.rename {
                        Option::Some(n) => n.clone(),
                        Option::None => apply_rename(rule, f.name.as_str()),
                    };
                    proof {
                        assert(name@ == spec_effective_name(rule, fs@[i as int]));
                    }
                    out.push(name);
                }
                proof {
                    lemma_spec_column_names_push(rule, prefix, fs@[i as int]);
                    assert(prefix.push(fs@[i as int]) =~= fs@.take(i + 1int));
                    if field_included(fs@[i as int]) {
                        assert(views_of(out@) =~= views_of(old_out).push(out@[out@.len() - 1]@));
                    } else {
                        assert(views_of(out@) =~= views_of(old_out));
                    }
                    assert(views_of(out@) =~= spec_column_names(rule, fs@.take(i + 1int)));
                }
                i = i + 1;
            }
            proof {
                assert(fs@.take(fs@.len() as int) =~= fs@);
            }
            out
        },
        FieldsDecl::Unnamed(_) => Vec::new(),
        FieldsDecl::Unit => {
            proof {
                assert(false);
            }
            Vec::new()
        },
    }
}

} // verus!
