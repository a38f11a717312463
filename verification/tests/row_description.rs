//! End-to-end checks of the emitter on whole declarations.

use row_derive::decl::{DataDecl, FieldDecl, FieldsDecl, RenameRule, TypeDecl};
use row_derive::emit::{row_impl, DiagTarget, Diagnostic, RowKind, ValueBinding};

fn field(name: &str) -> FieldDecl {
    FieldDecl {
        name: name.to_owned(),
        rename: None,
        skip_serializing: false,
        skip_deserializing: false,
    }
}

fn named_struct(name: &str, lifetimes: &[&str], rule: RenameRule, fields: Vec<FieldDecl>) -> TypeDecl {
    TypeDecl {
        name: name.to_owned(),
        lifetimes: lifetimes.iter().map(|l| (*l).to_owned()).collect(),
        rename_all: rule,
        data: DataDecl::Struct(FieldsDecl::Named(fields)),
    }
}

fn column_names_of(decl: &TypeDecl) -> Vec<String> {
    row_impl(decl, Vec::new()).expect("emission owed").column_names
}

#[test]
fn renamed_and_skipped_fields() {
    let fields = vec![
        field("id"),
        FieldDecl {
            name: "created".to_owned(),
            rename: Some("ts".to_owned()),
            skip_serializing: false,
            skip_deserializing: false,
        },
        FieldDecl {
            name: "note".to_owned(),
            rename: None,
            skip_serializing: true,
            skip_deserializing: true,
        },
    ];
    let decl = named_struct("A", &[], RenameRule::Unchanged, fields);
    let desc = row_impl(&decl, Vec::new()).expect("emission owed");
    assert_eq!(desc.name, "A");
    assert_eq!(desc.column_names, vec!["id".to_owned(), "ts".to_owned()]);
    assert_eq!(desc.column_count, 2);
    assert_eq!(desc.kind, RowKind::Struct);
    assert_eq!(desc.value, ValueBinding::SelfType);
}

#[test]
fn no_skips_gives_one_column_per_field() {
    let decl = named_struct(
        "Point",
        &[],
        RenameRule::Unchanged,
        vec![field("x"), field("y"), field("z")],
    );
    let desc = row_impl(&decl, Vec::new()).expect("emission owed");
    assert_eq!(desc.column_names, vec!["x".to_owned(), "y".to_owned(), "z".to_owned()]);
    assert_eq!(desc.column_count, 3);
}

#[test]
fn each_skip_flag_excludes_the_field() {
    for (skip_ser, skip_de) in [(true, false), (false, true), (true, true)] {
        let fields = vec![
            field("kept"),
            FieldDecl {
                name: "dropped".to_owned(),
                rename: None,
                skip_serializing: skip_ser,
                skip_deserializing: skip_de,
            },
        ];
        let decl = named_struct("S", &[], RenameRule::Unchanged, fields);
        let desc = row_impl(&decl, Vec::new()).expect("emission owed");
        assert_eq!(desc.column_names, vec!["kept".to_owned()]);
        assert_eq!(desc.column_count, 1);
        assert!(!desc.column_names.contains(&"dropped".to_owned()));
    }
}

#[test]
fn count_always_equals_list_length() {
    let shapes = vec![
        named_struct("A", &[], RenameRule::Unchanged, vec![field("a")]),
        named_struct("B", &["a"], RenameRule::Upper, vec![field("a"), field("b")]),
        TypeDecl {
            name: "C".to_owned(),
            lifetimes: Vec::new(),
            rename_all: RenameRule::Unchanged,
            data: DataDecl::Struct(FieldsDecl::Unnamed(4)),
        },
    ];
    for decl in shapes {
        let desc = row_impl(&decl, Vec::new()).expect("emission owed");
        assert_eq!(desc.column_count, desc.column_names.len());
    }
}

#[test]
fn positional_fields_have_no_columns() {
    for n in [1usize, 2, 7] {
        let decl = TypeDecl {
            name: "Tuple".to_owned(),
            lifetimes: Vec::new(),
            rename_all: RenameRule::Unchanged,
            data: DataDecl::Struct(FieldsDecl::Unnamed(n)),
        };
        let desc = row_impl(&decl, Vec::new()).expect("emission owed");
        assert!(desc.column_names.is_empty());
        assert_eq!(desc.column_count, 0);
    }
}

#[test]
fn zero_lifetimes_binds_self() {
    let decl = named_struct("Owned", &[], RenameRule::Unchanged, vec![field("data")]);
    let desc = row_impl(&decl, Vec::new()).expect("emission owed");
    assert_eq!(desc.value, ValueBinding::SelfType);
}

#[test]
fn one_lifetime_binds_fresh_lifetime() {
    let decl = named_struct("Borrowed", &["a"], RenameRule::Unchanged, vec![field("data")]);
    let desc = row_impl(&decl, Vec::new()).expect("emission owed");
    assert_eq!(desc.value, ValueBinding::SelfWithFreshLifetime);
}

#[test]
fn empty_struct_is_refused_on_the_type_name() {
    for fields in [FieldsDecl::Named(Vec::new()), FieldsDecl::Unnamed(0), FieldsDecl::Unit] {
        let decl = TypeDecl {
            name: "Empty".to_owned(),
            lifetimes: Vec::new(),
            rename_all: RenameRule::Unchanged,
            data: DataDecl::Struct(fields),
        };
        let errs = row_impl(&decl, Vec::new()).expect_err("refusal owed");
        assert_eq!(errs.len(), 1);
        assert_eq!(errs[0].target, DiagTarget::TypeName);
        assert_eq!(errs[0].message, "`Row` cannot be derived for unit or empty structs");
    }
}

#[test]
fn sum_and_union_types_are_refused_on_the_type_name() {
    for data in [DataDecl::Enum, DataDecl::Union] {
        let decl = TypeDecl {
            name: "NotAStruct".to_owned(),
            lifetimes: Vec::new(),
            rename_all: RenameRule::Unchanged,
            data,
        };
        let errs = row_impl(&decl, Vec::new()).expect_err("refusal owed");
        assert_eq!(errs.len(), 1);
        assert_eq!(errs[0].target, DiagTarget::TypeName);
        assert_eq!(errs[0].message, "`Row` can only be derived for structs");
    }
}

#[test]
fn two_lifetimes_are_refused_on_the_second() {
    let decl = named_struct("TwoLives", &["a", "b"], RenameRule::Unchanged, vec![field("data")]);
    let errs = row_impl(&decl, Vec::new()).expect_err("refusal owed");
    assert_eq!(errs.len(), 1);
    assert_eq!(errs[0].target, DiagTarget::Lifetime("b".to_owned()));
    assert_eq!(errs[0].message, "`Row` cannot be derived for structs with multiple lifetimes");
}

#[test]
fn three_lifetimes_are_refused_on_the_second() {
    let decl = named_struct("ThreeLives", &["x", "y", "z"], RenameRule::Unchanged, vec![field("data")]);
    let errs = row_impl(&decl, Vec::new()).expect_err("refusal owed");
    assert_eq!(errs.len(), 1);
    assert_eq!(errs[0].target, DiagTarget::Lifetime("y".to_owned()));
}

#[test]
fn attribute_diagnostics_come_back_batched_and_first() {
    // The declaration alone would be refused for its shape; the accumulated
    // attribute diagnostics still take precedence and come back together.
    let decl = TypeDecl {
        name: "Bad".to_owned(),
        lifetimes: Vec::new(),
        rename_all: RenameRule::Unchanged,
        data: DataDecl::Enum,
    };
    let diags = vec![
        Diagnostic {
            target: DiagTarget::Attribute("first".to_owned()),
            message: "unknown serde attribute".to_owned(),
        },
        Diagnostic {
            target: DiagTarget::Attribute("second".to_owned()),
            message: "duplicate rename".to_owned(),
        },
    ];
    let errs = row_impl(&decl, diags.clone()).expect_err("refusal owed");
    assert_eq!(errs, diags);
}

#[test]
fn rejected_declarations_emit_nothing() {
    let empty = TypeDecl {
        name: "Empty".to_owned(),
        lifetimes: Vec::new(),
        rename_all: RenameRule::Unchanged,
        data: DataDecl::Struct(FieldsDecl::Unit),
    };
    assert!(row_impl(&empty, Vec::new()).is_err());
    let two = named_struct("TwoLives", &["a", "b"], RenameRule::Unchanged, vec![field("data")]);
    assert!(row_impl(&two, Vec::new()).is_err());
}

#[test]
fn rename_all_rules_apply_to_source_names() {
    let cases = [
        (RenameRule::Unchanged, "created_at"),
        (RenameRule::Lower, "created_at"),
        (RenameRule::Snake, "created_at"),
        (RenameRule::Upper, "CREATED_AT"),
        (RenameRule::Pascal, "CreatedAt"),
        (RenameRule::Camel, "createdAt"),
        (RenameRule::ScreamingSnake, "CREATED_AT"),
        (RenameRule::Kebab, "created-at"),
        (RenameRule::ScreamingKebab, "CREATED-AT"),
    ];
    for (rule, expected) in cases {
        let decl = named_struct("S", &[], rule, vec![field("created_at")]);
        assert_eq!(column_names_of(&decl), vec![expected.to_owned()], "rule {:?}", rule);
    }
}

#[test]
fn explicit_rename_overrides_the_container_rule() {
    let fields = vec![FieldDecl {
        name: "created_at".to_owned(),
        rename: Some("ts".to_owned()),
        skip_serializing: false,
        skip_deserializing: false,
    }];
    let decl = named_struct("S", &[], RenameRule::Upper, fields);
    assert_eq!(column_names_of(&decl), vec!["ts".to_owned()]);
}

#[test]
fn columns_keep_declaration_order() {
    let decl = named_struct(
        "Ordered",
        &[],
        RenameRule::Unchanged,
        vec![field("zeta"), field("alpha"), field("mid")],
    );
    assert_eq!(
        column_names_of(&decl),
        vec!["zeta".to_owned(), "alpha".to_owned(), "mid".to_owned()]
    );
}
