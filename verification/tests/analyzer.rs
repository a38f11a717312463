//! Direct checks of the field analyzer.

use row_derive::analyze::column_names;
use row_derive::decl::{fields_empty, FieldDecl, FieldsDecl, RenameRule};

fn field(name: &str, rename: Option<&str>, skip_ser: bool, skip_de: bool) -> FieldDecl {
    FieldDecl {
        name: name.to_owned(),
        rename: rename.map(|r| r.to_owned()),
        skip_serializing: skip_ser,
        skip_deserializing: skip_de,
    }
}

#[test]
fn named_fields_filter_and_rename_in_order() {
    let fields = FieldsDecl::Named(vec![
        field("id", None, false, false),
        field("created", Some("ts"), false, false),
        field("note", None, true, false),
        field("shadow", None, false, true),
        field("body", None, false, false),
    ]);
    let names = column_names(&fields, RenameRule::Unchanged);
    assert_eq!(names, vec!["id".to_owned(), "ts".to_owned(), "body".to_owned()]);
}

#[test]
fn positional_fields_yield_no_names() {
    let names = column_names(&FieldsDecl::Unnamed(5), RenameRule::Upper);
    assert!(names.is_empty());
}

#[test]
fn container_rule_reaches_only_unrenamed_fields() {
    let fields = FieldsDecl::Named(vec![
        field("user_id", None, false, false),
        field("user_name", Some("who"), false, false),
    ]);
    let names = column_names(&fields, RenameRule::Camel);
    assert_eq!(names, vec!["userId".to_owned(), "who".to_owned()]);
}

#[test]
fn emptiness_of_each_field_list_shape() {
    assert!(fields_empty(&FieldsDecl::Named(Vec::new())));
    assert!(fields_empty(&FieldsDecl::Unnamed(0)));
    assert!(fields_empty(&FieldsDecl::Unit));
    assert!(!fields_empty(&FieldsDecl::Unnamed(2)));
    assert!(!fields_empty(&FieldsDecl::Named(vec![field("a", None, false, false)])));
}
