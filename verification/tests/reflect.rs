use std::collections::HashMap;

use ayr::reflect::leaf::{FieldName, Layout, MetaData, ThisType, Visibility};
use ayr::reflect::model::{Field, Fields, MutType, Param, RefType, Type};
use ayr::reflect::path::Path;
use ayr::reflect::type_of::{ToType, TypeOf};

#[test]
fn type_of() {
    let ty = <HashMap<String, bool> as TypeOf>::type_of();

    assert!(ty.is_map());
    assert_eq!(ty.as_map().key(), &<String as TypeOf>::type_of());
    assert_eq!(ty.as_map().value(), &<bool as TypeOf>::type_of());
}

#[test]
fn mutable_basic() {
    let ty = <&mut i8 as TypeOf>::type_of();
    assert!(ty.is_mut());
}

#[test]
fn ref_int() {
    let ty = RefType::new(<i32 as TypeOf>::type_of());
    assert_eq!(ty.id().as_str(), ty.id().as_str());
    assert!(ty.to_type().is_ref());
}

#[test]
fn bool() {
    let ty = RefType::new(<bool as TypeOf>::type_of());
    assert!(ty.to_type().is_ref());
}

#[test]
fn ref_id_is_ampersand_and_inner_id() {
    let ty = RefType::new(<i32 as TypeOf>::type_of());
    assert_eq!(ty.id().as_str(), "&i32");
    assert_eq!(ty.to_type().to_string(), "&i32");
}

#[test]
fn map_type_id_is_collection_path() {
    let ty = <HashMap<String, bool> as TypeOf>::type_of();
    assert_eq!(ty.id().as_str(), "std::collections::HashMap");
}

#[test]
fn type_is_assignable_and_convertable_to_itself() {
    let ty = <i32 as TypeOf>::type_of();
    assert!(ty.assignable_to(<i32 as TypeOf>::type_of()));
    assert!(ty.convertable_to(<i32 as TypeOf>::type_of()));
    assert!(!ty.assignable_to(<i64 as TypeOf>::type_of()));
    assert!(ty.convertable_to(<i64 as TypeOf>::type_of()));
    assert!(!ty.convertable_to(<bool as TypeOf>::type_of()));
}

#[test]
fn any_and_void_are_assignable_to_nothing() {
    assert!(!Type::Any.assignable_to(Type::Any));
    assert!(!Type::Void.assignable_to(Type::Void));
    assert!(!Type::Any.convertable_to(Type::Any));
}

#[test]
fn path_parse_splits_trims_and_drops_raw_mod() {
    let p = Path::parse("std:: collections ::r#mod::HashMap");
    assert_eq!(p.len(), 3);
    assert_eq!(p.parts()[0], "std");
    assert_eq!(p.parts()[1], "collections");
    assert_eq!(p.name(), "HashMap");
    assert_eq!(p.to_string(), "std::collections::HashMap");
}

#[test]
fn path_to_string_then_parse_gives_the_path_back() {
    let p = Path::new().push("core").push("option").push("Option");
    let back = Path::parse(p.to_string().as_str());
    assert!(back.same(&p));
}

#[test]
fn empty_path_reads_back_as_one_empty_part() {
    let p = Path::new();
    assert_eq!(p.to_string(), "");
    let back = Path::parse(p.to_string().as_str());
    assert_eq!(back.len(), 1);
    assert_eq!(back.name(), "");
}

#[test]
fn path_add_appends_parts() {
    let a = Path::parse("a::b");
    let b = Path::parse("c");
    let c = a.add(&b);
    assert_eq!(c.to_string(), "a::b::c");
    assert!(c.duplicate().same(&c));
}

#[test]
fn metadata_get_after_insert() {
    let mut m = MetaData::new();
    assert_eq!(m.get("a"), None);
    m.insert("a", "21");
    m.insert("b", "true");
    assert_eq!(m.get("a"), Some("21"));
    assert_eq!(m.get("b"), Some("true"));
    m.insert("a", "22");
    assert_eq!(m.get("a"), Some("22"));
    assert_eq!(m.get("b"), Some("true"));
    assert_eq!(m.len(), 2);
}

fn named(name: &str) -> Field {
    Field::new(Visibility::Private, FieldName::from_key(name), <i32 as TypeOf>::type_of())
}

#[test]
fn fields_lookup_finds_first_field_of_a_name() {
    let fields = Fields::new()
        .layout(Layout::Key)
        .field(named("x"))
        .field(named("y"))
        .build();
    assert!(fields.has(&FieldName::from_key("x")));
    assert!(fields.has(&FieldName::from_key("y")));
    assert!(!fields.has(&FieldName::from_key("z")));
    assert!(fields.get(&FieldName::from_key("z")).is_none());
    assert!(fields.get(&FieldName::from_key("y")).is_some());
    assert_eq!(fields.len(), 2);
}

#[test]
fn tuple_types_list_their_elements() {
    let pair = <(i32, bool) as TypeOf>::type_of();
    assert!(pair.is_tuple());
    assert_eq!(pair.id().as_str(), "(i32, bool)");
    assert_eq!((1i32, true).to_type(), pair);
    let seven = <(u8, u16, u32, u64, i8, i16, String) as TypeOf>::type_of();
    assert_eq!(seven.len(), 7);
    assert_eq!(seven.id().as_str(), "(u8, u16, u32, u64, i8, i16, string)");
}

#[test]
fn option_type_is_the_core_enum() {
    let ty = <Option<u8> as TypeOf>::type_of();
    assert!(ty.is_enum());
    assert_eq!(ty.id().as_str(), "core::option::Option");
    assert_eq!(ty.path().to_string(), "core::option");
}

#[test]
fn vec_and_array_types_are_slices() {
    let v = <Vec<i32> as TypeOf>::type_of();
    assert!(v.is_slice());
    assert_eq!(v.id().as_str(), "[i32]");
    let a = <[bool; 3] as TypeOf>::type_of();
    assert_eq!(a.id().as_str(), "[bool; 3]");
    assert_eq!(a.len(), 3);
}

#[test]
fn any_and_void_are_assignable_to_nothing_even_without_ids() {
    let tuple = <(i32, bool) as TypeOf>::type_of();
    assert!(!Type::Any.assignable_to(tuple));
    assert!(!Type::Void.assignable_to(<i32 as TypeOf>::type_of()));
}

#[test]
fn receivers_are_written_as_self_forms() {
    let this = || Type::This(ThisType);
    let cases = vec![
        (this(), "self"),
        (MutType::new(this()).to_type(), "mut self"),
        (RefType::new(this()).to_type(), "&self"),
        (RefType::new(MutType::new(this()).to_type()).to_type(), "&mut self"),
    ];
    for (ty, expected) in cases {
        let mut out = String::new();
        Param::new("self", ty).write(&mut out);
        assert_eq!(out, expected);
    }
    let mut out = String::new();
    Param::new("x", <i32 as TypeOf>::type_of()).write(&mut out);
    assert_eq!(out, "x: i32");
}
