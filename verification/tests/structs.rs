use force_derive::behavior::{combine_into, construct_independent_copy, default_value, equals,
    Value};
use force_derive::{force_copy, DeclKind, FieldShape, GenericParam, ParsedItem, TypeDeclaration};

fn param_t() -> GenericParam {
    GenericParam { name: "T".to_string(), bounds: String::new() }
}

fn tuple_struct_decl() -> TypeDeclaration {
    TypeDeclaration {
        name: "TupleStruct".to_string(),
        generics: vec![param_t()],
        kind: DeclKind::Struct(FieldShape::Positional(2)),
    }
}

fn field_struct_decl() -> TypeDeclaration {
    TypeDeclaration {
        name: "FieldStruct".to_string(),
        generics: vec![param_t()],
        kind: DeclKind::Struct(FieldShape::Named(vec![
            "value".to_string(),
            "marker".to_string(),
        ])),
    }
}

fn unit_struct_decl() -> TypeDeclaration {
    TypeDeclaration {
        name: "UnitStruct".to_string(),
        generics: Vec::new(),
        kind: DeclKind::Struct(FieldShape::Unit),
    }
}

fn tuple_struct_new(value: u64) -> Value {
    Value { variant: 0, slots: vec![value, 0] }
}

fn field_struct_new(value: u64) -> Value {
    Value { variant: 0, slots: vec![value, 0] }
}

fn trace(v: &Value) -> Vec<u64> {
    let mut acc = Vec::new();
    combine_into(v, &mut acc);
    acc
}

#[test]
fn tuple_struct_default() {
    assert_eq!(0, default_value(&tuple_struct_decl()).unwrap().slots[0]);
}

#[test]
fn tuple_struct_eq() {
    let a = default_value(&tuple_struct_decl()).unwrap();
    let b = default_value(&tuple_struct_decl()).unwrap();
    assert!(equals(&a, &b));
    assert!(!equals(&a, &tuple_struct_new(1)));
}

#[test]
fn tuple_struct_hash() {
    let a = default_value(&tuple_struct_decl()).unwrap();
    let b = tuple_struct_new(1);
    let c = default_value(&tuple_struct_decl()).unwrap();
    assert_ne!(trace(&a), trace(&b));
    assert_eq!(trace(&a), trace(&c));
    assert!(equals(&a, &c));
}

#[test]
fn tuple_struct_copy() {
    let item = ParsedItem::Declaration(tuple_struct_decl());
    assert_eq!(force_copy(&item).unwrap(), "impl<T> Copy for TupleStruct<T> {}");
}

#[test]
fn field_struct_default() {
    assert_eq!(0, default_value(&field_struct_decl()).unwrap().slots[0]);
}

#[test]
fn field_struct_eq() {
    let a = default_value(&field_struct_decl()).unwrap();
    let b = default_value(&field_struct_decl()).unwrap();
    assert!(equals(&a, &b));
    assert!(!equals(&a, &field_struct_new(1)));
}

#[test]
fn field_struct_hash() {
    let a = default_value(&field_struct_decl()).unwrap();
    let b = field_struct_new(1);
    let c = default_value(&field_struct_decl()).unwrap();
    assert_ne!(trace(&a), trace(&b));
    assert_eq!(trace(&a), trace(&c));
    assert!(equals(&a, &c));
}

#[test]
fn field_struct_copy() {
    let item = ParsedItem::Declaration(field_struct_decl());
    assert_eq!(force_copy(&item).unwrap(), "impl<T> Copy for FieldStruct<T> {}");
}

#[test]
fn unit_struct_default() {
    let v = default_value(&unit_struct_decl()).unwrap();
    assert_eq!(v.slots.len(), 0);
}

#[test]
fn unit_struct_eq() {
    let a = default_value(&unit_struct_decl()).unwrap();
    let b = default_value(&unit_struct_decl()).unwrap();
    assert!(equals(&a, &b));
}

#[test]
fn unit_struct_hash() {
    let a = default_value(&unit_struct_decl()).unwrap();
    let b = default_value(&unit_struct_decl()).unwrap();
    assert_eq!(trace(&a), trace(&b));
    assert!(equals(&a, &b));
}

#[test]
fn unit_struct_copy() {
    let item = ParsedItem::Declaration(unit_struct_decl());
    assert_eq!(force_copy(&item).unwrap(), "impl Copy for UnitStruct {}");
}

#[test]
fn tuple_struct_clone() {
    let x = tuple_struct_new(7);
    let c = construct_independent_copy(&x);
    assert!(equals(&c, &x));
}
