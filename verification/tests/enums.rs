use force_derive::behavior::{construct_independent_copy, default_value, equals, Value};
use force_derive::{
    force_copy, force_hash, DeclKind, FatalError, FieldShape, GenericParam, ParsedItem,
    TypeDeclaration, Variant,
};

fn param_t() -> GenericParam {
    GenericParam { name: "T".to_string(), bounds: String::new() }
}

fn named_enum_decl() -> TypeDeclaration {
    TypeDeclaration {
        name: "NamedEnum".to_string(),
        generics: vec![param_t()],
        kind: DeclKind::Enum(vec![
            Variant {
                name: "First".to_string(),
                shape: FieldShape::Named(vec!["a".to_string()]),
            },
            Variant {
                name: "Second".to_string(),
                shape: FieldShape::Named(vec!["value".to_string()]),
            },
        ]),
    }
}

fn unnamed_enum_decl() -> TypeDeclaration {
    TypeDeclaration {
        name: "UnnamedEnum".to_string(),
        generics: vec![param_t()],
        kind: DeclKind::Enum(vec![
            Variant { name: "First".to_string(), shape: FieldShape::Positional(2) },
            Variant { name: "Second".to_string(), shape: FieldShape::Positional(1) },
        ]),
    }
}

fn unit_enum_decl() -> TypeDeclaration {
    TypeDeclaration {
        name: "UnitEnum".to_string(),
        generics: Vec::new(),
        kind: DeclKind::Enum(vec![
            Variant { name: "First".to_string(), shape: FieldShape::Unit },
            Variant { name: "Second".to_string(), shape: FieldShape::Unit },
        ]),
    }
}

fn named_first(a: u64) -> Value {
    Value { variant: 0, slots: vec![a] }
}

fn named_second() -> Value {
    Value { variant: 1, slots: vec![0] }
}

fn unnamed_first(a: u64, b: u64) -> Value {
    Value { variant: 0, slots: vec![a, b] }
}

fn unnamed_second() -> Value {
    Value { variant: 1, slots: vec![0] }
}

#[test]
fn named_enum_default() {
    let v = default_value(&named_enum_decl()).unwrap();
    assert_eq!(v.variant, 0);
}

#[test]
fn named_enum_clone() {
    let x = named_first(1);
    let c = construct_independent_copy(&x);
    assert!(equals(&c, &x));
}

#[test]
fn named_enum_copy() {
    let item = ParsedItem::Declaration(named_enum_decl());
    assert_eq!(force_copy(&item).unwrap(), "impl<T> Copy for NamedEnum<T> {}");
}

#[test]
fn named_enum_partial_eq() {
    assert!(equals(&named_first(0), &named_first(0)));
    assert!(!equals(&named_first(0), &named_first(1)));
    assert!(!equals(&named_second(), &named_first(0)));
    assert!(equals(&named_second(), &named_second()));
}

#[test]
fn unnamed_enum_default() {
    let v = default_value(&unnamed_enum_decl()).unwrap();
    assert_eq!(v.variant, 0);
}

#[test]
fn unnamed_enum_clone() {
    let x = unnamed_first(1, 2);
    let c = construct_independent_copy(&x);
    assert!(equals(&c, &x));
}

#[test]
fn unnamed_enum_copy() {
    let item = ParsedItem::Declaration(unnamed_enum_decl());
    assert_eq!(force_copy(&item).unwrap(), "impl<T> Copy for UnnamedEnum<T> {}");
}

#[test]
fn unnamed_enum_partial_eq() {
    assert!(equals(&unnamed_first(1, 2), &unnamed_first(1, 2)));
    assert!(!equals(&unnamed_first(1, 2), &unnamed_first(2, 2)));
    assert!(!equals(&unnamed_first(1, 2), &unnamed_first(1, 1)));
    assert!(!equals(&unnamed_first(1, 2), &unnamed_second()));
    assert!(equals(&unnamed_second(), &unnamed_second()));
}

#[test]
fn unit_enum_default() {
    let v = default_value(&unit_enum_decl()).unwrap();
    assert_eq!(v.variant, 0);
}

#[test]
fn unit_enum_clone() {
    let x = Value { variant: 0, slots: Vec::new() };
    let c = construct_independent_copy(&x);
    assert!(equals(&c, &x));
}

#[test]
fn unit_enum_copy() {
    let item = ParsedItem::Declaration(unit_enum_decl());
    assert_eq!(force_copy(&item).unwrap(), "impl Copy for UnitEnum {}");
}

#[test]
fn unit_enum_eq() {
    let first = Value { variant: 0, slots: Vec::new() };
    let second = Value { variant: 1, slots: Vec::new() };
    assert!(equals(&first, &Value { variant: 0, slots: Vec::new() }));
    assert!(equals(&second, &Value { variant: 1, slots: Vec::new() }));
    assert!(!equals(&first, &second));
}

#[test]
fn named_enum_hash_refused() {
    let item = ParsedItem::Declaration(named_enum_decl());
    assert_eq!(force_hash(&item), Err(FatalError::WrongDeclarationKind));
}

#[test]
fn unnamed_enum_hash_refused() {
    let item = ParsedItem::Declaration(unnamed_enum_decl());
    assert_eq!(force_hash(&item), Err(FatalError::WrongDeclarationKind));
}

#[test]
fn unit_enum_hash_refused() {
    let item = ParsedItem::Declaration(unit_enum_decl());
    assert_eq!(force_hash(&item), Err(FatalError::WrongDeclarationKind));
}
