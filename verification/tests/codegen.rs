use force_derive::{
    decimal_string, force_clone, force_copy, force_default, force_eq, force_hash,
    force_partial_eq, generate, get_field_identifiers, Capability, DeclKind, FatalError,
    FieldShape, GenericParam, ParsedItem, TypeDeclaration, Variant,
};

fn param(name: &str, bounds: &str) -> GenericParam {
    GenericParam { name: name.to_string(), bounds: bounds.to_string() }
}

fn pair_decl() -> ParsedItem {
    ParsedItem::Declaration(TypeDeclaration {
        name: "Pair".to_string(),
        generics: vec![param("T", "")],
        kind: DeclKind::Struct(FieldShape::Positional(2)),
    })
}

fn point_decl() -> ParsedItem {
    ParsedItem::Declaration(TypeDeclaration {
        name: "Point".to_string(),
        generics: Vec::new(),
        kind: DeclKind::Struct(FieldShape::Named(vec!["x".to_string(), "y".to_string()])),
    })
}

fn swapped_point_decl() -> ParsedItem {
    ParsedItem::Declaration(TypeDeclaration {
        name: "Point".to_string(),
        generics: Vec::new(),
        kind: DeclKind::Struct(FieldShape::Named(vec!["y".to_string(), "x".to_string()])),
    })
}

fn unit_decl() -> ParsedItem {
    ParsedItem::Declaration(TypeDeclaration {
        name: "Marker".to_string(),
        generics: Vec::new(),
        kind: DeclKind::Struct(FieldShape::Unit),
    })
}

fn color_decl() -> ParsedItem {
    ParsedItem::Declaration(TypeDeclaration {
        name: "Color".to_string(),
        generics: Vec::new(),
        kind: DeclKind::Enum(vec![
            Variant { name: "Red".to_string(), shape: FieldShape::Unit },
            Variant { name: "Blue".to_string(), shape: FieldShape::Positional(1) },
        ]),
    })
}

fn empty_enum_decl() -> ParsedItem {
    ParsedItem::Declaration(TypeDeclaration {
        name: "Void".to_string(),
        generics: Vec::new(),
        kind: DeclKind::Enum(Vec::new()),
    })
}

#[test]
fn default_positional_struct_text() {
    assert_eq!(
        force_default(&pair_decl()).unwrap(),
        "impl<T> Default for Pair<T> { fn default() -> Self { \
         Pair(Default::default(), Default::default()) } }"
    );
}

#[test]
fn default_named_struct_text() {
    assert_eq!(
        force_default(&point_decl()).unwrap(),
        "impl Default for Point { fn default() -> Self { \
         Point { x: Default::default(), y: Default::default() } } }"
    );
}

#[test]
fn default_unit_struct_text() {
    assert_eq!(
        force_default(&unit_decl()).unwrap(),
        "impl Default for Marker { fn default() -> Self { Marker } }"
    );
}

#[test]
fn default_enum_text() {
    assert_eq!(
        force_default(&color_decl()).unwrap(),
        "impl Default for Color { fn default() -> Self { Color::Red } }"
    );
}

#[test]
fn default_empty_enum_refused() {
    assert_eq!(force_default(&empty_enum_decl()), Err(FatalError::EmptyEnumDefault));
}

#[test]
fn clone_positional_struct_text() {
    assert_eq!(
        force_clone(&pair_decl()).unwrap(),
        "impl<T> Clone for Pair<T> { fn clone(&self) -> Self { \
         Pair(self.0.clone(), self.1.clone()) } \
         fn clone_from(&mut self, other: &Self) { \
         self.0.clone_from(&other.0); self.1.clone_from(&other.1); } }"
    );
}

#[test]
fn clone_named_struct_text() {
    assert_eq!(
        force_clone(&point_decl()).unwrap(),
        "impl Clone for Point { fn clone(&self) -> Self { \
         Point { x: self.x.clone(), y: self.y.clone() } } \
         fn clone_from(&mut self, other: &Self) { \
         self.x.clone_from(&other.x); self.y.clone_from(&other.y); } }"
    );
}

#[test]
fn clone_unit_struct_text() {
    assert_eq!(
        force_clone(&unit_decl()).unwrap(),
        "impl Clone for Marker { fn clone(&self) -> Self { Marker } }"
    );
}

#[test]
fn clone_enum_text() {
    assert_eq!(
        force_clone(&color_decl()).unwrap(),
        "impl Clone for Color { fn clone(&self) -> Self { match self { \
         Self::Red => Self::Red, \
         Self::Blue(f0) => Self::Blue(f0.clone()), } } }"
    );
}

#[test]
fn partial_eq_positional_struct_text() {
    assert_eq!(
        force_partial_eq(&pair_decl()).unwrap(),
        "impl<T> PartialEq for Pair<T> { fn eq(&self, rhs: &Self) -> bool { \
         self.0 == rhs.0 && self.1 == rhs.1 } }"
    );
}

#[test]
fn partial_eq_unit_struct_text() {
    assert_eq!(
        force_partial_eq(&unit_decl()).unwrap(),
        "impl PartialEq for Marker { fn eq(&self, rhs: &Self) -> bool { true } }"
    );
}

#[test]
fn partial_eq_enum_text() {
    assert_eq!(
        force_partial_eq(&color_decl()).unwrap(),
        "impl PartialEq for Color { fn eq(&self, rhs: &Self) -> bool { match (self, rhs) { \
         (Self::Red, Self::Red) => true, \
         (Self::Blue(f0_lhs), Self::Blue(f0_rhs)) => f0_lhs == f0_rhs, \
         (_, _) => false, } } }"
    );
}

#[test]
fn partial_eq_named_enum_text() {
    let item = ParsedItem::Declaration(TypeDeclaration {
        name: "NamedEnum".to_string(),
        generics: vec![param("T", "")],
        kind: DeclKind::Enum(vec![Variant {
            name: "First".to_string(),
            shape: FieldShape::Named(vec!["a".to_string()]),
        }]),
    });
    assert_eq!(
        force_partial_eq(&item).unwrap(),
        "impl<T> PartialEq for NamedEnum<T> { fn eq(&self, rhs: &Self) -> bool { \
         match (self, rhs) { \
         (Self::First { a: a_lhs }, Self::First { a: a_rhs }) => a_lhs == a_rhs, \
         (_, _) => false, } } }"
    );
}

#[test]
fn eq_marker_text() {
    assert_eq!(force_eq(&pair_decl()).unwrap(), "impl<T> Eq for Pair<T> {}");
    assert_eq!(force_eq(&color_decl()).unwrap(), "impl Eq for Color {}");
}

#[test]
fn copy_marker_text() {
    assert_eq!(force_copy(&pair_decl()).unwrap(), "impl<T> Copy for Pair<T> {}");
    assert_eq!(force_copy(&color_decl()).unwrap(), "impl Copy for Color {}");
}

#[test]
fn hash_positional_struct_text() {
    assert_eq!(
        force_hash(&pair_decl()).unwrap(),
        "impl<T> std::hash::Hash for Pair<T> { \
         fn hash<H>(&self, state: &mut H) where H: std::hash::Hasher { \
         self.0.hash(state); self.1.hash(state); } }"
    );
}

#[test]
fn hash_named_struct_text() {
    assert_eq!(
        force_hash(&point_decl()).unwrap(),
        "impl std::hash::Hash for Point { \
         fn hash<H>(&self, state: &mut H) where H: std::hash::Hasher { \
         self.x.hash(state); self.y.hash(state); } }"
    );
}

#[test]
fn hash_enum_refused() {
    assert_eq!(force_hash(&color_decl()), Err(FatalError::WrongDeclarationKind));
}

#[test]
fn bounds_copied_verbatim() {
    let item = ParsedItem::Declaration(TypeDeclaration {
        name: "Wrapper".to_string(),
        generics: vec![param("'a", ""), param("T", "Iterator<Item = &'a u8> + Send")],
        kind: DeclKind::Struct(FieldShape::Positional(1)),
    });
    assert_eq!(
        force_default(&item).unwrap(),
        "impl<'a, T: Iterator<Item = &'a u8> + Send> Default for Wrapper<'a, T> \
         { fn default() -> Self { Wrapper(Default::default()) } }"
    );
}

#[test]
fn unsupported_item_refused() {
    let item = ParsedItem::Unsupported;
    assert_eq!(force_default(&item), Err(FatalError::UnsupportedDeclarationKind));
    assert_eq!(force_clone(&item), Err(FatalError::UnsupportedDeclarationKind));
    assert_eq!(force_copy(&item), Err(FatalError::UnsupportedDeclarationKind));
    assert_eq!(force_partial_eq(&item), Err(FatalError::UnsupportedDeclarationKind));
    assert_eq!(force_eq(&item), Err(FatalError::UnsupportedDeclarationKind));
    assert_eq!(force_hash(&item), Err(FatalError::UnsupportedDeclarationKind));
}

#[test]
fn generate_routes_each_capability() {
    assert_eq!(generate(Capability::ForceDefault, &pair_decl()), force_default(&pair_decl()));
    assert_eq!(generate(Capability::ForceClone, &pair_decl()), force_clone(&pair_decl()));
    assert_eq!(generate(Capability::ForceCopy, &pair_decl()), force_copy(&pair_decl()));
    assert_eq!(
        generate(Capability::ForcePartialEq, &pair_decl()),
        force_partial_eq(&pair_decl())
    );
    assert_eq!(generate(Capability::ForceEq, &pair_decl()), force_eq(&pair_decl()));
    assert_eq!(generate(Capability::ForceHash, &color_decl()), force_hash(&color_decl()));
}

#[test]
fn positional_names_are_synthesized() {
    let ids = get_field_identifiers(&FieldShape::Positional(11));
    assert_eq!(ids.len(), 11);
    assert_eq!(ids[0], "f0");
    assert_eq!(ids[1], "f1");
    assert_eq!(ids[10], "f10");
}

#[test]
fn named_slots_keep_identifiers() {
    let ids = get_field_identifiers(&FieldShape::Named(vec![
        "alpha".to_string(),
        "beta".to_string(),
    ]));
    assert_eq!(ids, vec!["alpha".to_string(), "beta".to_string()]);
}

#[test]
fn decimal_rendering() {
    assert_eq!(decimal_string(0), "0");
    assert_eq!(decimal_string(9), "9");
    assert_eq!(decimal_string(10), "10");
    assert_eq!(decimal_string(907), "907");
}

#[test]
fn field_order_changes_generated_order() {
    let straight = force_hash(&point_decl()).unwrap();
    let swapped = force_hash(&swapped_point_decl()).unwrap();
    assert_ne!(straight, swapped);
    assert_eq!(
        swapped,
        "impl std::hash::Hash for Point { \
         fn hash<H>(&self, state: &mut H) where H: std::hash::Hasher { \
         self.y.hash(state); self.x.hash(state); } }"
    );
    let built = force_default(&point_decl()).unwrap();
    let built_swapped = force_default(&swapped_point_decl()).unwrap();
    assert_ne!(built, built_swapped);
    assert_eq!(
        built_swapped,
        "impl Default for Point { fn default() -> Self { \
         Point { y: Default::default(), x: Default::default() } } }"
    );
}

#[test]
fn clone_empty_enum_matches_nothing() {
    assert_eq!(
        force_clone(&empty_enum_decl()).unwrap(),
        "impl Clone for Void { fn clone(&self) -> Self { match self {  } } }"
    );
}

#[test]
fn hash_unit_struct_has_empty_body() {
    assert_eq!(
        force_hash(&unit_decl()).unwrap(),
        "impl std::hash::Hash for Marker { \
         fn hash<H>(&self, state: &mut H) where H: std::hash::Hasher {  } }"
    );
}
