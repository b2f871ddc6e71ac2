use runtime_fmt_derive::descriptor::{describe, Descriptor, Value};
use runtime_fmt_derive::record::{
    Body, DeriveError, FieldShape, GenericsText, NamedField, RecordDefinition,
};

/// Stands for the capability to be shown as text.
#[derive(Debug, Clone, Copy, PartialEq)]
struct Display;

fn record(ident: &str, body: Body) -> RecordDefinition {
    RecordDefinition {
        ident: ident.to_string(),
        generics: GenericsText {
            impl_generics: String::new(),
            ty_generics: String::new(),
            where_clause: String::new(),
        },
        body,
    }
}

fn table_of(ident: &str, shape: FieldShape) -> Descriptor {
    describe(&record(ident, Body::Struct(shape))).ok().expect("the definition is a struct")
}

fn show(value: &Value<String>) -> String {
    match value {
        Value::Size(size) => format!("{}", size),
        Value::Other(text) => text.clone(),
    }
}

fn named(name: &str, ty: &str) -> NamedField {
    NamedField { name: name.to_string(), ty: ty.to_string() }
}

#[test]
fn named_record_resolves_names_and_sizes() {
    let table = table_of("S", FieldShape::Named(vec![named("width", "usize"), named("name", "String")]));
    assert_eq!(table.validate_name("width"), Some(0));
    assert_eq!(table.validate_name("name"), Some(1));
    assert_eq!(table.validate_name("x"), None);
    assert!(table.validate_index(0));
    assert!(table.validate_index(1));
    assert!(!table.validate_index(2));

    let first = table.as_usize(0);
    assert!(first.is_some());
    assert!(table.as_usize(1).is_none());

    let instance = vec![Value::Size(7), Value::Other("seven".to_string())];
    assert_eq!(*first.unwrap().extract(&instance), 7);

    let width = table.get_child(Display, 0).expect("index 0 is a field");
    assert_eq!(width.capability, Display);
    assert_eq!(show(width.narrow(&instance)), "7");
    let name = table.get_child(Display, 1).expect("index 1 is a field");
    assert_eq!(show(name.narrow(&instance)), "seven");
}

#[test]
fn positional_record_has_indices_but_no_names() {
    let table = table_of("P", FieldShape::Positional(vec!["i32".to_string(), "i32".to_string()]));
    assert!(table.validate_index(0));
    assert!(table.validate_index(1));
    assert!(!table.validate_index(2));
    assert!(!table.validate_index(usize::MAX));
    for name in ["0", "1", "", "i32", "x", "P"] {
        assert_eq!(table.validate_name(name), None);
    }
    assert!(table.as_usize(0).is_none());
    assert!(table.as_usize(1).is_none());
}

#[test]
fn empty_record_accepts_nothing() {
    let table = table_of("U", FieldShape::Empty);
    for index in [0, 1, 2, 17, usize::MAX] {
        assert!(!table.validate_index(index));
    }
    for name in ["", "0", "U", "self"] {
        assert_eq!(table.validate_name(name), None);
    }
}

#[test]
fn every_declared_name_resolves_to_its_index() {
    let names = ["a", "b", "c", "width", "precision"];
    let fields = names.iter().map(|name| named(name, "u8")).collect();
    let table = Descriptor::new(&FieldShape::Named(fields));
    for (index, name) in names.iter().enumerate() {
        assert_eq!(table.validate_name(name), Some(index));
        assert!(table.validate_index(index));
    }
}

#[test]
fn undeclared_names_are_absent() {
    let table = Descriptor::new(&FieldShape::Named(vec![named("alpha", "u8"), named("beta", "u8")]));
    for name in ["", "alph", "alphaa", "Alpha", "gamma", "0", "beta "] {
        assert_eq!(table.validate_name(name), None);
    }
}

#[test]
fn positional_shape_resolves_no_name() {
    let table = Descriptor::new(&FieldShape::Positional(vec!["u8".to_string(), "usize".to_string()]));
    for name in ["", "0", "1", "u8", "usize"] {
        assert_eq!(table.validate_name(name), None);
    }
}

#[test]
fn index_is_valid_exactly_below_the_field_count() {
    let shapes = [
        (FieldShape::Empty, 0),
        (FieldShape::Positional(vec![]), 0),
        (FieldShape::Named(vec![]), 0),
        (FieldShape::Positional(vec!["u8".to_string(); 3]), 3),
        (FieldShape::Named(vec![named("a", "u8"), named("b", "u8")]), 2),
    ];
    for (shape, count) in shapes.iter() {
        assert_eq!(shape.len(), *count);
        let table = Descriptor::new(shape);
        for index in 0..6 {
            assert_eq!(table.validate_index(index), index < *count);
        }
    }
}

#[test]
fn each_child_narrows_to_its_own_field() {
    let table = Descriptor::new(
        &FieldShape::Positional(vec!["String".to_string(), "usize".to_string(), "u8".to_string()]),
    );
    let instance =
        vec![Value::Other("zero".to_string()), Value::Size(1), Value::Other("two".to_string())];
    let shown = ["zero", "1", "two"];
    for index in 0..3 {
        assert!(table.validate_index(index));
        let child = table.get_child(Display, index).expect("the index is a field's");
        assert_eq!(child.field, index);
        assert_eq!(show(child.narrow(&instance)), shown[index]);
    }
}

#[test]
fn size_accessor_exists_for_size_fields_only() {
    let table = Descriptor::new(
        &FieldShape::Named(
            vec![
                named("a", "u64"),
                named("b", "usize"),
                named("c", "& usize"),
                named("d", "usize"),
                named("e", "isize"),
            ],
        ),
    );
    assert_eq!(table.sizes, vec![false, true, false, true, false]);
    let instance: Vec<Value<String>> = vec![
        Value::Other("1".to_string()),
        Value::Size(20),
        Value::Other("3".to_string()),
        Value::Size(40),
        Value::Other("5".to_string()),
    ];
    let expected = [None, Some(20), None, Some(40), None];
    for index in 0..5 {
        let read = table.as_usize(index).map(|accessor| *accessor.extract(&instance));
        assert_eq!(read, expected[index]);
    }
}

#[test]
fn enum_has_no_table() {
    match describe(&record("E", Body::Enum)) {
        Err(DeriveError::UnsupportedRecordKind) => {}
        _ => panic!("an enum must be refused"),
    }
}

#[test]
fn duplicate_names_have_no_table() {
    let fields = vec![named("a", "u8"), named("b", "u8"), named("a", "u16")];
    match describe(&record("D", Body::Struct(FieldShape::Named(fields)))) {
        Err(DeriveError::DuplicateField) => {}
        _ => panic!("a repeated name must be refused"),
    }
}
