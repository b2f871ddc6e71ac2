use runtime_fmt_derive::record::{
    classify, Body, DeriveError, FieldShape, GenericsText, NamedField, RecordDefinition,
};
use runtime_fmt_derive::syntax::{body_of, read_record, BodyKind, ParsedField};

fn plain(ident: &str, body: Body) -> RecordDefinition {
    RecordDefinition {
        ident: ident.to_string(),
        generics: GenericsText {
            impl_generics: String::new(),
            ty_generics: String::new(),
            where_clause: String::new(),
        },
        body,
    }
}

fn field(name: &str, ty: &str) -> NamedField {
    NamedField { name: name.to_string(), ty: ty.to_string() }
}

fn parsed(ident: Option<&str>, ty: &str) -> ParsedField {
    ParsedField { ident: ident.map(|name| name.to_string()), ty: ty.to_string() }
}

#[test]
fn classify_keeps_the_shape_of_a_struct() {
    let record = plain("S", Body::Struct(FieldShape::Named(vec![field("a", "u8"), field("b", "u8")])));
    match classify(&record) {
        Ok(FieldShape::Named(fields)) => {
            assert_eq!(fields.len(), 2);
            assert_eq!(fields[0].name, "a");
            assert_eq!(fields[1].name, "b");
        }
        _ => panic!("a struct with distinct names has the named shape"),
    }
    let record = plain("T", Body::Struct(FieldShape::Positional(vec!["u8".to_string()])));
    assert!(matches!(classify(&record), Ok(FieldShape::Positional(_))));
    let record = plain("U", Body::Struct(FieldShape::Empty));
    assert!(matches!(classify(&record), Ok(FieldShape::Empty)));
}

#[test]
fn classify_refuses_an_enum() {
    let record = plain("E", Body::Enum);
    assert!(matches!(classify(&record), Err(DeriveError::UnsupportedRecordKind)));
}

#[test]
fn classify_refuses_a_repeated_name() {
    let fields = vec![field("a", "u8"), field("b", "u8"), field("c", "u8"), field("b", "u8")];
    let record = plain("D", Body::Struct(FieldShape::Named(fields)));
    assert!(matches!(classify(&record), Err(DeriveError::DuplicateField)));
}

#[test]
fn distinct_names_are_told_from_repeated_ones() {
    assert!(FieldShape::Empty.has_distinct_names());
    assert!(FieldShape::Positional(vec!["u8".to_string(), "u8".to_string()]).has_distinct_names());
    assert!(FieldShape::Named(vec![]).has_distinct_names());
    assert!(FieldShape::Named(vec![field("a", "u8")]).has_distinct_names());
    assert!(FieldShape::Named(vec![field("a", "u8"), field("A", "u8")]).has_distinct_names());
    assert!(!FieldShape::Named(vec![field("a", "u8"), field("a", "u8")]).has_distinct_names());
    assert!(
        !FieldShape::Named(vec![field("x", "u8"), field("a", "u8"), field("x", "u16")])
            .has_distinct_names()
    );
}

#[test]
fn fields_are_read_by_index() {
    let shape = FieldShape::Named(vec![field("a", "u8"), field("b", "usize")]);
    assert_eq!(shape.len(), 2);
    assert_eq!(shape.name_at(0), Some("a"));
    assert_eq!(shape.name_at(1), Some("b"));
    assert_eq!(shape.type_at(0), "u8");
    assert_eq!(shape.type_at(1), "usize");
    let shape = FieldShape::Positional(vec!["i32".to_string(), "String".to_string()]);
    assert_eq!(shape.len(), 2);
    assert_eq!(shape.name_at(1), None);
    assert_eq!(shape.type_at(1), "String");
}

#[test]
fn error_messages() {
    assert_eq!(
        DeriveError::UnsupportedRecordKind.message(),
        "#[derive(FormatArgs)] is not implemented for enums"
    );
    assert_eq!(DeriveError::UnnamedField.message(), "a field between braces has no name");
    assert_eq!(DeriveError::DuplicateField.message(), "two fields share a name");
}

#[test]
fn body_of_lays_out_each_form() {
    let fields = vec![parsed(Some("a"), "u8"), parsed(Some("b"), "Vec < u8 >")];
    match body_of(BodyKind::Struct, &fields) {
        Ok(Body::Struct(FieldShape::Named(named))) => {
            assert_eq!(named.len(), 2);
            assert_eq!((named[0].name.as_str(), named[0].ty.as_str()), ("a", "u8"));
            assert_eq!((named[1].name.as_str(), named[1].ty.as_str()), ("b", "Vec < u8 >"));
        }
        _ => panic!("fields between braces are named fields"),
    }
    let fields = vec![parsed(None, "u8"), parsed(Some("kept_out"), "i8")];
    match body_of(BodyKind::Tuple, &fields) {
        Ok(Body::Struct(FieldShape::Positional(types))) => {
            assert_eq!(types, vec!["u8".to_string(), "i8".to_string()]);
        }
        _ => panic!("fields between parentheses are positional fields"),
    }
    assert!(matches!(body_of(BodyKind::Unit, &vec![]), Ok(Body::Struct(FieldShape::Empty))));
    assert!(matches!(body_of(BodyKind::Enum, &fields), Ok(Body::Enum)));
}

#[test]
fn body_of_refuses_a_nameless_field_between_braces() {
    let fields = vec![parsed(Some("a"), "u8"), parsed(None, "u8")];
    assert!(matches!(body_of(BodyKind::Struct, &fields), Err(DeriveError::UnnamedField)));
}

#[test]
fn read_record_keeps_name_generics_and_fields() {
    let generics = GenericsText {
        impl_generics: "< 'a , T : Clone >".to_string(),
        ty_generics: "< 'a , T >".to_string(),
        where_clause: "where T : Copy".to_string(),
    };
    let fields = vec![parsed(Some("x"), "& 'a T"), parsed(Some("n"), "usize")];
    let record = read_record("G", generics.clone(), BodyKind::Struct, &fields).expect("named");
    assert_eq!(record.ident, "G");
    assert_eq!(record.generics, generics);
    assert_eq!(
        record.body,
        Body::Struct(FieldShape::Named(vec![field("x", "& 'a T"), field("n", "usize")]))
    );
}

#[test]
fn read_record_lays_out_each_form() {
    let none = GenericsText {
        impl_generics: String::new(),
        ty_generics: String::new(),
        where_clause: String::new(),
    };
    let fields = vec![parsed(None, "i32"), parsed(None, "Vec < u8 >")];
    let record = read_record("P", none.clone(), BodyKind::Tuple, &fields).expect("positional");
    assert_eq!(record, plain("P", Body::Struct(FieldShape::Positional(vec!["i32".to_string(), "Vec < u8 >".to_string()]))));
    let record = read_record("U", none.clone(), BodyKind::Unit, &vec![]).expect("unit");
    assert_eq!(record, plain("U", Body::Struct(FieldShape::Empty)));
    let record = read_record("N", none.clone(), BodyKind::Struct, &vec![]).expect("no fields");
    assert_eq!(record, plain("N", Body::Struct(FieldShape::Named(vec![]))));
    let record = read_record("E", none.clone(), BodyKind::Enum, &vec![]).expect("enum");
    assert_eq!(record, plain("E", Body::Enum));
}

#[test]
fn read_record_refuses_a_nameless_field_between_braces() {
    let none = GenericsText {
        impl_generics: String::new(),
        ty_generics: String::new(),
        where_clause: String::new(),
    };
    let fields = vec![parsed(None, "u8"), parsed(Some("b"), "u8")];
    assert_eq!(
        read_record("S", none.clone(), BodyKind::Struct, &fields),
        Err(DeriveError::UnnamedField)
    );
    assert!(read_record("S", none, BodyKind::Tuple, &fields).is_ok());
}
