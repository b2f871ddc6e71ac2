use runtime_fmt_derive::generate::build_names;
use runtime_fmt_derive::record::{FieldShape, NamedField};
use runtime_fmt_derive::tokens::Fragment;

#[test]
fn tokens_are_parted_by_single_spaces() {
    let mut fragment = Fragment::new();
    fragment.put("a");
    fragment.put("b c");
    fragment.put("d");
    assert_eq!(fragment.finish().as_str(), "a b c d");
}

#[test]
fn empty_tokens_leave_no_space() {
    let mut fragment = Fragment::new();
    fragment.put("");
    fragment.put("a");
    fragment.put("");
    fragment.put("");
    fragment.put("b");
    fragment.put("");
    assert_eq!(fragment.finish().as_str(), "a b");
    assert_eq!(Fragment::new().finish().as_str(), "");
    assert_eq!(Fragment::new().finish().into_string(), "");
}

#[test]
fn numbers_are_written_in_decimal() {
    let mut fragment = Fragment::new();
    for n in [0, 7, 10, 42, 100, 1234567890] {
        fragment.put_size_literal(n);
        fragment.put_position(n);
    }
    assert_eq!(
        fragment.finish().as_str(),
        "0usize 0 7usize 7 10usize 10 42usize 42 100usize 100 1234567890usize 1234567890"
    );
}

#[test]
fn strings_are_written_as_literals() {
    let mut fragment = Fragment::new();
    fragment.put("x");
    fragment.put_str_literal("width");
    fragment.put_str_literal("");
    fragment.put_str_literal("a\"b\\c");
    assert_eq!(fragment.finish().as_str(), "x \"width\" \"\" \"a\\\"b\\\\c\"");
}

#[test]
fn nested_tokens_are_one_token() {
    let mut inner = Fragment::new();
    inner.put("b");
    inner.put("c");
    let inner = inner.finish();
    let empty = Fragment::new().finish();
    let mut outer = Fragment::new();
    outer.put_tokens(&empty);
    outer.put("a");
    outer.put_tokens(&inner);
    outer.put_tokens(&empty);
    outer.put("d");
    assert_eq!(outer.finish().into_string(), "a b c d");
}

#[test]
fn names_are_quoted_in_the_resolver() {
    let shape = FieldShape::Named(vec![NamedField { name: "r#type".to_string(), ty: "u8".to_string() }]);
    assert_eq!(
        build_names(&shape).as_str(),
        "match name { \"r#type\" => _Option :: Some ( 0usize ) , _ => _Option :: None , }"
    );
}
