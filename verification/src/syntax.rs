//! Reading a definition from what a parser found: the name, the generics as
//! token text, the form of the body and the fields. The parser itself stands
//! outside this library.

use crate::record::{
    Body, DeriveError, FieldShape, GenericsText, NamedField, RecordDefinition,
};
use vstd::prelude::*;

verus! {

/// Which of the four forms a parsed definition has.
#[derive(Clone, Copy, Debug, PartialEq, Eq, Structural)]
pub enum BodyKind {
    /// An enum.
    Enum,
    /// A struct with fields between braces.
    Struct,
    /// A struct with fields between parentheses.
    Tuple,
    /// A struct without a field list.
    Unit,
}

/// A field as the parser hands it out.
#[derive(Clone, Debug, PartialEq, Eq)]
pub struct ParsedField {
    /// The field's name, if it has one.
    pub ident: Option<String>,
    /// The field's type, as token text.
    pub ty: String,
}

/// Whether every one of the fields has a name.
pub open spec fn all_named(fields: Seq<ParsedField>) -> bool {
    forall|i: int| 0 <= i < fields.len() ==> (#[trigger] fields[i]).ident is Some
}

/// The names of the fields, in order, where each has one.
pub open spec fn parsed_names(fields: Seq<ParsedField>) -> Seq<Seq<char>> {
    Seq::new(fields.len(), |i: int| fields[i].ident->Some_0@)
}

/// The types of the fields, in order.
pub open spec fn parsed_types(fields: Seq<ParsedField>) -> Seq<Seq<char>> {
    Seq::new(fields.len(), |i: int| fields[i].ty@)
}

/// `body` is the body that a definition of the given form has with the given
/// fields: fields between braces keep names and types, fields between
/// parentheses their types only.
pub open spec fn body_matches(kind: BodyKind, fields: Seq<ParsedField>, body: Body) -> bool {
    match kind {
        BodyKind::Enum => body is Enum,
        BodyKind::Struct => {
            &&& body matches Body::Struct(shape)
            &&& shape is Named
            &&& all_named(fields)
            &&& shape.names() == parsed_names(fields)
            &&& shape.types() == parsed_types(fields)
        },
        BodyKind::Tuple => {
            &&& body matches Body::Struct(shape)
            &&& shape is Positional
            &&& shape.types() == parsed_types(fields)
        },
        BodyKind::Unit => body == Body::Struct(FieldShape::Empty),
    }
}

/// Lays the parsed fields out as the body of a definition of the given
/// form. A field between braces that has no name is refused.
pub fn body_of(kind: BodyKind, fields: &Vec<ParsedField>) -> (result: Result<Body, DeriveError>)
    ensures
        match result {
            Ok(body) => body_matches(kind, fields@, body),
            Err(error) => kind == BodyKind::Struct && !all_named(fields@) && error
                is UnnamedField,
        },
{
    match kind {
        BodyKind::Enum => Ok(Body::Enum),
        BodyKind::Struct => {
            let mut named: Vec<NamedField> = Vec::new();
            let mut i: usize = 0;
            while i < fields.len()
                invariant
                    kind == BodyKind::Struct,
                    i <= fields.len(),
                    named@.len() == i,
                    forall|k: int|
                        0 <= k < i ==> {
                            &&& (#[trigger] fields@[k]).ident is Some
                            &&& named@[k].name@ == fields@[k].ident->Some_0@
                            &&& named@[k].ty@ == fields@[k].ty@
                        },
                decreases fields.len() - i,
            {
                match &fields[i].ident {
                    Some(name) => {
                        named.push(NamedField { name: name.clone(), ty: fields[i].ty.clone() });
                    },
                    None => {
                        return Err(DeriveError::UnnamedField);
                    },
                }
                i += 1;
            }
            let shape = FieldShape::Named(named);
            assert(shape.names() =~= parsed_names(fields@));
            assert(shape.types() =~= parsed_types(fields@));
            Ok(Body::Struct(shape))
        },
        BodyKind::Tuple => {
            let mut types: Vec<String> = Vec::new();
            let mut i: usize = 0;
            while i < fields.len()
                invariant
                    i <= fields.len(),
                    types@.len() == i,
                    forall|k: int| 0 <= k < i ==> types@[k]@ == (#[trigger] fields@[k]).ty@,
                decreases fields.len() - i,
            {
                types.push(fields[i].ty.clone());
                i += 1;
            }
            let shape = FieldShape::Positional(types);
            assert(shape.types() =~= parsed_types(fields@));
            Ok(Body::Struct(shape))
        },
        BodyKind::Unit => Ok(Body::Struct(FieldShape::Empty)),
    }
}

/// Makes the definition of a type from what a parser found of it. The name
/// and the generics are kept as they are, and the fields are laid out as
/// `body_of` lays them out. The definition is refused exactly where its
/// fields stand between braces and one of them has no name.
pub fn read_record(
    ident: &str,
    generics: GenericsText,
    kind: BodyKind,
    fields: &Vec<ParsedField>,
) -> (result: Result<RecordDefinition, DeriveError>)
    ensures
        match result {
            Ok(record) => {
                &&& record.ident@ == ident@
                &&& record.generics == generics
                &&& body_matches(kind, fields@, record.body)
            },
            Err(error) => kind == BodyKind::Struct && !all_named(fields@) && error
                is UnnamedField,
        },
{
    match body_of(kind, fields) {
        Ok(body) => Ok(RecordDefinition { ident: ident.to_owned(), generics, body }),
        Err(error) => Err(error),
    }
}

} // verus!
