//! Record definitions: a type's name, its generics and the shape of its
//! fields.

use crate::tokens::decimal;
use vstd::prelude::*;
use vstd::string::StringExecFns;

verus! {

/// A field that has a name.
#[derive(Clone, Debug, PartialEq, Eq)]
pub struct NamedField {
    /// The field's identifier.
    pub name: String,
    /// The field's type, as token text.
    pub ty: String,
}

/// How the fields of a record are laid out. A field's index is its position
/// in the list.
#[derive(Clone, Debug, PartialEq, Eq)]
pub enum FieldShape {
    /// Fields with names, as in `struct S { a: A, b: B }`.
    Named(Vec<NamedField>),
    /// Fields known by position only, as in `struct S(A, B);`. Each entry is
    /// a field's type, as token text.
    Positional(Vec<String>),
    /// No fields, as in `struct S;`.
    Empty,
}

/// What a definition holds behind its name and generics.
#[derive(Clone, Debug, PartialEq, Eq)]
pub enum Body {
    /// The definition is an enum.
    Enum,
    /// The definition is a struct with fields of this shape.
    Struct(FieldShape),
}

/// The generics of a definition, as the token text of the places where an
/// `impl` block repeats them. A part that the definition lacks is empty.
#[derive(Clone, Debug, PartialEq, Eq)]
pub struct GenericsText {
    /// The parameters with their bounds, as they follow `impl`.
    pub impl_generics: String,
    /// The parameters' names, as they follow the type's name.
    pub ty_generics: String,
    /// The `where` clause.
    pub where_clause: String,
}

/// The definition of a type that a dispatch table is made for.
#[derive(Clone, Debug, PartialEq, Eq)]
pub struct RecordDefinition {
    /// The type's name.
    pub ident: String,
    /// The type's generics.
    pub generics: GenericsText,
    /// The type's fields, or that it has none to speak of.
    pub body: Body,
}

/// Why no dispatch table can be made.
#[derive(Clone, Debug, PartialEq, Eq)]
pub enum DeriveError {
    /// The definition is not a struct.
    UnsupportedRecordKind,
    /// A field between braces has no name.
    UnnamedField,
    /// Two fields share a name.
    DuplicateField,
}

/// The type that a field must have for its value to be read as a size.
pub open spec fn size_type() -> Seq<char> {
    "usize"@
}

impl FieldShape {
    /// The number of fields.
    pub open spec fn field_count(&self) -> nat {
        match self {
            FieldShape::Named(fields) => fields@.len(),
            FieldShape::Positional(types) => types@.len(),
            FieldShape::Empty => 0,
        }
    }

    /// The declared names in field order; none unless the shape is `Named`.
    pub open spec fn names(&self) -> Seq<Seq<char>> {
        match self {
            FieldShape::Named(fields) => Seq::new(fields@.len(), |i: int| fields@[i].name@),
            _ => Seq::empty(),
        }
    }

    /// The fields' types in field order.
    pub open spec fn types(&self) -> Seq<Seq<char>> {
        match self {
            FieldShape::Named(fields) => Seq::new(fields@.len(), |i: int| fields@[i].ty@),
            FieldShape::Positional(types) => Seq::new(types@.len(), |i: int| types@[i]@),
            FieldShape::Empty => Seq::empty(),
        }
    }

    /// What stands behind the dot in an access to each field: its name, or
    /// its position in decimal.
    pub open spec fn members(&self) -> Seq<Seq<char>> {
        match self {
            FieldShape::Named(fields) => Seq::new(fields@.len(), |i: int| fields@[i].name@),
            FieldShape::Positional(types) => Seq::new(types@.len(), |i: int| decimal(i as nat)),
            FieldShape::Empty => Seq::empty(),
        }
    }

    /// For each field, whether its type is the size type.
    pub open spec fn size_flags(&self) -> Seq<bool> {
        Seq::new(self.field_count(), |i: int| self.types()[i] == size_type())
    }

    /// No two fields share a name.
    pub open spec fn wf(&self) -> bool {
        self.names().no_duplicates()
    }

    /// The number of fields.
    pub fn len(&self) -> (n: usize)
        ensures
            n == self.field_count(),
    {
        match self {
            FieldShape::Named(fields) => fields.len(),
            FieldShape::Positional(types) => types.len(),
            FieldShape::Empty => 0,
        }
    }

    /// The name of the field at `index`, where the fields have names.
    pub fn name_at(&self, index: usize) -> (name: Option<&str>)
        requires
            index < self.field_count(),
        ensures
            match name {
                Some(name) => self is Named && name@ == self.names()[index as int],
                None => self is Positional,
            },
    {
        match self {
            FieldShape::Named(fields) => Some(fields[index].name.as_str()),
            _ => None,
        }
    }

    /// The type of the field at `index`.
    pub fn type_at(&self, index: usize) -> (ty: &str)
        requires
            index < self.field_count(),
        ensures
            ty@ == self.types()[index as int],
    {
        match self {
            FieldShape::Named(fields) => fields[index].ty.as_str(),
            FieldShape::Positional(types) => types[index].as_str(),
            FieldShape::Empty => "",
        }
    }

    /// Whether no two fields share a name.
    pub fn has_distinct_names(&self) -> (distinct: bool)
        ensures
            distinct == self.wf(),
    {
        match self {
            FieldShape::Named(fields) => {
                let ghost names = self.names();
                let mut j: usize = 0;
                while j < fields.len()
                    invariant
                        j <= fields.len(),
                        names == self.names(),
                        *self == FieldShape::Named(*fields),
                        forall|a: int, b: int| 0 <= a < b < j ==> names[a] != names[b],
                    decreases fields.len() - j,
                {
                    let mut i: usize = 0;
                    while i < j
                        invariant
                            i <= j < fields.len(),
                            names == self.names(),
                            *self == FieldShape::Named(*fields),
                            forall|a: int| 0 <= a < i ==> names[a] != names[j as int],
                        decreases j - i,
                    {
                        if fields[i].name == fields[j].name {
                            assert(names[i as int] == names[j as int]);
                            return false;
                        }
                        i += 1;
                    }
                    j += 1;
                }
                assert forall|a: int, b: int|
                    0 <= a < names.len() && 0 <= b < names.len() && a != b implies names[a]
                    != names[b] by {
                    if a < b {
                    } else {
                        assert(names[b] != names[a]);
                    }
                }
                true
            },
            _ => true,
        }
    }
}

impl DeriveError {
    /// The words that report the error.
    pub open spec fn spec_message(&self) -> Seq<char> {
        match self {
            DeriveError::UnsupportedRecordKind =>
                "#[derive(FormatArgs)] is not implemented for enums"@,
            DeriveError::UnnamedField => "a field between braces has no name"@,
            DeriveError::DuplicateField => "two fields share a name"@,
        }
    }

    /// The words that report the error.
    pub fn message(&self) -> (text: String)
        ensures
            text@ == self.spec_message(),
    {
        match self {
            DeriveError::UnsupportedRecordKind => String::from_str(
                "#[derive(FormatArgs)] is not implemented for enums",
            ),
            DeriveError::UnnamedField => String::from_str("a field between braces has no name"),
            DeriveError::DuplicateField => String::from_str("two fields share a name"),
        }
    }
}

/// The shape that a definition's fields have: that of its body where it is
/// a struct whose fields have distinct names.
pub open spec fn classification(record: RecordDefinition) -> Result<FieldShape, DeriveError> {
    match record.body {
        Body::Enum => Err(DeriveError::UnsupportedRecordKind),
        Body::Struct(shape) => if shape.wf() {
            Ok(shape)
        } else {
            Err(DeriveError::DuplicateField)
        },
    }
}

/// Finds the shape of a definition's fields. An enum is refused, and so is a
/// struct in which two fields share a name.
pub fn classify(record: &RecordDefinition) -> (result: Result<&FieldShape, DeriveError>)
    ensures
        match result {
            Ok(shape) => classification(*record) == Ok::<FieldShape, DeriveError>(*shape),
            Err(error) => classification(*record) == Err::<FieldShape, DeriveError>(error),
        },
{
    match &record.body {
        Body::Enum => Err(DeriveError::UnsupportedRecordKind),
        Body::Struct(shape) => {
            if shape.has_distinct_names() {
                Ok(shape)
            } else {
                Err(DeriveError::DuplicateField)
            }
        },
    }
}

} // verus!
