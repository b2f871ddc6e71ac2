//! The dispatch table of a record type, made from the type's definition: a
//! field's index by its name, whether an index is a field's, and for each
//! field the accessors that narrow a record to it. The table is emitted as
//! the code of a `FormatArgs` impl, and kept as a `Descriptor` that answers
//! the same four questions.

pub mod descriptor;
pub mod generate;
pub mod laws;
pub mod record;
pub mod syntax;
pub mod tokens;

use crate::generate::{descriptor_impl, implement};
use crate::record::{classification, RecordDefinition};
use crate::tokens::spaced;
use vstd::prelude::*;

verus! {

/// `text` is the code of the dispatch table of `record`.
pub open spec fn derives(record: RecordDefinition, text: Seq<char>) -> bool {
    &&& classification(record) is Ok
    &&& text == spaced(descriptor_impl(record, classification(record)->Ok_0))
}

/// Derives a `FormatArgs` implementation for the struct whose definition is
/// `ast`: the code of its dispatch table, as text. The definition is a
/// struct whose fields have distinct names; for any other, `classify` says
/// why nothing can be derived.
pub fn derive_format_args(ast: &RecordDefinition) -> (text: String)
    requires
        classification(*ast) is Ok,
    ensures
        derives(*ast, text@),
{
    implement(ast).into_string()
}

} // verus!
