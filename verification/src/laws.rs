//! What holds of every dispatch table, stated over the shape of the record
//! that it is made for.

use crate::descriptor::{first_index, Descriptor, Value};
use crate::generate::{index_check, name_arm, name_arms, name_resolver};
use crate::record::{size_type, FieldShape};
use crate::tokens::{size_literal, spaced};
use vstd::prelude::*;

verus! {

/// A name that stands at `index`, and nowhere from `from` up to it, is found
/// there.
pub proof fn lemma_first_index_found(
    names: Seq<Seq<char>>,
    name: Seq<char>,
    from: int,
    index: usize,
)
    requires
        0 <= from <= index < names.len(),
        names[index as int] == name,
        forall|k: int| from <= k < index ==> names[k] != name,
    ensures
        first_index(names, name, from) == Some(index),
    decreases index - from,
{
    if from < index {
        lemma_first_index_found(names, name, from + 1, index);
    }
}

/// A name that stands nowhere from `from` on is not found.
pub proof fn lemma_first_index_absent(names: Seq<Seq<char>>, name: Seq<char>, from: int)
    requires
        0 <= from,
        forall|k: int| from <= k < names.len() ==> names[k] != name,
    ensures
        first_index(names, name, from) is None,
    decreases names.len() - from,
{
    if from < names.len() {
        lemma_first_index_absent(names, name, from + 1);
    }
}

/// What a search from `from` on returns: a position at or behind `from` that
/// holds the name, with none before it, or nothing where none holds it.
pub proof fn lemma_first_index_result(names: Seq<Seq<char>>, name: Seq<char>, from: int)
    requires
        0 <= from,
        names.len() <= usize::MAX,
    ensures
        match first_index(names, name, from) {
            Some(index) => from <= index < names.len() && names[index as int] == name
                && forall|k: int| from <= k < index ==> names[k] != name,
            None => forall|k: int| from <= k < names.len() ==> names[k] != name,
        },
    decreases names.len() - from,
{
    if from < names.len() && names[from] != name {
        lemma_first_index_result(names, name, from + 1);
    }
}

/// What `validate_name` returns is the index of a field whose name is the
/// one asked for, or nothing where no field has that name.
pub proof fn law_name_found_exactly(table: Descriptor, name: Seq<char>)
    ensures
        match table.spec_validate_name(name) {
            Some(index) => index < table.name_table().len() && table.name_table()[index as int]
                == name,
            None => !table.name_table().contains(name),
        },
{
    assert(table.names.len() == table.name_table().len());
    lemma_first_index_result(table.name_table(), name, 0);
    if table.spec_validate_name(name) is None {
        assert forall|k: int| 0 <= k < table.name_table().len() implies table.name_table()[k]
            != name by {}
    }
}

/// In a record with named fields, each declared name resolves to the index
/// of the field that declares it, and `validate_index` accepts that index.
pub proof fn law_declared_name_resolves(table: Descriptor, shape: FieldShape, index: usize)
    requires
        shape is Named,
        shape.wf(),
        table.describes(shape),
        index < shape.field_count(),
    ensures
        table.spec_validate_name(shape.names()[index as int]) == Some(index),
        table.spec_validate_index(index),
{
    let names = shape.names();
    assert forall|k: int| 0 <= k < index implies names[k] != names[index as int] by {
        assert(names.no_duplicates());
    }
    lemma_first_index_found(names, names[index as int], 0, index);
}

/// A string that no field declares as its name resolves to nothing.
pub proof fn law_undeclared_name_is_absent(table: Descriptor, shape: FieldShape, name: Seq<char>)
    requires
        table.describes(shape),
        !shape.names().contains(name),
    ensures
        table.spec_validate_name(name) is None,
{
    let names = shape.names();
    assert forall|k: int| 0 <= k < names.len() implies names[k] != name by {
        if names[k] == name {
            assert(names.contains(name));
        }
    }
    lemma_first_index_absent(names, name, 0);
}

/// In a record whose fields have no names, no string resolves.
pub proof fn law_unnamed_fields_resolve_nothing(
    table: Descriptor,
    shape: FieldShape,
    name: Seq<char>,
)
    requires
        !(shape is Named),
        table.describes(shape),
    ensures
        table.spec_validate_name(name) is None,
{
}

/// `validate_index` accepts exactly the indices below the number of fields,
/// and so none where the record has no fields.
pub proof fn law_index_valid_in_range(table: Descriptor, shape: FieldShape, index: usize)
    requires
        table.describes(shape),
    ensures
        table.spec_validate_index(index) <==> 0 <= index < shape.field_count(),
        shape is Empty ==> !table.spec_validate_index(index),
{
}

/// For every index that `validate_index` accepts, `get_child` returns a
/// renderer, and on any record that renderer narrows to the value of the
/// field at that index.
pub proof fn law_child_narrows_to_its_field<C, T>(
    table: Descriptor,
    capability: C,
    index: usize,
    instance: Seq<Value<T>>,
)
    requires
        table.spec_validate_index(index),
        instance.len() == table.field_count(),
    ensures
        table.spec_get_child(capability, index) is Some,
        table.spec_get_child(capability, index)->Some_0.spec_narrow(instance)
            == instance[index as int],
{
}

/// For a field of the size type, `as_usize` returns an accessor that reads
/// the field's value from any record; for a field of another type it returns
/// nothing.
pub proof fn law_size_accessor_reads_sizes_only<T>(
    table: Descriptor,
    shape: FieldShape,
    index: usize,
    instance: Seq<Value<T>>,
)
    requires
        table.describes(shape),
        table.spec_validate_index(index),
        table.admits(instance),
    ensures
        shape.types()[index as int] == size_type() ==> {
            &&& table.spec_as_usize(index) is Some
            &&& instance[index as int] == Value::<T>::Size(
                table.spec_as_usize(index)->Some_0.spec_extract(instance),
            )
        },
        shape.types()[index as int] != size_type() ==> table.spec_as_usize(index) is None,
{
}

/// The emitted code and the table agree: each arm of the emitted
/// `validate_name` maps a declared name to the index that the table resolves
/// it to, and the emitted `validate_index` compares with the table's number
/// of fields.
pub proof fn law_code_agrees_with_table(table: Descriptor, shape: FieldShape, index: usize)
    requires
        shape is Named,
        shape.wf(),
        table.describes(shape),
        index < shape.field_count(),
    ensures
        name_resolver(shape)[1] == spaced(name_arms(table.name_table())),
        table.spec_validate_name(table.name_table()[index as int]) is Some,
        name_arms(table.name_table())[index as int] == spaced(
            name_arm(
                table.name_table()[index as int],
                table.spec_validate_name(table.name_table()[index as int])->Some_0 as nat,
            ),
        ),
        index_check(shape) == seq!["index <"@, size_literal(table.field_count())],
{
    law_declared_name_resolves(table, shape, index);
}

} // verus!
