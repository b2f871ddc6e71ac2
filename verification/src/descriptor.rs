//! The dispatch table of a record: a field's index by its name, whether an
//! index is a field's, and for each field the accessors that narrow a record
//! to it.

use crate::record::{classification, classify, DeriveError, FieldShape, RecordDefinition};
use vstd::prelude::*;
use vstd::string::StringExecFns;

verus! {

/// The value of one field of a record, as far as the table tells values
/// apart: a size, or anything else.
#[derive(Clone, Debug, PartialEq, Eq)]
pub enum Value<T> {
    /// A value of the size type.
    Size(usize),
    /// A value of any other type.
    Other(T),
}

/// Narrows a record to one of its fields, to render that field by the
/// capability `C`.
#[derive(Clone, Debug, PartialEq, Eq)]
pub struct Renderer<C> {
    /// The capability that the field is rendered by.
    pub capability: C,
    /// The index of the field.
    pub field: usize,
}

/// Narrows a record to one of its fields, whose value is a size.
#[derive(Clone, Debug, PartialEq, Eq)]
pub struct SizeAccessor {
    /// The index of the field.
    pub field: usize,
}

/// The dispatch table of one record type.
#[derive(Clone, Debug, PartialEq, Eq)]
pub struct Descriptor {
    /// The names that resolve, each to its position in this list.
    pub names: Vec<String>,
    /// For each field, whether its type is the size type.
    pub sizes: Vec<bool>,
}

/// The first position at or behind `from` at which `name` stands in `names`.
pub open spec fn first_index(names: Seq<Seq<char>>, name: Seq<char>, from: int) -> Option<usize>
    decreases names.len() - from,
{
    if from < 0 || from >= names.len() {
        None
    } else if names[from] == name {
        Some(from as usize)
    } else {
        first_index(names, name, from + 1)
    }
}

impl<C> Renderer<C> {
    /// The field of `instance` that the renderer narrows to.
    pub open spec fn spec_narrow<T>(&self, instance: Seq<Value<T>>) -> Value<T> {
        instance[self.field as int]
    }

    /// Narrows `instance` to the renderer's field.
    pub fn narrow<'a, T>(&self, instance: &'a [Value<T>]) -> (value: &'a Value<T>)
        requires
            self.field < instance@.len(),
        ensures
            *value == self.spec_narrow(instance@),
    {
        &instance[self.field]
    }
}

impl SizeAccessor {
    /// The size in the field of `instance` that the accessor narrows to.
    pub open spec fn spec_extract<T>(&self, instance: Seq<Value<T>>) -> usize {
        instance[self.field as int]->Size_0
    }

    /// Narrows `instance` to the accessor's field and lends the size in it.
    pub fn extract<'a, T>(&self, instance: &'a [Value<T>]) -> (size: &'a usize)
        requires
            self.field < instance@.len(),
            instance@[self.field as int] is Size,
        ensures
            *size == self.spec_extract(instance@),
    {
        match &instance[self.field] {
            Value::Size(size) => size,
            Value::Other(_) => vstd::pervasive::unreached(),
        }
    }
}

impl Descriptor {
    /// The names that resolve, in the order of their indices.
    pub open spec fn name_table(&self) -> Seq<Seq<char>> {
        Seq::new(self.names@.len(), |i: int| self.names@[i]@)
    }

    /// The number of fields.
    pub open spec fn field_count(&self) -> nat {
        self.sizes@.len()
    }

    /// The table is that of a record whose fields have the shape `shape`.
    pub open spec fn describes(&self, shape: FieldShape) -> bool {
        &&& self.name_table() == shape.names()
        &&& self.sizes@ == shape.size_flags()
    }

    /// Every name resolves to the index of a field, and no name stands twice.
    pub open spec fn wf(&self) -> bool {
        &&& self.names@.len() == 0 || self.names@.len() == self.sizes@.len()
        &&& self.name_table().no_duplicates()
    }

    /// `instance` holds one value for each field, a size exactly where the
    /// field's type is the size type.
    pub open spec fn admits<T>(&self, instance: Seq<Value<T>>) -> bool {
        &&& instance.len() == self.field_count()
        &&& forall|i: int|
            0 <= i < instance.len() ==> ((#[trigger] instance[i]) is Size <==> self.sizes@[i])
    }

    /// The index that `name` resolves to.
    pub open spec fn spec_validate_name(&self, name: Seq<char>) -> Option<usize> {
        first_index(self.name_table(), name, 0)
    }

    /// Whether `index` is the index of a field.
    pub open spec fn spec_validate_index(&self, index: usize) -> bool {
        index < self.field_count()
    }

    /// The renderer for the field at `index`.
    pub open spec fn spec_get_child<C>(&self, capability: C, index: usize) -> Option<Renderer<C>> {
        Some(Renderer { capability, field: index })
    }

    /// The size accessor for the field at `index`, if the field holds a size.
    pub open spec fn spec_as_usize(&self, index: usize) -> Option<SizeAccessor> {
        if self.sizes@[index as int] {
            Some(SizeAccessor { field: index })
        } else {
            None
        }
    }

    /// Makes the table of a record whose fields have the shape `shape`.
    pub fn new(shape: &FieldShape) -> (table: Descriptor)
        ensures
            table.describes(*shape),
            shape.wf() ==> table.wf(),
    {
        let count = shape.len();
        let size_type = String::from_str("usize");
        let mut names: Vec<String> = Vec::new();
        let mut sizes: Vec<bool> = Vec::new();
        let mut i: usize = 0;
        while i < count
            invariant
                i <= count == shape.field_count(),
                size_type@ == crate::record::size_type(),
                sizes@ =~= shape.size_flags().take(i as int),
                names@.len() == (if shape is Named {
                    i
                } else {
                    0
                }),
                forall|k: int| 0 <= k < names@.len() ==> (#[trigger] names@[k])@ == shape.names()[k],
            decreases count - i,
        {
            if let Some(name) = shape.name_at(i) {
                names.push(String::from_str(name));
            }
            let ty = String::from_str(shape.type_at(i));
            sizes.push(ty == size_type);
            i += 1;
        }
        let table = Descriptor { names, sizes };
        assert(shape.size_flags().take(count as int) =~= shape.size_flags());
        assert(table.name_table() =~= shape.names());
        table
    }

    /// Resolves a name to the index of the field that it names.
    pub fn validate_name(&self, name: &str) -> (index: Option<usize>)
        ensures
            index == self.spec_validate_name(name@),
    {
        let wanted = String::from_str(name);
        let mut i: usize = 0;
        while i < self.names.len()
            invariant
                i <= self.names.len(),
                wanted@ == name@,
                self.spec_validate_name(name@) == first_index(self.name_table(), name@, i as int),
            decreases self.names.len() - i,
        {
            if self.names[i] == wanted {
                return Some(i);
            }
            i += 1;
        }
        None
    }

    /// Tells whether `index` is the index of a field.
    pub fn validate_index(&self, index: usize) -> (valid: bool)
        ensures
            valid == self.spec_validate_index(index),
    {
        index < self.sizes.len()
    }

    /// The renderer that narrows a record to the field at `index`, for the
    /// capability asked for. An index that `validate_index` refuses is a
    /// fault of the caller.
    pub fn get_child<C>(&self, capability: C, index: usize) -> (child: Option<Renderer<C>>)
        requires
            self.spec_validate_index(index),
        ensures
            child == self.spec_get_child(capability, index),
    {
        Some(Renderer { capability, field: index })
    }

    /// The accessor that narrows a record to the field at `index` and reads
    /// it as a size; none where the field's type is another. An index that
    /// `validate_index` refuses is a fault of the caller.
    pub fn as_usize(&self, index: usize) -> (accessor: Option<SizeAccessor>)
        requires
            self.spec_validate_index(index),
        ensures
            accessor == self.spec_as_usize(index),
    {
        if self.sizes[index] {
            Some(SizeAccessor { field: index })
        } else {
            None
        }
    }
}

/// Makes the dispatch table of a record. An enum is refused, and so is a
/// struct in which two fields share a name.
pub fn describe(record: &RecordDefinition) -> (result: Result<Descriptor, DeriveError>)
    ensures
        match result {
            Ok(table) => classification(*record) is Ok && table.describes(
                classification(*record)->Ok_0,
            ) && table.wf(),
            Err(error) => classification(*record) == Err::<FieldShape, DeriveError>(error),
        },
{
    match classify(record) {
        Ok(shape) => Ok(Descriptor::new(shape)),
        Err(error) => Err(error),
    }
}

} // verus!
