//! The code of a dispatch table: for each of its four functions the tokens
//! of its body, and the `impl` block that holds them.

use crate::record::{classification, Body, FieldShape, RecordDefinition};
use crate::tokens::{size_literal, spaced, str_literal, tokens_text, decimal, Fragment};
use vstd::prelude::*;
use vstd::string::{StrSliceExecFns, StringExecFns};

verus! {

/// The call that ends the program on an index that no field has.
pub open spec fn bad_index() -> Seq<char> {
    "panic ! ( \"bad index {}\" , index )"@
}

/// What stands behind the dot in an access to the field at `index`: the
/// field's name, or else its position.
pub open spec fn member(name: Option<Seq<char>>, index: nat) -> Seq<char> {
    match name {
        Some(name) => name,
        None => decimal(index),
    }
}

/// The arm of `validate_name` that maps `name` to `index`.
pub open spec fn name_arm(name: Seq<char>, index: nat) -> Seq<Seq<char>> {
    seq![str_literal(name), "=> _Option :: Some ("@, size_literal(index), ") ,"@]
}

/// One arm of `validate_name` for each name, in order.
pub open spec fn name_arms(names: Seq<Seq<char>>) -> Seq<Seq<char>> {
    Seq::new(names.len(), |i: int| spaced(name_arm(names[i], i as nat)))
}

/// The body of `validate_name`: a match on the declared names where the
/// fields have names, and nothing to find where they have none.
pub open spec fn name_resolver(shape: FieldShape) -> Seq<Seq<char>> {
    if shape is Named {
        seq!["match name {"@, spaced(name_arms(shape.names())), "_ => _Option :: None , }"@]
    } else {
        seq!["_Option :: None"@]
    }
}

/// The body of `validate_index`: a comparison with the number of fields,
/// and `false` where the type has no field list.
pub open spec fn index_check(shape: FieldShape) -> Seq<Seq<char>> {
    if shape is Empty {
        seq!["false"@]
    } else {
        seq!["index <"@, size_literal(shape.field_count())]
    }
}

/// The arm of `get_child` for the field at `index`: a closure that narrows
/// the record to the field, handed on with the field's type.
pub open spec fn child_arm(index: nat, ty: Seq<char>, member: Seq<char>) -> Seq<Seq<char>> {
    seq![
        size_literal(index),
        "=> _runtime_fmt :: codegen :: combine :: < __F , Self ,"@,
        ty,
        ", _ > ( | this | & this ."@,
        member,
        ") ,"@,
    ]
}

/// One arm of `get_child` for each field, in order.
pub open spec fn child_arms(shape: FieldShape) -> Seq<Seq<char>> {
    Seq::new(
        shape.field_count(),
        |i: int| spaced(child_arm(i as nat, shape.types()[i], shape.members()[i])),
    )
}

/// The body of `get_child`: a match on the index with one arm for each
/// field, which ends the program on any other index.
pub open spec fn child_dispatch(shape: FieldShape) -> Seq<Seq<char>> {
    if shape is Empty {
        seq![bad_index()]
    } else {
        seq!["match index {"@, spaced(child_arms(shape)), "_ =>"@, bad_index(), "}"@]
    }
}

/// The generics of the function that narrows a record to a field for
/// `as_usize`: the lifetime that its input and output share, and behind it
/// what the definition's generics hold after `impl`, in their order. Where
/// `impl_generics` opens with `<`, the lifetime and a comma take the place
/// behind that bracket; where the definition has no generics, the lifetime
/// stands alone between the brackets.
pub open spec fn accessor_generics(impl_generics: Seq<char>) -> Seq<char> {
    if impl_generics.len() > 0 && impl_generics[0] == '<' {
        "< '__as_usize_inner ,"@ + impl_generics.subrange(1, impl_generics.len() as int)
    } else {
        "< '__as_usize_inner >"@
    }
}

/// The arm of `as_usize` for the field at `index`: a function that narrows
/// the record to the field, under one lifetime for input and output, handed
/// to the adapter that accepts it only for a field of the size type.
pub open spec fn size_arm(
    record: RecordDefinition,
    index: nat,
    ty: Seq<char>,
    member: Seq<char>,
) -> Seq<Seq<char>> {
    seq![
        size_literal(index),
        "=> { fn inner"@,
        accessor_generics(record.generics.impl_generics@),
        "( this : & '__as_usize_inner"@,
        record.ident@,
        record.generics.ty_generics@,
        ") -> & '__as_usize_inner"@,
        ty,
        record.generics.where_clause@,
        "{ & this ."@,
        member,
        "} _runtime_fmt :: codegen :: as_usize ( inner ) } ,"@,
    ]
}

/// One arm of `as_usize` for each field, in order.
pub open spec fn size_arms(record: RecordDefinition, shape: FieldShape) -> Seq<Seq<char>> {
    Seq::new(
        shape.field_count(),
        |i: int| spaced(size_arm(record, i as nat, shape.types()[i], shape.members()[i])),
    )
}

/// The body of `as_usize`: a match on the index with one arm for each
/// field, which ends the program on any other index.
pub open spec fn size_dispatch(record: RecordDefinition, shape: FieldShape) -> Seq<Seq<char>> {
    if shape is Empty {
        seq![bad_index()]
    } else {
        seq!["match index {"@, spaced(size_arms(record, shape)), "_ =>"@, bad_index(), "}"@]
    }
}

/// The name of the constant that the `impl` block is put in.
pub open spec fn dummy_ident(ident: Seq<char>) -> Seq<char> {
    "_IMPL_FORMAT_ARGS_FOR_"@ + ident
}

/// The `impl` block of the dispatch table for `record`, whose fields have the
/// shape `shape`: the four bodies under the headers of their functions, with
/// the record's generics as they stand in its definition.
pub open spec fn descriptor_impl(record: RecordDefinition, shape: FieldShape) -> Seq<Seq<char>> {
    seq![
        "# [ allow ( non_upper_case_globals , unused_attributes ) ]"@,
        "# [ allow ( unused_variables , unused_qualifications ) ]"@,
        "const"@,
        dummy_ident(record.ident@),
        ": ( ) = {"@,
        "extern crate runtime_fmt as _runtime_fmt ;"@,
        "use std :: fmt :: { Formatter as _Formatter , Result as _Result } ;"@,
        "use std :: option :: Option as _Option ;"@,
        "# [ automatically_derived ]"@,
        "impl"@,
        record.generics.impl_generics@,
        "_runtime_fmt :: FormatArgs for"@,
        record.ident@,
        record.generics.ty_generics@,
        record.generics.where_clause@,
        "{"@,
        "fn validate_name ( name : & str ) -> _Option < usize > {"@,
        spaced(name_resolver(shape)),
        "}"@,
        "fn validate_index ( index : usize ) -> bool {"@,
        spaced(index_check(shape)),
        "}"@,
        "fn get_child < __F > ( index : usize ) -> _Option < fn ( & Self , & mut _Formatter ) -> _Result > where __F : _runtime_fmt :: codegen :: FormatTrait + ? Sized {"@,
        spaced(child_dispatch(shape)),
        "}"@,
        "fn as_usize ( index : usize ) -> Option < fn ( & Self ) -> & usize > {"@,
        spaced(size_dispatch(record, shape)),
        "}"@,
        "} } ;"@,
    ]
}

/// Writes the access to a field behind the dot: its name, or else its
/// position.
fn put_member(out: &mut Fragment, name: Option<&str>, index: usize)
    requires
        old(out).wf(),
    ensures
        final(out).wf(),
        final(out).parts() == old(out).parts().push(
            member(
                match name {
                    Some(name) => Some(name@),
                    None => None,
                },
                index as nat,
            ),
        ),
{
    match name {
        Some(name) => out.put(name),
        None => out.put_position(index),
    }
}

/// Emits the body of `validate_name`.
pub fn build_names(shape: &FieldShape) -> (tokens: quote::Tokens)
    ensures
        tokens_text(tokens) == spaced(name_resolver(*shape)),
{
    let mut out = Fragment::new();
    match shape {
        FieldShape::Named(fields) => {
            let mut arms = Fragment::new();
            let mut i: usize = 0;
            while i < fields.len()
                invariant
                    i <= fields.len(),
                    *shape == FieldShape::Named(*fields),
                    arms.wf(),
                    arms.parts() =~= Seq::new(
                        i as nat,
                        |k: int| spaced(name_arm(shape.names()[k], k as nat)),
                    ),
                decreases fields.len() - i,
            {
                let mut arm = Fragment::new();
                arm.put_str_literal(fields[i].name.as_str());
                arm.put("=> _Option :: Some (");
                arm.put_size_literal(i);
                arm.put(") ,");
                assert(arm.parts() =~= name_arm(shape.names()[i as int], i as nat));
                let arm = arm.finish();
                arms.put_tokens(&arm);
                i += 1;
            }
            assert(arms.parts() =~= name_arms(shape.names()));
            let arms = arms.finish();
            out.put("match name {");
            out.put_tokens(&arms);
            out.put("_ => _Option :: None , }");
            assert(out.parts() =~= name_resolver(*shape));
        },
        _ => {
            out.put("_Option :: None");
            assert(out.parts() =~= name_resolver(*shape));
        },
    }
    out.finish()
}

/// Emits the body of `validate_index`.
pub fn build_index(shape: &FieldShape) -> (tokens: quote::Tokens)
    ensures
        tokens_text(tokens) == spaced(index_check(*shape)),
{
    let mut out = Fragment::new();
    match shape {
        FieldShape::Empty => {
            out.put("false");
        },
        _ => {
            out.put("index <");
            out.put_size_literal(shape.len());
        },
    }
    assert(out.parts() =~= index_check(*shape));
    out.finish()
}

/// Emits the body of `get_child`.
pub fn build_fields(shape: &FieldShape) -> (tokens: quote::Tokens)
    ensures
        tokens_text(tokens) == spaced(child_dispatch(*shape)),
{
    let mut out = Fragment::new();
    match shape {
        FieldShape::Empty => {
            out.put("panic ! ( \"bad index {}\" , index )");
        },
        _ => {
            let count = shape.len();
            let mut arms = Fragment::new();
            let mut i: usize = 0;
            while i < count
                invariant
                    i <= count == shape.field_count(),
                    arms.wf(),
                    arms.parts() =~= Seq::new(
                        i as nat,
                        |k: int|
                            spaced(child_arm(k as nat, shape.types()[k], shape.members()[k])),
                    ),
                decreases count - i,
            {
                let mut arm = Fragment::new();
                arm.put_size_literal(i);
                arm.put("=> _runtime_fmt :: codegen :: combine :: < __F , Self ,");
                arm.put(shape.type_at(i));
                arm.put(", _ > ( | this | & this .");
                put_member(&mut arm, shape.name_at(i), i);
                arm.put(") ,");
                assert(arm.parts() =~= child_arm(
                    i as nat,
                    shape.types()[i as int],
                    shape.members()[i as int],
                ));
                let arm = arm.finish();
                arms.put_tokens(&arm);
                i += 1;
            }
            assert(arms.parts() =~= child_arms(*shape));
            let arms = arms.finish();
            out.put("match index {");
            out.put_tokens(&arms);
            out.put("_ =>");
            out.put("panic ! ( \"bad index {}\" , index )");
            out.put("}");
        },
    }
    assert(out.parts() =~= child_dispatch(*shape));
    out.finish()
}

/// Puts the lifetime that a size accessor's input and output share in front
/// of the definition's generics.
pub fn build_accessor_generics(impl_generics: &str) -> (text: String)
    ensures
        text@ == accessor_generics(impl_generics@),
{
    let len = impl_generics.unicode_len();
    if len > 0 && impl_generics.get_char(0) == '<' {
        String::from_str("< '__as_usize_inner ,").concat(impl_generics.substring_char(1, len))
    } else {
        String::from_str("< '__as_usize_inner >")
    }
}

/// Emits the body of `as_usize`.
pub fn build_usize(ast: &RecordDefinition, shape: &FieldShape) -> (tokens: quote::Tokens)
    ensures
        tokens_text(tokens) == spaced(size_dispatch(*ast, *shape)),
{
    let mut out = Fragment::new();
    match shape {
        FieldShape::Empty => {
            out.put("panic ! ( \"bad index {}\" , index )");
        },
        _ => {
            let count = shape.len();
            let generics = build_accessor_generics(ast.generics.impl_generics.as_str());
            let mut result = Fragment::new();
            let mut idx: usize = 0;
            while idx < count
                invariant
                    idx <= count == shape.field_count(),
                    generics@ == accessor_generics(ast.generics.impl_generics@),
                    result.wf(),
                    result.parts() =~= Seq::new(
                        idx as nat,
                        |k: int|
                            spaced(
                                size_arm(*ast, k as nat, shape.types()[k], shape.members()[k]),
                            ),
                    ),
                decreases count - idx,
            {
                let mut arm = Fragment::new();
                arm.put_size_literal(idx);
                arm.put("=> { fn inner");
                arm.put(generics.as_str());
                arm.put("( this : & '__as_usize_inner");
                arm.put(ast.ident.as_str());
                arm.put(ast.generics.ty_generics.as_str());
                arm.put(") -> & '__as_usize_inner");
                arm.put(shape.type_at(idx));
                arm.put(ast.generics.where_clause.as_str());
                arm.put("{ & this .");
                put_member(&mut arm, shape.name_at(idx), idx);
                arm.put("} _runtime_fmt :: codegen :: as_usize ( inner ) } ,");
                assert(arm.parts() =~= size_arm(
                    *ast,
                    idx as nat,
                    shape.types()[idx as int],
                    shape.members()[idx as int],
                ));
                let arm = arm.finish();
                result.put_tokens(&arm);
                idx += 1;
            }
            assert(result.parts() =~= size_arms(*ast, *shape));
            let result = result.finish();
            out.put("match index {");
            out.put_tokens(&result);
            out.put("_ =>");
            out.put("panic ! ( \"bad index {}\" , index )");
            out.put("}");
        },
    }
    assert(out.parts() =~= size_dispatch(*ast, *shape));
    out.finish()
}

/// Emits the dispatch table of a record: the `impl` block with the four
/// functions. The record is a struct whose fields have distinct names; for
/// any other, `classify` says why it has no table.
pub fn implement(ast: &RecordDefinition) -> (tokens: quote::Tokens)
    requires
        classification(*ast) is Ok,
    ensures
        tokens_text(tokens) == spaced(descriptor_impl(*ast, classification(*ast)->Ok_0)),
{
    let shape = match &ast.body {
        Body::Struct(shape) => shape,
        Body::Enum => vstd::pervasive::unreached(),
    };
    let validate_name = build_names(shape);
    let validate_index = build_index(shape);
    let get_child = build_fields(shape);
    let as_usize = build_usize(ast, shape);
    let dummy_ident = String::from_str("_IMPL_FORMAT_ARGS_FOR_").concat(ast.ident.as_str());

    let mut out = Fragment::new();
    out.put("# [ allow ( non_upper_case_globals , unused_attributes ) ]");
    out.put("# [ allow ( unused_variables , unused_qualifications ) ]");
    out.put("const");
    out.put(dummy_ident.as_str());
    out.put(": ( ) = {");
    out.put("extern crate runtime_fmt as _runtime_fmt ;");
    out.put("use std :: fmt :: { Formatter as _Formatter , Result as _Result } ;");
    out.put("use std :: option :: Option as _Option ;");
    out.put("# [ automatically_derived ]");
    out.put("impl");
    out.put(ast.generics.impl_generics.as_str());
    out.put("_runtime_fmt :: FormatArgs for");
    out.put(ast.ident.as_str());
    out.put(ast.generics.ty_generics.as_str());
    out.put(ast.generics.where_clause.as_str());
    out.put("{");
    out.put("fn validate_name ( name : & str ) -> _Option < usize > {");
    out.put_tokens(&validate_name);
    out.put("}");
    out.put("fn validate_index ( index : usize ) -> bool {");
    out.put_tokens(&validate_index);
    out.put("}");
    out.put(
        "fn get_child < __F > ( index : usize ) -> _Option < fn ( & Self , & mut _Formatter ) -> _Result > where __F : _runtime_fmt :: codegen :: FormatTrait + ? Sized {",
    );
    out.put_tokens(&get_child);
    out.put("}");
    out.put("fn as_usize ( index : usize ) -> Option < fn ( & Self ) -> & usize > {");
    out.put_tokens(&as_usize);
    out.put("}");
    out.put("} } ;");
    assert(out.parts() =~= descriptor_impl(*ast, *shape));
    out.finish()
}

} // verus!
