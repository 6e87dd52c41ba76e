//! Building blocks shared by the object schemas.
use vstd::prelude::*;
use crate::layout::{object_header_is, resource_header_is};
use crate::layout::{array_is, f32_is, i32_is, rect_is, sphere_is, u32_is};
use crate::schema::{blind, blind_cases, blind_fields, blind_kind, cases_wf, field_wf, fields_wf, shape_wf, Case, Cond, Field, FieldKind, Prim, Shape};

verus! {

/// A field that refers to no sibling but for a presence test, and whose test
/// does not look at how many bytes remain.
pub open spec fn simple_field(f: Field) -> bool {
    match f.kind {
        FieldKind::Plain(s) => shape_wf(s) && blind(s),
        FieldKind::When(c, s) => c.left is None && shape_wf(s) && blind(s),
        FieldKind::Counted(_, _, e) => shape_wf(e) && blind(e),
        _ => false,
    }
}

pub open spec fn simple_fields(fs: Seq<Field>) -> bool {
    forall|j: int| 0 <= j < fs.len() ==> #[trigger] simple_field(fs[j])
}

pub proof fn lemma_simple_fields(fs: Seq<Field>, i: int)
    requires
        simple_fields(fs),
        0 <= i,
    ensures
        fields_wf(fs, i),
        blind_fields(fs, i),
    decreases fs.len() - i,
{
    if i < fs.len() {
        assert(simple_field(fs[i]));
        assert(field_wf(fs, i));
        assert(blind_kind(fs[i].kind));
        lemma_simple_fields(fs, i + 1);
    }
}

pub proof fn lemma_fields_wf_each(fs: Seq<Field>, i: int)
    requires
        forall|j: int| 0 <= j < fs.len() ==> #[trigger] field_wf(fs, j),
        0 <= i,
    ensures
        fields_wf(fs, i),
    decreases fs.len() - i,
{
    if i < fs.len() {
        assert(field_wf(fs, i));
        lemma_fields_wf_each(fs, i + 1);
    }
}

pub proof fn lemma_blind_fields_each(fs: Seq<Field>, i: int)
    requires
        forall|j: int| 0 <= j < fs.len() ==> #[trigger] blind_kind(fs[j].kind),
        0 <= i,
    ensures
        blind_fields(fs, i),
    decreases fs.len() - i,
{
    if i < fs.len() {
        assert(blind_kind(fs[i].kind));
        lemma_blind_fields_each(fs, i + 1);
    }
}

pub proof fn lemma_cases_each(cases: Seq<Case>, i: int)
    requires
        forall|k: int| 0 <= k < cases.len() ==> shape_wf(#[trigger] cases[k].shape) && blind(cases[k].shape),
        0 <= i,
    ensures
        cases_wf(cases, i),
        blind_cases(cases, i),
    decreases cases.len() - i,
{
    if i < cases.len() {
        assert(shape_wf(cases[i].shape));
        lemma_cases_each(cases, i + 1);
    }
}

/// Appends a simple field, keeping the list simple.
pub fn push_simple(fs: &mut Vec<Field>, f: Field)
    requires
        simple_fields(old(fs)@),
        simple_field(f),
    ensures
        final(fs)@ == old(fs)@.push(f),
        simple_fields(final(fs)@),
{
    fs.push(f);
    assert(forall|j: int| 0 <= j < fs@.len() ==> #[trigger] fs@[j] == if j < fs@.len() - 1 { old(fs)@[j] } else { f });
}

pub fn u8s() -> (r: Shape)
    ensures
        r == Shape::Prim(Prim::U8),
        shape_wf(r),
        blind(r),
{
    Shape::Prim(Prim::U8)
}

pub fn u16s() -> (r: Shape)
    ensures
        r == Shape::Prim(Prim::U16),
        shape_wf(r),
        blind(r),
{
    Shape::Prim(Prim::U16)
}

pub fn i16s() -> (r: Shape)
    ensures
        r == Shape::Prim(Prim::I16),
        shape_wf(r),
        blind(r),
{
    Shape::Prim(Prim::I16)
}

pub fn u32s() -> (r: Shape)
    ensures
        r == Shape::Prim(Prim::U32),
        shape_wf(r),
        blind(r),
{
    Shape::Prim(Prim::U32)
}

pub fn i32s() -> (r: Shape)
    ensures
        r == Shape::Prim(Prim::I32),
        shape_wf(r),
        blind(r),
{
    Shape::Prim(Prim::I32)
}

pub fn f32s() -> (r: Shape)
    ensures
        r == Shape::Prim(Prim::F32),
        shape_wf(r),
        blind(r),
{
    Shape::Prim(Prim::F32)
}

/// `n` elements with no count on the wire.
pub fn fixed(e: Shape, n: usize) -> (r: Shape)
    ensures
        r == Shape::Array(Box::new(e), n),
        shape_wf(e) && blind(e) ==> shape_wf(r) && blind(r),
{
    Shape::Array(Box::new(e), n)
}

/// A four-byte count followed by that many elements.
pub fn pascal(e: Shape) -> (r: Shape)
    ensures
        r == Shape::Pascal(Box::new(e)),
        shape_wf(e) && blind(e) ==> shape_wf(r) && blind(r),
{
    Shape::Pascal(Box::new(e))
}

pub fn record(fields: Vec<Field>) -> (r: Shape)
    ensures
        r == Shape::Record(fields),
        simple_fields(fields@) ==> shape_wf(r) && blind(r),
{
    proof {
        if simple_fields(fields@) {
            lemma_simple_fields(fields@, 0);
        }
    }
    Shape::Record(fields)
}

pub fn field(name: &'static str, s: Shape) -> (r: Field)
    ensures
        r.name == name,
        r.kind == FieldKind::Plain(s),
{
    Field { name, kind: FieldKind::Plain(s) }
}

/// A field present exactly when `cond` holds.
pub fn optional(name: &'static str, cond: Cond, s: Shape) -> (r: Field)
    ensures
        r.name == name,
        r.kind == FieldKind::When(cond, s),
{
    Field { name, kind: FieldKind::When(cond, s) }
}

/// The value of sibling `sibling` is one of `values`.
pub fn is_one_of(sibling: usize, values: Vec<u32>) -> (r: Cond)
    ensures
        r.sibling == sibling,
        r.values == values,
        r.member,
        r.left is None,
{
    Cond { sibling, values, member: true, left: None }
}

/// The value of sibling `sibling` is none of `values`.
pub fn is_none_of(sibling: usize, values: Vec<u32>) -> (r: Cond)
    ensures
        r.sibling == sibling,
        r.values == values,
        !r.member,
        r.left is None,
{
    Cond { sibling, values, member: false, left: None }
}

pub fn vec2f() -> (r: Shape)
    ensures
        array_is(f32_is(), 2)(r),
        shape_wf(r),
        blind(r),
{
    fixed(f32s(), 2)
}

pub fn vec3f() -> (r: Shape)
    ensures
        array_is(f32_is(), 3)(r),
        shape_wf(r),
        blind(r),
{
    fixed(f32s(), 3)
}

pub fn vec4f() -> (r: Shape)
    ensures
        array_is(f32_is(), 4)(r),
        shape_wf(r),
        blind(r),
{
    fixed(f32s(), 4)
}

pub fn vec3i32() -> (r: Shape)
    ensures
        array_is(i32_is(), 3)(r),
        shape_wf(r),
        blind(r),
{
    fixed(i32s(), 3)
}

/// Rotation quaternion.
pub fn quat() -> (r: Shape)
    ensures
        array_is(f32_is(), 4)(r),
        shape_wf(r),
        blind(r),
{
    fixed(f32s(), 4)
}

/// Row-major 4x4 matrix.
pub fn mat4f() -> (r: Shape)
    ensures
        array_is(f32_is(), 16)(r),
        shape_wf(r),
        blind(r),
{
    fixed(f32s(), 16)
}

/// Packed RGBA color.
pub fn color() -> (r: Shape)
    ensures
        u32_is()(r),
        shape_wf(r),
        blind(r),
{
    u32s()
}

/// Bounding sphere: center and radius.
pub fn sphere() -> (r: Shape)
    ensures
        sphere_is()(r),
        shape_wf(r),
        blind(r),
{
    record(vec![field("center", vec3f()), field("radius", f32s())])
}

/// Integer rectangle: minimum and maximum corners.
pub fn rect() -> (r: Shape)
    ensures
        rect_is()(r),
        shape_wf(r),
        blind(r),
{
    record(
        vec![
            field("min_x", i32s()),
            field("min_y", i32s()),
            field("max_x", i32s()),
            field("max_y", i32s()),
        ],
    )
}

/// Header shared by placed objects.
pub fn object_header() -> (r: Shape)
    ensures
        object_header_is()(r),
        shape_wf(r),
        blind(r),
{
    record(
        vec![
            field("friendly_name_crc32", u32s()),
            field("crc32s", pascal(u32s())),
            field("data_crc32", u32s()),
            field("rot", quat()),
            field("transform", mat4f()),
            field("radius", f32s()),
            field("flags", u32s()),
            field("object_type", u16s()),
        ],
    )
}

/// Header shared by resources.
pub fn resource_header() -> (r: Shape)
    ensures
        resource_header_is()(r),
        shape_wf(r),
        blind(r),
{
    record(vec![field("friendly_name_crc32", u32s()), field("crc32s", pascal(u32s()))])
}

} // verus!
