//! Mesh schemas: vertex buffers whose layout is selected by the per-vertex
//! byte stride, and index buffers sized by their count.
use vstd::prelude::*;
use crate::layout::{fields_are, index_buffer_is, mesh_z_header_is, mesh_z_is, vertex_buffer_is, vertex_common_kinds, vertex_four_blend_is, vertex_group_is, vertex_no_blend_is, vertex_one_blend_is, vertex_position_uv_is};
use crate::parts::{f32s, field, fixed, i16s, mat4f, pascal, quat, record, u16s, u32s, u8s, vec2f, vec3f};
use crate::parts::{
    lemma_blind_fields_each, lemma_cases_each, lemma_fields_wf_each, push_simple, simple_fields,
};
use crate::schema::{blind, blind_kind, field_wf, shape_wf, Case, Field, FieldKind, Prim, Shape};

verus! {

/// The strides that select a vertex layout, largest first.
pub const STRIDE_FOUR_BLEND: u32 = 60;

pub const STRIDE_ONE_BLEND: u32 = 48;

pub const STRIDE_NO_BLEND: u32 = 36;

pub const STRIDE_POSITION_UV: u32 = 24;

/// Position, normal and tangent fields every blended layout starts with.
fn vertex_common() -> (r: Vec<Field>)
    ensures
        fields_are(r@, vertex_common_kinds()),
        simple_fields(r@),
{
    vec![
        field("position", vec3f()),
        field("tangent", fixed(u8s(), 3)),
        field("pad0", u8s()),
        field("normal", fixed(u8s(), 3)),
        field("pad1", u8s()),
        field("uv", vec2f()),
    ]
}

/// Vertex with four blend indices and weights: 60 bytes.
pub fn vertex_four_blend() -> (r: Shape)
    ensures
        vertex_four_blend_is()(r),
        shape_wf(r),
        blind(r),
{
    let mut fs = vertex_common();
    push_simple(&mut fs, field("blend_indices", fixed(record(vec![field("index", f32s())]), 4)));
    push_simple(&mut fs, field("blend_weights", fixed(f32s(), 4)));
    record(fs)
}

/// Vertex with one blend: 48 bytes.
pub fn vertex_one_blend() -> (r: Shape)
    ensures
        vertex_one_blend_is()(r),
        shape_wf(r),
        blind(r),
{
    let mut fs = vertex_common();
    push_simple(&mut fs, field("unknown0", fixed(f32s(), 5)));
    record(fs)
}

/// Vertex without blending: 36 bytes.
pub fn vertex_no_blend() -> (r: Shape)
    ensures
        vertex_no_blend_is()(r),
        shape_wf(r),
        blind(r),
{
    let mut fs = vertex_common();
    push_simple(&mut fs, field("luv", vec2f()));
    record(fs)
}

/// Vertex with position and texture coordinates only: 24 bytes.
pub fn vertex_position_uv() -> (r: Shape)
    ensures
        vertex_position_uv_is()(r),
        shape_wf(r),
        blind(r),
{
    record(vec![field("position", vec3f()), field("unknown0", f32s()), field("uv", vec2f())])
}

/// Vertex buffer: its count and stride are written from the vertices held,
/// and the stride selects the layout they are read with.
pub fn vertex_buffer() -> (r: Shape)
    ensures
        vertex_buffer_is()(r),
        shape_wf(r),
        blind(r),
{
    let cases = vec![
        Case { tag: STRIDE_FOUR_BLEND, name: "vertex_layout_4_blend", shape: vertex_four_blend() },
        Case { tag: STRIDE_ONE_BLEND, name: "vertex_layout_1_blend", shape: vertex_one_blend() },
        Case { tag: STRIDE_NO_BLEND, name: "vertex_layout_no_blend", shape: vertex_no_blend() },
        Case { tag: STRIDE_POSITION_UV, name: "vertex_layout_position_uv", shape: vertex_position_uv() },
    ];
    proof {
        lemma_cases_each(cases@, 0);
    }
    let fs = vec![
        Field { name: "vertex_count", kind: FieldKind::LenOf(Prim::U32, 3) },
        Field { name: "vertex_size", kind: FieldKind::TagOf(Prim::U32, 3) },
        field("vertex_buffer_id", u32s()),
        Field { name: "vertices", kind: FieldKind::Switch(1, 0, cases) },
    ];
    proof {
        assert forall|j: int| 0 <= j < fs@.len() implies #[trigger] field_wf(fs@, j) by {}
        assert forall|j: int| 0 <= j < fs@.len() implies #[trigger] blind_kind(fs@[j].kind) by {}
        lemma_fields_wf_each(fs@, 0);
        lemma_blind_fields_each(fs@, 0);
    }
    record(fs)
}

/// Index buffer: its count is written from the indices held.
pub fn index_buffer() -> (r: Shape)
    ensures
        index_buffer_is()(r),
        shape_wf(r),
        blind(r),
{
    let fs = vec![
        Field { name: "index_count", kind: FieldKind::LenOf(Prim::U32, 2) },
        field("index_buffer_id", u32s()),
        Field { name: "indices", kind: FieldKind::Counted(0, None, i16s()) },
    ];
    proof {
        assert forall|j: int| 0 <= j < fs@.len() implies #[trigger] field_wf(fs@, j) by {}
        assert forall|j: int| 0 <= j < fs@.len() implies #[trigger] blind_kind(fs@[j].kind) by {}
        lemma_fields_wf_each(fs@, 0);
        lemma_blind_fields_each(fs@, 0);
    }
    record(fs)
}

fn vertex_group() -> (r: Shape)
    ensures
        vertex_group_is()(r),
        shape_wf(r),
        blind(r),
{
    record(
        vec![
            field("zeros", fixed(u32s(), 3)),
            field("maybe_primitive", u32s()),
            field("vertex_offset_in_buffer", u16s()),
            field("unknown0", u16s()),
            field("vertex_count", u32s()),
            field("index_buffer_offset", u32s()),
            field("face_count", u32s()),
            field("unknown1", u32s()),
            field("unknown2", u32s()),
            field("vertex_size", u16s()),
            field("cdcdcdcd", u16s()),
        ],
    )
}

/// Mesh body.
pub struct MeshZ;

impl MeshZ {
    pub fn shape() -> (r: Shape)
        ensures
            mesh_z_is()(r),
            shape_wf(r),
            blind(r),
    {
        record(
            vec![
                field("unknown0", u32s()),
                field("unknown1", u32s()),
                field("morpher", pascal(u32s())),
                field("unknown2s", fixed(u32s(), 4)),
                field("material_crc32s", pascal(u32s())),
                field("unknown3s", fixed(u8s(), 24)),
                field("sphere_col_count", u32s()),
                field("box_col_count", u32s()),
                field("cylinder_col_count", u32s()),
                field("aabb_col_rel_count", u32s()),
                field("aabb_col_count", u32s()),
                field("vertices", pascal(fixed(i16s(), 3))),
                field("unknown4", u32s()),
                field("vertex_buffers", pascal(vertex_buffer())),
                field("indices", pascal(index_buffer())),
                field("vertex_groups", pascal(vertex_group())),
                field("pad0", fixed(u32s(), 4)),
            ],
        )
    }
}

/// Mesh header; it lists the objects the mesh refers to.
pub struct MeshZHeader;

impl MeshZHeader {
    pub fn shape() -> (r: Shape)
        ensures
            mesh_z_header_is()(r),
            shape_wf(r),
            blind(r),
    {
        record(
            vec![
                field("friendly_name_crc32", u32s()),
                field("crc32s", pascal(u32s())),
                field("mesh_data_crc32", u32s()),
                field("rot", quat()),
                field("transform", mat4f()),
                field("radius", f32s()),
                field("flags", u32s()),
                field("mesh_type", u16s()),
            ],
        )
    }
}

} // verus!
