//! Descriptions of schemas as predicates, so that contracts can say exactly
//! which layout a schema constructor builds.
use vstd::prelude::*;
use crate::schema::{Field, FieldKind, Prim, Shape};

verus! {

/// A description of a shape.
pub type ShapeIs = spec_fn(Shape) -> bool;

/// A description of a field's layout.
pub type KindIs = spec_fn(FieldKind) -> bool;

pub open spec fn prim_is(p: Prim) -> ShapeIs {
    |s: Shape| s == Shape::Prim(p)
}

pub open spec fn one_of_is(p: Prim, values: Seq<u32>) -> ShapeIs {
    |s: Shape| s matches Shape::OneOf(q, vs) && q == p && vs@ == values
}

pub open spec fn array_is(e: ShapeIs, n: usize) -> ShapeIs {
    |s: Shape| s matches Shape::Array(x, m) && m == n && e(*x)
}

pub open spec fn pascal_is(e: ShapeIs) -> ShapeIs {
    |s: Shape| s matches Shape::Pascal(x) && e(*x)
}

/// Fields that, in order, are as `ks` describes.
pub open spec fn fields_are(fs: Seq<Field>, ks: Seq<KindIs>) -> bool {
    fs.len() == ks.len() && forall|i: int| 0 <= i < ks.len() ==> #[trigger] (ks[i])(fs[i].kind)
}

/// A record whose fields, in order, are as `ks` describes.
pub open spec fn record_is(ks: Seq<KindIs>) -> ShapeIs {
    |s: Shape| s matches Shape::Record(fs) && fields_are(fs@, ks)
}

pub open spec fn plain_is(e: ShapeIs) -> KindIs {
    |k: FieldKind| k matches FieldKind::Plain(s) && e(s)
}

pub open spec fn len_of_is(p: Prim, t: usize) -> KindIs {
    |k: FieldKind| k == FieldKind::LenOf(p, t)
}

pub open spec fn tag_of_is(p: Prim, t: usize) -> KindIs {
    |k: FieldKind| k == FieldKind::TagOf(p, t)
}

/// An optional field tested on sibling `sibling` against `values`.
pub open spec fn when_is(
    sibling: usize,
    values: Seq<u32>,
    member: bool,
    left: Option<usize>,
    e: ShapeIs,
) -> KindIs {
    |k: FieldKind|
        k matches FieldKind::When(c, s) && c.sibling == sibling && c.values@ == values && c.member
            == member && c.left == left && e(s)
}

pub open spec fn counted_is(a: usize, o: Option<usize>, e: ShapeIs) -> KindIs {
    |k: FieldKind| k matches FieldKind::Counted(a2, o2, s) && a2 == a && o2 == o && e(s)
}

/// A tagged variant whose case `i` has tag `tags[i]` and shape `shapes[i]`.
pub open spec fn switch_is(t: usize, c: usize, tags: Seq<u32>, shapes: Seq<ShapeIs>) -> KindIs {
    |k: FieldKind|
        k matches FieldKind::Switch(t2, c2, cases) && t2 == t && c2 == c && cases@.len()
            == tags.len() && tags.len() == shapes.len() && (forall|i: int|
            0 <= i < tags.len() ==> #[trigger] cases@[i].tag == tags[i]) && (forall|i: int|
            0 <= i < tags.len() ==> #[trigger] (shapes[i])(cases@[i].shape))
}

pub open spec fn u8_is() -> ShapeIs {
    prim_is(Prim::U8)
}

pub open spec fn u16_is() -> ShapeIs {
    prim_is(Prim::U16)
}

pub open spec fn i16_is() -> ShapeIs {
    prim_is(Prim::I16)
}

pub open spec fn u32_is() -> ShapeIs {
    prim_is(Prim::U32)
}

pub open spec fn i32_is() -> ShapeIs {
    prim_is(Prim::I32)
}

pub open spec fn f32_is() -> ShapeIs {
    prim_is(Prim::F32)
}

pub open spec fn sphere_is() -> ShapeIs {
    record_is(seq![plain_is(array_is(f32_is(), 3)), plain_is(f32_is())])
}

pub open spec fn rect_is() -> ShapeIs {
    record_is(seq![plain_is(i32_is()), plain_is(i32_is()), plain_is(i32_is()), plain_is(i32_is())])
}

pub open spec fn vec2f_is() -> ShapeIs {
    array_is(f32_is(), 2)
}

pub open spec fn vec3f_is() -> ShapeIs {
    array_is(f32_is(), 3)
}

pub open spec fn vec4f_is() -> ShapeIs {
    array_is(f32_is(), 4)
}

pub open spec fn vec3i32_is() -> ShapeIs {
    array_is(i32_is(), 3)
}

pub open spec fn quat_is() -> ShapeIs {
    array_is(f32_is(), 4)
}

pub open spec fn mat4f_is() -> ShapeIs {
    array_is(f32_is(), 16)
}

pub open spec fn color_is() -> ShapeIs {
    u32_is()
}

/// The layout that `object_header` builds.
pub open spec fn object_header_is() -> ShapeIs {
    record_is(seq![
        plain_is(u32_is()),
        plain_is(pascal_is(u32_is())),
        plain_is(u32_is()),
        plain_is(quat_is()),
        plain_is(mat4f_is()),
        plain_is(f32_is()),
        plain_is(u32_is()),
        plain_is(u16_is()),
    ])
}

/// The layout that `resource_header` builds.
pub open spec fn resource_header_is() -> ShapeIs {
    record_is(seq![plain_is(u32_is()), plain_is(pascal_is(u32_is()))])
}

/// The fields that `material_common` builds.
pub open spec fn material_common_kinds() -> Seq<KindIs> {
    seq![
        plain_is(vec4f_is()),
        plain_is(vec3f_is()),
        plain_is(u32_is()),
        plain_is(array_is(f32_is(), 9)),
        plain_is(array_is(f32_is(), 8)),
        plain_is(array_is(u32_is(), 3)),
        plain_is(array_is(f32_is(), 2)),
        plain_is(array_is(f32_is(), 2)),
        plain_is(f32_is()),
        plain_is(array_is(u32_is(), 3)),
    ]
}

/// The layout that `skel_bone` builds.
pub open spec fn skel_bone_is() -> ShapeIs {
    record_is(seq![
        plain_is(u32_is()),
        plain_is(quat_is()),
        plain_is(vec3f_is()),
        plain_is(u32_is()),
        plain_is(vec3f_is()),
        plain_is(u32_is()),
        plain_is(vec3f_is()),
        plain_is(i16_is()),
        plain_is(i16_is()),
        plain_is(vec3f_is()),
        plain_is(u32_is()),
        plain_is(vec3f_is()),
        plain_is(u32_is()),
        plain_is(quat_is()),
        plain_is(array_is(u32_is(), 3)),
        plain_is(u32_is()),
        plain_is(array_is(u32_is(), 3)),
        plain_is(u32_is()),
        plain_is(array_is(u32_is(), 3)),
        plain_is(u32_is()),
        plain_is(mat4f_is()),
        plain_is(i32_is()),
        plain_is(i32_is()),
        plain_is(i32_is()),
        plain_is(i32_is()),
        plain_is(u32_is()),
    ])
}

/// The layout that `sphere_col_bone` builds.
pub open spec fn sphere_col_bone_is() -> ShapeIs {
    record_is(seq![
        plain_is(sphere_is()),
        plain_is(u32_is()),
        plain_is(u32_is()),
        plain_is(u32_is()),
    ])
}

/// The layout that `box_col_bone` builds.
pub open spec fn box_col_bone_is() -> ShapeIs {
    record_is(seq![
        plain_is(mat4f_is()),
        plain_is(u32_is()),
        plain_is(u32_is()),
        plain_is(u32_is()),
    ])
}

/// The layout that `blend_entry` builds.
pub open spec fn blend_entry_is() -> ShapeIs {
    record_is(seq![plain_is(u32_is()), plain_is(f32_is())])
}

/// The layout that `object_blend` builds.
pub open spec fn object_blend_is() -> ShapeIs {
    record_is(seq![
        plain_is(u16_is()),
        plain_is(pascal_is(blend_entry_is())),
        plain_is(pascal_is(blend_entry_is())),
    ])
}

/// The layout that `skin_subsection` builds.
pub open spec fn skin_subsection_is() -> ShapeIs {
    record_is(seq![
        plain_is(u32_is()),
        plain_is(array_is(u32_is(), 7)),
        plain_is(record_is(seq![plain_is(u32_is()), plain_is(u32_is())])),
        plain_is(pascal_is(array_is(u32_is(), 2))),
    ])
}

/// The layout that `CameraZ::shape` builds.
pub open spec fn camera_z_is() -> ShapeIs {
    record_is(seq![plain_is(f32_is()), plain_is(f32_is()), plain_is(u32_is())])
}

/// The layout that `CollisionVolZ::shape` builds.
pub open spec fn collision_vol_z_is() -> ShapeIs {
    record_is(seq![
        plain_is(u32_is()),
        plain_is(mat4f_is()),
        plain_is(mat4f_is()),
        plain_is(array_is(u32_is(), 28)),
        plain_is(u32_is()),
        plain_is(u32_is()),
    ])
}

/// The layout that `GameObjZ::shape` builds.
pub open spec fn game_obj_z_is() -> ShapeIs {
    record_is(seq![plain_is(pascal_is(u32_is()))])
}

/// The layout that `LightDataZ::shape` builds.
pub open spec fn light_data_z_is() -> ShapeIs {
    record_is(seq![
        plain_is(u32_is()),
        plain_is(vec3f_is()),
        plain_is(vec3f_is()),
        plain_is(vec3i32_is()),
        plain_is(u32_is()),
        plain_is(vec3f_is()),
    ])
}

/// The fields that `MaterialZ::shape` builds.
pub open spec fn material_z_kinds() -> Seq<KindIs> {
    material_common_kinds() + seq![
        plain_is(u8_is()),
        plain_is(u32_is()),
        when_is(10, seq![1], true, None, array_is(u32_is(), 7)),
        when_is(10, seq![3], true, None, u32_is()),
        when_is(10, seq![3], true, None, array_is(u32_is(), 6)),
        when_is(10, seq![1, 3], false, None, array_is(u32_is(), 3)),
    ]
}

/// The layout that `MaterialZ::shape` builds.
pub open spec fn material_z_is() -> ShapeIs {
    record_is(material_z_kinds())
}

/// The layout that `MaterialZAlt::shape` builds.
pub open spec fn material_z_alt_is() -> ShapeIs {
    record_is(material_common_kinds() + seq![plain_is(array_is(u32_is(), 3))])
}

/// The layout that `MaterialObjZ::shape` builds.
pub open spec fn material_obj_z_is() -> ShapeIs {
    record_is(seq![
        plain_is(pascal_is(record_is(seq![plain_is(u32_is()), plain_is(pascal_is(u32_is()))]))),
    ])
}

/// The layout that `MeshDataZ::shape` builds.
pub open spec fn mesh_data_z_is() -> ShapeIs {
    record_is(seq![plain_is(f32_is()), plain_is(color_is())])
}

/// The layout that `OmniZ::shape` builds.
pub open spec fn omni_z_is() -> ShapeIs {
    record_is(seq![plain_is(array_is(u32_is(), 48)), plain_is(array_is(u32_is(), 2))])
}

/// The layout that `RotShapeZ::shape` builds.
pub open spec fn rot_shape_z_is() -> ShapeIs {
    record_is(seq![
        plain_is(pascal_is(vec3f_is())),
        plain_is(f32_is()),
        plain_is(pascal_is(u32_is())),
        plain_is(pascal_is(vec3f_is())),
        plain_is(pascal_is(vec2f_is())),
        plain_is(pascal_is(u32_is())),
        plain_is(f32_is()),
        plain_is(u16_is()),
    ])
}

/// The layout that `SurfaceDatasZ::shape` builds.
pub open spec fn surface_datas_z_is() -> ShapeIs {
    record_is(seq![plain_is(u32_is())])
}

/// The layout that `WarpZ::shape` builds.
pub open spec fn warp_z_is() -> ShapeIs {
    record_is(seq![
        plain_is(u32_is()),
        plain_is(array_is(vec3f_is(), 8)),
        plain_is(f32_is()),
        plain_is(f32_is()),
        plain_is(f32_is()),
        plain_is(array_is(vec2f_is(), 4)),
    ])
}

/// The layout that `NodeZ::shape` builds.
pub open spec fn node_z_is() -> ShapeIs {
    record_is(seq![
        plain_is(u32_is()),
        plain_is(u32_is()),
        plain_is(u32_is()),
        plain_is(u32_is()),
        plain_is(u32_is()),
        plain_is(u32_is()),
        plain_is(u32_is()),
        plain_is(u32_is()),
        plain_is(u32_is()),
        plain_is(mat4f_is()),
        plain_is(vec3f_is()),
        plain_is(u32_is()),
        plain_is(vec3f_is()),
        plain_is(u32_is()),
        plain_is(vec3f_is()),
        plain_is(u32_is()),
        plain_is(mat4f_is()),
        plain_is(vec3f_is()),
        plain_is(u32_is()),
        plain_is(quat_is()),
        plain_is(f32_is()),
        plain_is(f32_is()),
        plain_is(f32_is()),
        plain_is(f32_is()),
        plain_is(color_is()),
        plain_is(sphere_is()),
        plain_is(rect_is()),
        plain_is(rect_is()),
        plain_is(mat4f_is()),
        plain_is(u32_is()),
        plain_is(u32_is()),
        plain_is(i16_is()),
        plain_is(u32_is()),
        plain_is(u32_is()),
    ])
}

/// The layout that `NodeZAlt::shape` builds.
pub open spec fn node_z_alt_is() -> ShapeIs {
    record_is(seq![
        plain_is(u32_is()),
        plain_is(u32_is()),
        plain_is(u32_is()),
        plain_is(u32_is()),
        plain_is(u32_is()),
        plain_is(u32_is()),
        plain_is(u32_is()),
        plain_is(u32_is()),
        plain_is(u32_is()),
        plain_is(mat4f_is()),
        plain_is(array_is(u8_is(), 208)),
        plain_is(mat4f_is()),
        plain_is(u32_is()),
        plain_is(u32_is()),
        plain_is(u16_is()),
        plain_is(u32_is()),
        plain_is(u32_is()),
    ])
}

/// The layout that `SkelZ::shape` builds.
pub open spec fn skel_z_is() -> ShapeIs {
    record_is(seq![
        plain_is(u32_is()),
        plain_is(sphere_is()),
        plain_is(pascal_is(skel_bone_is())),
        plain_is(pascal_is(u32_is())),
        plain_is(pascal_is(u32_is())),
        plain_is(pascal_is(pascal_is(u32_is()))),
        plain_is(pascal_is(u32_is())),
        plain_is(pascal_is(sphere_col_bone_is())),
        plain_is(pascal_is(sphere_col_bone_is())),
        plain_is(pascal_is(box_col_bone_is())),
    ])
}

/// The layout that `SkinZ::shape` builds.
pub open spec fn skin_z_is() -> ShapeIs {
    record_is(seq![
        plain_is(pascal_is(u32_is())),
        plain_is(pascal_is(array_is(u8_is(), 8))),
        plain_is(pascal_is(record_is(seq![
            plain_is(u32_is()),
            plain_is(pascal_is(object_blend_is())),
        ]))),
        plain_is(u8_is()),
        plain_is(u32_is()),
        plain_is(pascal_is(pascal_is(skin_subsection_is()))),
    ])
}

/// The layout that `SkinZHeader::shape` builds.
pub open spec fn skin_z_header_is() -> ShapeIs {
    record_is(seq![
        plain_is(u32_is()),
        plain_is(pascal_is(u8_is())),
        plain_is(u32_is()),
        plain_is(sphere_is()),
        plain_is(mat4f_is()),
        plain_is(f32_is()),
        plain_is(u32_is()),
        plain_is(u16_is()),
    ])
}

/// The fields that `SoundZHeader::shape` builds.
pub open spec fn sound_z_header_kinds() -> Seq<KindIs> {
    seq![
        plain_is(u32_is()),
        plain_is(u32_is()),
        when_is(1, seq![0], false, None, u32_is()),
        when_is(1, seq![0], false, None, one_of_is(Prim::U16, seq![1, 3, 5, 7])),
        when_is(1, seq![0], false, Some(2), u16_is()),
    ]
}

/// The layout that `SoundZHeader::shape` builds.
pub open spec fn sound_z_header_is() -> ShapeIs {
    record_is(sound_z_header_kinds())
}

/// The fields that `vertex_common` builds.
pub open spec fn vertex_common_kinds() -> Seq<KindIs> {
    seq![
        plain_is(vec3f_is()),
        plain_is(array_is(u8_is(), 3)),
        plain_is(u8_is()),
        plain_is(array_is(u8_is(), 3)),
        plain_is(u8_is()),
        plain_is(vec2f_is()),
    ]
}

/// The layout that `vertex_four_blend` builds.
pub open spec fn vertex_four_blend_is() -> ShapeIs {
    record_is(vertex_common_kinds() + seq![
        plain_is(array_is(record_is(seq![plain_is(f32_is())]), 4)),
        plain_is(array_is(f32_is(), 4)),
    ])
}

/// The layout that `vertex_one_blend` builds.
pub open spec fn vertex_one_blend_is() -> ShapeIs {
    record_is(vertex_common_kinds() + seq![plain_is(array_is(f32_is(), 5))])
}

/// The layout that `vertex_no_blend` builds.
pub open spec fn vertex_no_blend_is() -> ShapeIs {
    record_is(vertex_common_kinds() + seq![plain_is(vec2f_is())])
}

/// The layout that `vertex_position_uv` builds.
pub open spec fn vertex_position_uv_is() -> ShapeIs {
    record_is(seq![plain_is(vec3f_is()), plain_is(f32_is()), plain_is(vec2f_is())])
}

/// The fields that `vertex_buffer` builds.
pub open spec fn vertex_buffer_kinds() -> Seq<KindIs> {
    seq![
        len_of_is(Prim::U32, 3),
        tag_of_is(Prim::U32, 3),
        plain_is(u32_is()),
        switch_is(1, 0, seq![
            60,
            48,
            36,
            24,
        ], seq![
            vertex_four_blend_is(),
            vertex_one_blend_is(),
            vertex_no_blend_is(),
            vertex_position_uv_is(),
        ]),
    ]
}

/// The layout that `vertex_buffer` builds.
pub open spec fn vertex_buffer_is() -> ShapeIs {
    record_is(vertex_buffer_kinds())
}

/// The layout that `index_buffer` builds.
pub open spec fn index_buffer_is() -> ShapeIs {
    record_is(seq![len_of_is(Prim::U32, 2), plain_is(u32_is()), counted_is(0, None, i16_is())])
}

/// The layout that `vertex_group` builds.
pub open spec fn vertex_group_is() -> ShapeIs {
    record_is(seq![
        plain_is(array_is(u32_is(), 3)),
        plain_is(u32_is()),
        plain_is(u16_is()),
        plain_is(u16_is()),
        plain_is(u32_is()),
        plain_is(u32_is()),
        plain_is(u32_is()),
        plain_is(u32_is()),
        plain_is(u32_is()),
        plain_is(u16_is()),
        plain_is(u16_is()),
    ])
}

/// The layout that `MeshZ::shape` builds.
pub open spec fn mesh_z_is() -> ShapeIs {
    record_is(seq![
        plain_is(u32_is()),
        plain_is(u32_is()),
        plain_is(pascal_is(u32_is())),
        plain_is(array_is(u32_is(), 4)),
        plain_is(pascal_is(u32_is())),
        plain_is(array_is(u8_is(), 24)),
        plain_is(u32_is()),
        plain_is(u32_is()),
        plain_is(u32_is()),
        plain_is(u32_is()),
        plain_is(u32_is()),
        plain_is(pascal_is(array_is(i16_is(), 3))),
        plain_is(u32_is()),
        plain_is(pascal_is(vertex_buffer_is())),
        plain_is(pascal_is(index_buffer_is())),
        plain_is(pascal_is(vertex_group_is())),
        plain_is(array_is(u32_is(), 4)),
    ])
}

/// The layout that `MeshZHeader::shape` builds.
pub open spec fn mesh_z_header_is() -> ShapeIs {
    record_is(seq![
        plain_is(u32_is()),
        plain_is(pascal_is(u32_is())),
        plain_is(u32_is()),
        plain_is(quat_is()),
        plain_is(mat4f_is()),
        plain_is(f32_is()),
        plain_is(u32_is()),
        plain_is(u16_is()),
    ])
}

/// The layout that `sub_mesh` builds.
pub open spec fn sub_mesh_is() -> ShapeIs {
    record_is(seq![
        plain_is(u32_is()),
        plain_is(u32_is()),
        plain_is(u32_is()),
        counted_is(0, Some(1), u8_is()),
    ])
}

/// The layout that `mesh_indices` builds.
pub open spec fn mesh_indices_is() -> ShapeIs {
    record_is(seq![plain_is(u32_is()), plain_is(u32_is()), counted_is(0, None, u16_is())])
}

/// The layout that `pair_list` builds.
pub open spec fn pair_list_is() -> ShapeIs {
    record_is(seq![plain_is(pascal_is(record_is(seq![plain_is(u32_is()), plain_is(u32_is())])))])
}

/// The layout that `unknown13` builds.
pub open spec fn unknown13_is() -> ShapeIs {
    record_is(seq![
        plain_is(array_is(u32_is(), 12)),
        plain_is(pascal_is(record_is(seq![
            plain_is(u32_is()),
            plain_is(u32_is()),
            plain_is(u32_is()),
            plain_is(u32_is()),
            plain_is(u32_is()),
            plain_is(u32_is()),
            plain_is(u32_is()),
        ]))),
    ])
}

/// The layout that `unknown14` builds.
pub open spec fn unknown14_is() -> ShapeIs {
    record_is(seq![
        plain_is(pascal_is(u8_is())),
        plain_is(u32_is()),
        plain_is(u16_is()),
        plain_is(pascal_is(u16_is())),
        plain_is(pascal_is(record_is(seq![
            plain_is(u32_is()),
            plain_is(u32_is()),
            plain_is(u32_is()),
            plain_is(u32_is()),
        ]))),
    ])
}

/// The layout that `FuelMeshZ::shape` builds.
pub open spec fn fuel_mesh_z_is() -> ShapeIs {
    record_is(seq![
        plain_is(pascal_is(vec3f_is())),
        plain_is(pascal_is(record_is(seq![
            plain_is(u32_is()),
            plain_is(u32_is()),
            plain_is(u32_is()),
            plain_is(u32_is()),
        ]))),
        plain_is(pascal_is(record_is(seq![plain_is(u32_is()), plain_is(u32_is())]))),
        plain_is(pascal_is(vec3f_is())),
        plain_is(pascal_is(record_is(seq![
            plain_is(pascal_is(u16_is())),
            plain_is(u32_is()),
            plain_is(u32_is()),
        ]))),
        plain_is(pascal_is(pair_list_is())),
        plain_is(pascal_is(u32_is())),
        plain_is(pascal_is(record_is(seq![
            plain_is(u32_is()),
            plain_is(u32_is()),
            plain_is(u32_is()),
            plain_is(u32_is()),
            plain_is(u32_is()),
            plain_is(u32_is()),
            plain_is(u32_is()),
            plain_is(u32_is()),
            plain_is(u32_is()),
            plain_is(u32_is()),
        ]))),
        plain_is(pascal_is(record_is(seq![
            plain_is(u32_is()),
            plain_is(u32_is()),
            plain_is(u32_is()),
            plain_is(u32_is()),
        ]))),
        plain_is(pascal_is(record_is(seq![
            plain_is(u32_is()),
            plain_is(u32_is()),
            plain_is(u32_is()),
            plain_is(u32_is()),
            plain_is(u32_is()),
            plain_is(u32_is()),
            plain_is(u32_is()),
            plain_is(u32_is()),
            plain_is(u32_is()),
            plain_is(u32_is()),
        ]))),
        plain_is(pascal_is(sub_mesh_is())),
        plain_is(pascal_is(mesh_indices_is())),
        plain_is(pascal_is(record_is(seq![
            plain_is(u32_is()),
            plain_is(u32_is()),
            plain_is(u32_is()),
            plain_is(u32_is()),
            plain_is(u32_is()),
            plain_is(u32_is()),
            plain_is(u32_is()),
            plain_is(u32_is()),
            plain_is(u32_is()),
            plain_is(u32_is()),
            plain_is(u32_is()),
            plain_is(u32_is()),
            plain_is(u32_is()),
            plain_is(u32_is()),
            plain_is(u32_is()),
        ]))),
        plain_is(pascal_is(unknown13_is())),
        plain_is(pascal_is(record_is(seq![
            plain_is(u32_is()),
            plain_is(u32_is()),
            plain_is(u32_is()),
            plain_is(u32_is()),
            plain_is(u32_is()),
            plain_is(u32_is()),
            plain_is(u32_is()),
            plain_is(u32_is()),
        ]))),
        plain_is(pascal_is(record_is(seq![plain_is(u16_is()), plain_is(u16_is())]))),
        plain_is(pascal_is(u16_is())),
        plain_is(pascal_is(unknown14_is())),
        plain_is(pascal_is(record_is(seq![plain_is(u16_is()), plain_is(u32_is())]))),
    ])
}

/// The layout that `FuelNodeZ::shape` builds.
pub open spec fn fuel_node_z_is() -> ShapeIs {
    record_is(seq![
        plain_is(u32_is()),
        plain_is(u32_is()),
        plain_is(u32_is()),
        plain_is(u32_is()),
        plain_is(u32_is()),
        plain_is(u32_is()),
        plain_is(u32_is()),
        plain_is(u32_is()),
        plain_is(u32_is()),
        plain_is(f32_is()),
        plain_is(array_is(u8_is(), 32)),
        plain_is(mat4f_is()),
        plain_is(array_is(u16_is(), 17)),
        plain_is(mat4f_is()),
    ])
}

} // verus!
