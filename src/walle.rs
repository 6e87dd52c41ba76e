//! Body and header schemas of the object classes whose layout is described
//! field by field.
use vstd::prelude::*;
use crate::layout::{material_z_kinds, when_is, one_of_is, u32_is, u16_is, blend_entry_is, box_col_bone_is, camera_z_is, collision_vol_z_is, fields_are, game_obj_z_is, light_data_z_is, material_common_kinds, material_obj_z_is, material_z_alt_is, material_z_is, mesh_data_z_is, node_z_alt_is, node_z_is, object_blend_is, omni_z_is, rot_shape_z_is, skel_bone_is, skel_z_is, skin_subsection_is, skin_z_header_is, skin_z_is, sound_z_header_is, sphere_col_bone_is, surface_datas_z_is, warp_z_is};
use crate::parts::{
    color, f32s, field, fixed, i16s, i32s, is_none_of, is_one_of, mat4f, pascal, quat, record, rect,
    sphere, u16s, u32s, u8s, vec2f, vec3f, vec3i32, vec4f, optional,
};
use crate::parts::{lemma_fields_wf_each, push_simple, simple_fields};
use crate::schema::{blind, field_wf, shape_wf, Cond, Prim, Shape};

verus! {

/// Camera body.
pub struct CameraZ;

impl CameraZ {
    pub fn shape() -> (r: Shape)
        ensures
            camera_z_is()(r),
            shape_wf(r),
            blind(r),
    {
        record(
            vec![field("angle_of_view", f32s()), field("zero", f32s()), field("node_crc32", u32s())],
        )
    }
}

/// Collision volume body.
pub struct CollisionVolZ;

impl CollisionVolZ {
    pub fn shape() -> (r: Shape)
        ensures
            collision_vol_z_is()(r),
            shape_wf(r),
            blind(r),
    {
        record(
            vec![
                field("unknown0", u32s()),
                field("local_transform", mat4f()),
                field("local_transform_inverse", mat4f()),
                field("zeros", fixed(u32s(), 28)),
                field("volume_type", u32s()),
                field("unknown1", u32s()),
            ],
        )
    }
}

/// Game object body: the nodes it groups.
pub struct GameObjZ;

impl GameObjZ {
    pub fn shape() -> (r: Shape)
        ensures
            game_obj_z_is()(r),
            shape_wf(r),
            blind(r),
    {
        record(vec![field("node_crc32s", pascal(u32s()))])
    }
}

/// Light data body.
pub struct LightDataZ;

impl LightDataZ {
    pub fn shape() -> (r: Shape)
        ensures
            light_data_z_is()(r),
            shape_wf(r),
            blind(r),
    {
        record(
            vec![
                field("unknown0", u32s()),
                field("color", vec3f()),
                field("unknown1", vec3f()),
                field("unknown2", vec3i32()),
                field("unknown_flag", u32s()),
                field("unknown3", vec3f()),
            ],
        )
    }
}

/// Fields every material revision starts with.
fn material_common() -> (r: Vec<crate::schema::Field>)
    ensures
        fields_are(r@, material_common_kinds()),
        simple_fields(r@),
{
    vec![
        field("color", vec4f()),
        field("emission", vec3f()),
        field("unknown0", u32s()),
        field("uv_transform_matrix", fixed(f32s(), 9)),
        field("unknown0s", fixed(f32s(), 8)),
        field("unknown1s", fixed(u32s(), 3)),
        field("diffuse_translation", fixed(f32s(), 2)),
        field("diffuse_scale", fixed(f32s(), 2)),
        field("diffuse_rotation", f32s()),
        field("flags", fixed(u32s(), 3)),
    ]
}

/// Position of `texture_flag` in a material body.
pub const MATERIAL_TEXTURE_FLAG: usize = 10;

/// Position of `diffuse_bitmap_crc32` in a material body.
pub const MATERIAL_DIFFUSE_BITMAP: usize = 11;

/// Position of `bitmap_crc32s` in an older material body.
pub const MATERIAL_BITMAPS: usize = 10;

/// Material body. The trailing fields depend on `texture_flag`.
pub struct MaterialZ;

impl MaterialZ {
    pub fn shape() -> (r: Shape)
        ensures
            material_z_is()(r),
            shape_wf(r),
            blind(r),
    {
        let mut fs = material_common();
        push_simple(&mut fs, field("texture_flag", u8s()));
        push_simple(&mut fs, field("diffuse_bitmap_crc32", u32s()));
        push_simple(
            &mut fs,
            optional("unknown2s", is_one_of(MATERIAL_TEXTURE_FLAG, vec![1]), fixed(u32s(), 7)),
        );
        push_simple(&mut fs, optional("unknown3", is_one_of(MATERIAL_TEXTURE_FLAG, vec![3]), u32s()));
        push_simple(
            &mut fs,
            optional("unknown4s", is_one_of(MATERIAL_TEXTURE_FLAG, vec![3]), fixed(u32s(), 6)),
        );
        push_simple(
            &mut fs,
            optional("unknown5s", is_none_of(MATERIAL_TEXTURE_FLAG, vec![1, 3]), fixed(u32s(), 3)),
        );
        proof {
            assert(fs@[12].kind->When_0.values@ == seq![1u32]);
            assert(fs@[13].kind->When_0.values@ == seq![3u32]);
            assert(fs@[14].kind->When_0.values@ == seq![3u32]);
            assert(fs@[15].kind->When_0.values@ == seq![1u32, 3]);
            assert(fields_are(fs@, material_z_kinds()));
        }
        record(fs)
    }
}

/// Material body of the older revisions: three bitmap links after the
/// common fields.
pub struct MaterialZAlt;

impl MaterialZAlt {
    pub fn shape() -> (r: Shape)
        ensures
            material_z_alt_is()(r),
            shape_wf(r),
            blind(r),
    {
        let mut fs = material_common();
        push_simple(&mut fs, field("bitmap_crc32s", fixed(u32s(), 3)));
        record(fs)
    }
}

/// Material object body: named lists of material animations.
pub struct MaterialObjZ;

impl MaterialObjZ {
    pub fn shape() -> (r: Shape)
        ensures
            material_obj_z_is()(r),
            shape_wf(r),
            blind(r),
    {
        let entry = record(
            vec![
                field("array_name_crc32", u32s()),
                field("material_anim_crc32s", pascal(u32s())),
            ],
        );
        record(vec![field("entries", pascal(entry))])
    }
}

/// Mesh data body.
pub struct MeshDataZ;

impl MeshDataZ {
    pub fn shape() -> (r: Shape)
        ensures
            mesh_data_z_is()(r),
            shape_wf(r),
            blind(r),
    {
        record(vec![field("unknown0", f32s()), field("color", color())])
    }
}

/// Omni light body.
pub struct OmniZ;

impl OmniZ {
    pub fn shape() -> (r: Shape)
        ensures
            omni_z_is()(r),
            shape_wf(r),
            blind(r),
    {
        record(vec![field("data", fixed(u32s(), 48)), field("crc32s", fixed(u32s(), 2))])
    }
}

/// Rotating shape body.
pub struct RotShapeZ;

impl RotShapeZ {
    pub fn shape() -> (r: Shape)
        ensures
            rot_shape_z_is()(r),
            shape_wf(r),
            blind(r),
    {
        record(
            vec![
                field("vertices", pascal(vec3f())),
                field("unknown1", f32s()),
                field("ints", pascal(u32s())),
                field("sizes", pascal(vec3f())),
                field("texcoords", pascal(vec2f())),
                field("material_crc32s", pascal(u32s())),
                field("scale", f32s()),
                field("billboard_mode", u16s()),
            ],
        )
    }
}

/// Surface data body.
pub struct SurfaceDatasZ;

impl SurfaceDatasZ {
    pub fn shape() -> (r: Shape)
        ensures
            surface_datas_z_is()(r),
            shape_wf(r),
            blind(r),
    {
        record(vec![field("one", u32s())])
    }
}

/// Warp body.
pub struct WarpZ;

impl WarpZ {
    pub fn shape() -> (r: Shape)
        ensures
            warp_z_is()(r),
            shape_wf(r),
            blind(r),
    {
        record(
            vec![
                field("material_crc32", u32s()),
                field("vertices", fixed(vec3f(), 8)),
                field("u24", f32s()),
                field("u25", f32s()),
                field("radius", f32s()),
                field("texcoords", fixed(vec2f(), 4)),
            ],
        )
    }
}

/// Scene node body. Its first nine fields are the hashes of related objects.
pub struct NodeZ;

impl NodeZ {
    pub fn shape() -> (r: Shape)
        ensures
            node_z_is()(r),
            shape_wf(r),
            blind(r),
    {
        record(
            vec![
                field("parent_crc32", u32s()),
                field("head_child_crc32", u32s()),
                field("prev_node_crc32", u32s()),
                field("next_node_crc32", u32s()),
                field("object_crc32", u32s()),
                field("user_define_crc32", u32s()),
                field("light_data_crc32", u32s()),
                field("bitmap_crc32", u32s()),
                field("unknown_crc32", u32s()),
                field("inverse_world_transform", mat4f()),
                field("unknown1", vec3f()),
                field("collide_seads_id0", u32s()),
                field("unknown2", vec3f()),
                field("placeholder_world_matrix_ptr", u32s()),
                field("unknown3", vec3f()),
                field("display_seads_id0", u32s()),
                field("unknown4", mat4f()),
                field("translation", vec3f()),
                field("flags", u32s()),
                field("rotation", quat()),
                field("scale", f32s()),
                field("other_scale", f32s()),
                field("one_over_scale", f32s()),
                field("unknown5", f32s()),
                field("color", color()),
                field("sphere", sphere()),
                field("display_seads_rect", rect()),
                field("collide_seads_rect", rect()),
                field("world_transform", mat4f()),
                field("collide_seads_id1", u32s()),
                field("display_seads_id1", u32s()),
                field("unknown6", i16s()),
                field("unknown7", u32s()),
                field("unknown8", u32s()),
            ],
        )
    }
}

/// Scene node body of the older revisions.
pub struct NodeZAlt;

impl NodeZAlt {
    pub fn shape() -> (r: Shape)
        ensures
            node_z_alt_is()(r),
            shape_wf(r),
            blind(r),
    {
        record(
            vec![
                field("parent_crc32", u32s()),
                field("some_node_crc320", u32s()),
                field("some_node_crc321", u32s()),
                field("some_node_crc322", u32s()),
                field("some_crc320", u32s()),
                field("some_crc321", u32s()),
                field("some_crc322", u32s()),
                field("some_crc323", u32s()),
                field("some_crc324", u32s()),
                field("mat0", mat4f()),
                field("unknown0s", fixed(u8s(), 208)),
                field("mat1", mat4f()),
                field("unknown2", u32s()),
                field("unknown3", u32s()),
                field("unknown4", u16s()),
                field("unknown5", u32s()),
                field("unknown6", u32s()),
            ],
        )
    }
}

fn skel_bone() -> (r: Shape)
    ensures
        skel_bone_is()(r),
        shape_wf(r),
        blind(r),
{
    record(
        vec![
            field("user_define_crc32", u32s()),
            field("local_rotation", quat()),
            field("scale", vec3f()),
            field("bone_flags", u32s()),
            field("local_translation", vec3f()),
            field("placeholder_child_ptr", u32s()),
            field("model_rot_matrix_row1", vec3f()),
            field("model_matrix_id", i16s()),
            field("inverse_model_matrix_id", i16s()),
            field("model_rot_matrix_row2", vec3f()),
            field("placeholder_model_matrix_ptr", u32s()),
            field("model_rot_matrix_row3", vec3f()),
            field("placeholder_inverse_model_matrix_ptr", u32s()),
            field("local_rotation_inverse", quat()),
            field("unknown_ptr0s", fixed(u32s(), 3)),
            field("placeholder_parent_ptr", u32s()),
            field("unknown_ptr1s", fixed(u32s(), 3)),
            field("placeholder_prev_sibling_ptr", u32s()),
            field("unknown_ptr2s", fixed(u32s(), 3)),
            field("placeholder_next_sibling_ptr", u32s()),
            field("original_model_transform", mat4f()),
            field("child_index", i32s()),
            field("parent_index", i32s()),
            field("next_sibling_index", i32s()),
            field("prev_sibling_index", i32s()),
            field("bone_name", u32s()),
        ],
    )
}

fn sphere_col_bone() -> (r: Shape)
    ensures
        sphere_col_bone_is()(r),
        shape_wf(r),
        blind(r),
{
    record(
        vec![
            field("sphere", sphere()),
            field("flag", u32s()),
            field("name_crc32", u32s()),
            field("bone_node_crc32", u32s()),
        ],
    )
}

fn box_col_bone() -> (r: Shape)
    ensures
        box_col_bone_is()(r),
        shape_wf(r),
        blind(r),
{
    record(
        vec![
            field("mat", mat4f()),
            field("flag", u32s()),
            field("name_crc32", u32s()),
            field("bone_node_crc32", u32s()),
        ],
    )
}

/// Skeleton body.
pub struct SkelZ;

impl SkelZ {
    pub fn shape() -> (r: Shape)
        ensures
            skel_z_is()(r),
            shape_wf(r),
            blind(r),
    {
        record(
            vec![
                field("flag", u32s()),
                field("sphere_local", sphere()),
                field("bones", pascal(skel_bone())),
                field("material_crc32s", pascal(u32s())),
                field("mesh_data_crc32s", pascal(u32s())),
                field("bone_node_groups", pascal(pascal(u32s()))),
                field("unknown0s", pascal(u32s())),
                field("sphere_col_bones1", pascal(sphere_col_bone())),
                field("sphere_col_bones2", pascal(sphere_col_bone())),
                field("box_col_bones", pascal(box_col_bone())),
            ],
        )
    }
}

fn blend_entry() -> (r: Shape)
    ensures
        blend_entry_is()(r),
        shape_wf(r),
        blind(r),
{
    record(vec![field("unknown0", u32s()), field("unknown1", f32s())])
}

fn object_blend() -> (r: Shape)
    ensures
        object_blend_is()(r),
        shape_wf(r),
        blind(r),
{
    record(
        vec![
            field("unknown0", u16s()),
            field("unknown1s", pascal(blend_entry())),
            field("unknown2s", pascal(blend_entry())),
        ],
    )
}

fn skin_subsection() -> (r: Shape)
    ensures
        skin_subsection_is()(r),
        shape_wf(r),
        blind(r),
{
    record(
        vec![
            field("material_link_crc32", u32s()),
            field("bone_names_crc32", fixed(u32s(), 7)),
            field(
                "placeholder_morph_packet_da",
                record(vec![field("size_capacity", u32s()), field("ptr", u32s())]),
            ),
            field("morph_packets", pascal(fixed(u32s(), 2))),
        ],
    )
}

/// Skin body.
pub struct SkinZ;

impl SkinZ {
    pub fn shape() -> (r: Shape)
        ensures
            skin_z_is()(r),
            shape_wf(r),
            blind(r),
    {
        let bone = record(
            vec![field("bone_name_crc32", u32s()), field("unknown0s", pascal(object_blend()))],
        );
        record(
            vec![
                field("mesh_crc32s", pascal(u32s())),
                field("unknown0s", pascal(fixed(u8s(), 8))),
                field("bones", pascal(bone)),
                field("is_class_id", u8s()),
                field("matrix_cache_check", u32s()),
                field("skin_sections", pascal(pascal(skin_subsection()))),
            ],
        )
    }
}

/// Skin header; it names the skeleton the skin is bound to.
pub struct SkinZHeader;

impl SkinZHeader {
    pub fn shape() -> (r: Shape)
        ensures
            skin_z_header_is()(r),
            shape_wf(r),
            blind(r),
    {
        record(
            vec![
                field("friendly_name_crc32", u32s()),
                field("crc32s", pascal(u8s())),
                field("skel_crc32", u32s()),
                field("sphere_local", sphere()),
                field("unknown0", mat4f()),
                field("fade_out_distance", f32s()),
                field("flags", u32s()),
                field("skin_type", u16s()),
            ],
        )
    }
}

/// Sound header. Only a non-zero sample rate is followed by the size and
/// kind of the samples, and a trailing zero stands only where exactly two
/// bytes remain.
pub struct SoundZHeader;

impl SoundZHeader {
    pub fn shape() -> (r: Shape)
        ensures
            sound_z_header_is()(r),
            shape_wf(r),
    {
        let fs = vec![
            field("friendly_name_crc32", u32s()),
            field("sample_rate", u32s()),
            optional("data_size", is_none_of(1, vec![0]), u32s()),
            optional("sound_type", is_none_of(1, vec![0]), Shape::OneOf(Prim::U16, vec![1, 3, 5, 7])),
            optional("zero", Cond { sibling: 1, values: vec![0], member: false, left: Some(2) }, u16s()),
        ];
        proof {
            assert forall|j: int| 0 <= j < fs@.len() implies #[trigger] field_wf(fs@, j) by {
                assert(shape_wf(fs@[j].kind->When_1) || j < 2);
            }
            lemma_fields_wf_each(fs@, 0);
            assert(fs@[2].kind->When_0.values@ == seq![0u32]);
            assert((when_is(1, seq![0], false, None, u32_is()))(fs@[2].kind));
            assert(fs@[3].kind->When_1->OneOf_1@ == seq![1u32, 3, 5, 7]);
            assert((when_is(1, seq![0], false, None, one_of_is(Prim::U16, seq![1, 3, 5, 7])))(fs@[3].kind));
            assert((when_is(1, seq![0], false, Some(2), u16_is()))(fs@[4].kind));
        }
        record(fs)
    }
}

} // verus!
