//! Schemas of the earlier engine revision's meshes and nodes.
use vstd::prelude::*;
use crate::layout::{fuel_mesh_z_is, fuel_node_z_is, mesh_indices_is, pair_list_is, sub_mesh_is, unknown13_is, unknown14_is};
use crate::parts::{f32s, field, fixed, mat4f, pascal, record, u16s, u32s, u8s, vec3f};
use crate::parts::{push_simple, simple_fields};
use crate::schema::{blind, shape_wf, Field, FieldKind, Prim, Shape};

/// The earlier revision lays collision volumes out the same way.
pub use crate::walle::CollisionVolZ;

verus! {

/// One four-byte field for each name.
fn words(names: Vec<&'static str>) -> (r: Vec<Field>)
    ensures
        simple_fields(r@),
        r@.len() == names@.len(),
        forall|i: int| 0 <= i < r@.len() ==> #[trigger] r@[i].kind == FieldKind::Plain(Shape::Prim(Prim::U32)),
{
    let mut fs: Vec<Field> = Vec::new();
    let mut i: usize = 0;
    while i < names.len()
        invariant
            simple_fields(fs@),
            i <= names@.len(),
            fs@.len() == i,
            forall|k: int| 0 <= k < fs@.len() ==> #[trigger] fs@[k].kind == FieldKind::Plain(Shape::Prim(Prim::U32)),
        decreases names.len() - i,
    {
        push_simple(&mut fs, field(names[i], u32s()));
        i += 1;
    }
    fs
}

fn sub_mesh() -> (r: Shape)
    ensures
        sub_mesh_is()(r),
        shape_wf(r),
        blind(r),
{
    record(
        vec![
            field("vertex_count", u32s()),
            field("vertex_size", u32s()),
            field("vertex_group_crc32", u32s()),
            Field { name: "data", kind: FieldKind::Counted(0, Some(1), u8s()) },
        ],
    )
}

fn mesh_indices() -> (r: Shape)
    ensures
        mesh_indices_is()(r),
        shape_wf(r),
        blind(r),
{
    record(
        vec![
            field("index_count", u32s()),
            field("vertex_group_crc32", u32s()),
            Field { name: "data", kind: FieldKind::Counted(0, None, u16s()) },
        ],
    )
}

fn pair_list() -> (r: Shape)
    ensures
        pair_list_is()(r),
        shape_wf(r),
        blind(r),
{
    record(vec![field("unknown0s", pascal(record(words(vec!["unknown0", "unknown1"]))))])
}

fn unknown13() -> (r: Shape)
    ensures
        unknown13_is()(r),
        shape_wf(r),
        blind(r),
{
    let entry = record(
        words(
            vec!["unknown0", "unknown1", "unknown2", "unknown3", "unknown4", "unknown5", "unknown6"],
        ),
    );
    record(vec![field("unknown0s", fixed(u32s(), 12)), field("unknown1s", pascal(entry))])
}

fn unknown14() -> (r: Shape)
    ensures
        unknown14_is()(r),
        shape_wf(r),
        blind(r),
{
    let entry = record(words(vec!["unknown0", "unknown1", "unknown2", "unknown3"]));
    record(
        vec![
            field("name", pascal(u8s())),
            field("unknown1", u32s()),
            field("unknown2", u16s()),
            field("unknown4s", pascal(u16s())),
            field("unknown15s", pascal(entry)),
        ],
    )
}

/// Mesh body of the earlier revision: a sequence of counted arrays.
pub struct FuelMeshZ;

impl FuelMeshZ {
    pub fn shape() -> (r: Shape)
        ensures
            fuel_mesh_z_is()(r),
            shape_wf(r),
            blind(r),
    {
        let four = vec!["unknown0", "unknown1", "unknown2", "unknown3"];
        let ten = vec![
            "unknown0",
            "unknown1",
            "unknown2",
            "unknown3",
            "unknown4",
            "unknown5",
            "unknown6",
            "unknown7",
            "unknown8",
            "unknown9",
        ];
        let fifteen = vec![
            "unknown0",
            "unknown1",
            "unknown2",
            "unknown3",
            "unknown4",
            "unknown5",
            "unknown6",
            "unknown7",
            "unknown8",
            "unknown9",
            "unknown10",
            "unknown11",
            "unknown12",
            "unknown13",
            "unknown14",
        ];
        let eight = vec![
            "unknown0",
            "unknown1",
            "unknown2",
            "unknown3",
            "unknown4",
            "unknown5",
            "unknown6",
            "unknown7",
        ];
        let unknown2 = record(
            vec![
                field("unknown0s", pascal(u16s())),
                field("unknown1", u32s()),
                field("unknown2", u32s()),
            ],
        );
        let pair = record(vec![field("first", u16s()), field("second", u16s())]);
        let unknown12 = record(vec![field("u0", u16s()), field("u1", u32s())]);
        record(
            vec![
                field("vecs", pascal(vec3f())),
                field("unknown0s", pascal(record(words(four.clone())))),
                field("unknown1s", pascal(record(words(vec!["unknown0", "unknown1"])))),
                field("vertices1", pascal(vec3f())),
                field("unknown2s", pascal(unknown2)),
                field("unknown4s", pascal(pair_list())),
                field("material_crc32s", pascal(u32s())),
                field("unknown6s", pascal(record(words(ten.clone())))),
                field("unknown7s", pascal(record(words(four)))),
                field("unknown8s", pascal(record(words(ten)))),
                field("sub_meshes", pascal(sub_mesh())),
                field("indices", pascal(mesh_indices())),
                field("unknown11s", pascal(record(words(fifteen)))),
                field("unknown13s", pascal(unknown13())),
                field("unknown16s", pascal(record(words(eight)))),
                field("pairs", pascal(pair)),
                field("unknown18s", pascal(u16s())),
                field("unknown14s", pascal(unknown14())),
                field("unknown12s", pascal(unknown12)),
            ],
        )
    }
}

/// Node body of the earlier revision.
pub struct FuelNodeZ;

impl FuelNodeZ {
    pub fn shape() -> (r: Shape)
        ensures
            fuel_node_z_is()(r),
            shape_wf(r),
            blind(r),
    {
        let mut fs = words(
            vec![
                "parent_crc32",
                "some_node_crc320",
                "some_node_crc321",
                "some_node_crc322",
                "some_crc320",
                "some_crc321",
                "unknown6",
                "unknown7",
                "unknown8",
            ],
        );
        push_simple(&mut fs, field("unknown9", f32s()));
        push_simple(&mut fs, field("unknown10s", fixed(u8s(), 32)));
        push_simple(&mut fs, field("mat0", mat4f()));
        push_simple(&mut fs, field("unknown11s", fixed(u16s(), 17)));
        push_simple(&mut fs, field("mat1", mat4f()));
        record(fs)
    }
}

} // verus!
