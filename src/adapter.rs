//! Object format adapters: a header layout and a body layout paired with the
//! rules that extract the object's references.
use vstd::prelude::*;
use crate::decode::{decode_all, ParseFailure};
use crate::encode::encode_all;
use crate::fuel::{FuelMeshZ, FuelNodeZ};
use crate::mesh::{MeshZ, MeshZHeader};
use crate::parts::{object_header, resource_header};
use crate::refs::{extract, links, LinkRule};
use crate::layout::{
    camera_z_is, collision_vol_z_is, fuel_mesh_z_is, fuel_node_z_is, game_obj_z_is, light_data_z_is,
    material_obj_z_is, material_z_alt_is, material_z_is, mesh_data_z_is, mesh_z_header_is, mesh_z_is,
    node_z_alt_is, node_z_is, object_header_is, omni_z_is, resource_header_is, rot_shape_z_is,
    skel_z_is, skin_z_header_is, skin_z_is, sound_z_header_is, surface_datas_z_is, warp_z_is, ShapeIs,
};
use crate::schema::{path_all, Step, blind, dec_all, enc, shape_wf, ErrorKind, Shape, Val, Value};
use crate::walle::{
    CameraZ, CollisionVolZ, GameObjZ, LightDataZ, MaterialObjZ, MaterialZ, MaterialZAlt, MeshDataZ,
    NodeZ, NodeZAlt, OmniZ, RotShapeZ, SkelZ, SkinZ, SkinZHeader, SoundZHeader, SurfaceDatasZ, WarpZ,
    MATERIAL_BITMAPS, MATERIAL_DIFFUSE_BITMAP,
};

verus! {

/// Every object format, one per class layout and revision.
#[derive(Clone, Copy, Debug, PartialEq, Eq, Structural)]
pub enum Format {
    Animation,
    Binary,
    Bitmap,
    BitmapAlt,
    Camera,
    CollisionVol,
    Fonts,
    GameObj,
    GenWorld,
    GwRoad,
    LightData,
    Lod,
    LodAlt,
    LodAltAlt,
    LodData,
    Material,
    MaterialAlt,
    MaterialAltAlt,
    MaterialAnim,
    MaterialObj,
    Mesh,
    MeshAlt,
    MeshAltAlt,
    MeshAltAltAlt,
    MeshData,
    Node,
    NodeAlt,
    Omni,
    Particles,
    ParticlesAlt,
    ParticlesData,
    RotShape,
    RotShapeData,
    Rtc,
    Skel,
    Skin,
    SkinAlt,
    Sound,
    Spline,
    SplineGraph,
    Surface,
    SurfaceDatas,
    UserDefine,
    Warp,
    World,
    WorldRef,
    FuelMesh,
    FuelNode,
    FuelCollisionVol,
}

/// How one of the two byte buffers of an object is read.
pub enum Layout {
    /// The bytes are carried as they are.
    Raw,
    /// The bytes are decoded with a schema, which is exact when the flag is set.
    Schema(Shape, bool),
}

/// One decoded buffer.
#[derive(Debug, PartialEq, Eq)]
pub enum Part {
    Raw(Vec<u8>),
    Parsed(Value),
}

pub enum PartV {
    Raw(Seq<u8>),
    Parsed(Val),
}

impl View for Part {
    type V = PartV;

    open spec fn view(&self) -> PartV {
        match self {
            Part::Raw(b) => PartV::Raw(b@),
            Part::Parsed(v) => PartV::Parsed(v@),
        }
    }
}

/// A decoded object: its header and its body.
#[derive(Debug, PartialEq, Eq)]
pub struct ParsedObject {
    pub header: Part,
    pub body: Part,
}

/// The hashes of the objects an object links to, in schema order.
#[derive(Debug, PartialEq, Eq)]
pub struct References {
    pub hard_links: Vec<u32>,
    pub soft_links: Vec<u32>,
}

/// An adapter: how the header and the body of one format are read, and
/// where its references are.
pub struct Adapter {
    pub format: Format,
    pub header: Layout,
    pub body: Layout,
    pub hard: Vec<LinkRule>,
    pub soft: Vec<LinkRule>,
    pub links_in_header: bool,
}

pub open spec fn layout_dec(l: Layout, b: Seq<u8>) -> Result<PartV, ErrorKind> {
    match l {
        Layout::Raw => Ok(PartV::Raw(b)),
        Layout::Schema(s, exact) => match dec_all(s, exact, b) {
            Ok(v) => Ok(PartV::Parsed(v)),
            Err(x) => Err(x),
        },
    }
}

pub open spec fn layout_enc(l: Layout, p: PartV) -> Seq<u8> {
    match p {
        PartV::Raw(b) => b,
        PartV::Parsed(v) => match l {
            Layout::Schema(s, _) => enc(s, v),
            Layout::Raw => Seq::empty(),
        },
    }
}

/// The record a part holds; a raw part holds none.
pub open spec fn record_of(p: PartV) -> Val {
    match p {
        PartV::Parsed(v) => v,
        PartV::Raw(_) => Val::Absent,
    }
}

/// Every schema of the layout has consistent derived fields.
pub open spec fn layout_wf(l: Layout) -> bool {
    match l {
        Layout::Raw => true,
        Layout::Schema(s, _) => shape_wf(s),
    }
}

/// No presence test of the layout looks at how many bytes remain.
pub open spec fn layout_blind(l: Layout) -> bool {
    match l {
        Layout::Raw => true,
        Layout::Schema(s, _) => blind(s),
    }
}

/// The layout consumes its whole buffer.
pub open spec fn layout_exact(l: Layout) -> bool {
    match l {
        Layout::Raw => true,
        Layout::Schema(_, exact) => exact,
    }
}

/// The layout decodes with a schema described by `d`, exact when `exact` is set.
pub open spec fn schema_is(l: Layout, d: ShapeIs, exact: bool) -> bool {
    l matches Layout::Schema(s, e) && e == exact && d(s)
}

/// The header layout of format `f`.
pub open spec fn header_is(f: Format, l: Layout) -> bool {
    match f {
        Format::Camera | Format::CollisionVol | Format::Omni | Format::RotShape | Format::FuelMesh
        | Format::FuelCollisionVol => schema_is(l, object_header_is(), true),
        Format::GameObj | Format::LightData | Format::Material | Format::MaterialAlt
        | Format::MaterialAltAlt | Format::MaterialObj | Format::MeshData | Format::Node
        | Format::NodeAlt | Format::Skel | Format::SurfaceDatas | Format::Warp | Format::FuelNode =>
            schema_is(l, resource_header_is(), true),
        Format::Mesh => schema_is(l, mesh_z_header_is(), true),
        Format::Skin => schema_is(l, skin_z_header_is(), false),
        Format::Sound => schema_is(l, sound_z_header_is(), true),
        _ => l is Raw,
    }
}

/// The body layout of format `f`.
pub open spec fn body_is(f: Format, l: Layout) -> bool {
    match f {
        Format::Camera => schema_is(l, camera_z_is(), true),
        Format::CollisionVol | Format::FuelCollisionVol => schema_is(l, collision_vol_z_is(), true),
        Format::Omni => schema_is(l, omni_z_is(), true),
        Format::RotShape => schema_is(l, rot_shape_z_is(), true),
        Format::GameObj => schema_is(l, game_obj_z_is(), true),
        Format::LightData => schema_is(l, light_data_z_is(), true),
        Format::Material => schema_is(l, material_z_is(), true),
        Format::MaterialAlt | Format::MaterialAltAlt => schema_is(l, material_z_alt_is(), true),
        Format::MaterialObj => schema_is(l, material_obj_z_is(), true),
        Format::MeshData => schema_is(l, mesh_data_z_is(), true),
        Format::Node => schema_is(l, node_z_is(), true),
        Format::NodeAlt => schema_is(l, node_z_alt_is(), true),
        Format::Skel => schema_is(l, skel_z_is(), true),
        Format::SurfaceDatas => schema_is(l, surface_datas_z_is(), true),
        Format::Warp => schema_is(l, warp_z_is(), true),
        Format::Mesh => schema_is(l, mesh_z_is(), false),
        Format::Skin => schema_is(l, skin_z_is(), false),
        Format::FuelMesh => schema_is(l, fuel_mesh_z_is(), true),
        Format::FuelNode => schema_is(l, fuel_node_z_is(), true),
        _ => l is Raw,
    }
}

/// `a` is the adapter of format `f`: its layouts, its link rules, and where
/// the links are read.
pub open spec fn is_adapter_of(a: Adapter, f: Format) -> bool {
    &&& a.format == f
    &&& a.hard@ == hard_rules(f)
    &&& a.soft@ == soft_rules(f)
    &&& a.links_in_header == links_in_header(f)
    &&& header_is(f, a.header)
    &&& body_is(f, a.body)
    &&& (a.header is Raw) == !header_described(f)
    &&& (a.body is Raw) == !body_described(f)
    &&& layout_wf(a.header)
    &&& layout_wf(a.body)
    &&& (f != Format::Sound ==> layout_blind(a.header))
    &&& layout_blind(a.body)
    &&& layout_exact(a.header) == (f != Format::Skin)
    &&& layout_exact(a.body) == (f != Format::Mesh && f != Format::Skin)
}

/// What unpacking gives with header layout `hl` and body layout `bl`: both
/// parts when both decode, else the failure of the first that does not.
pub open spec fn unpacked(
    hl: Layout,
    bl: Layout,
    header: Seq<u8>,
    body: Seq<u8>,
    r: Result<ParsedObject, ParseFailure>,
) -> bool {
    match r {
        Ok(o) => layout_dec(hl, header) == Ok::<PartV, ErrorKind>(o.header@) && layout_dec(bl, body)
            == Ok::<PartV, ErrorKind>(o.body@),
        Err(f) => match layout_dec(hl, header) {
            Err(x) => f.kind == x && f.path@ == layout_path(hl, header),
            Ok(_) => layout_dec(bl, body) == Err::<PartV, ErrorKind>(f.kind) && f.path@
                == layout_path(bl, body),
        },
    }
}

/// Where decoding a buffer with layout `l` fails.
pub open spec fn layout_path(l: Layout, b: Seq<u8>) -> Seq<Step> {
    match l {
        Layout::Raw => Seq::empty(),
        Layout::Schema(s, exact) => path_all(s, exact, b),
    }
}

/// Formats whose references are read from the header rather than the body.
pub open spec fn links_in_header(f: Format) -> bool {
    f == Format::Mesh || f == Format::Skin || f == Format::Sound
}

pub open spec fn hard_rules(f: Format) -> Seq<LinkRule> {
    match f {
        Format::Material => seq![LinkRule::Field(MATERIAL_DIFFUSE_BITMAP)],
        Format::MaterialAlt => seq![LinkRule::List(MATERIAL_BITMAPS)],
        Format::MaterialAltAlt => seq![LinkRule::ListReversed(MATERIAL_BITMAPS)],
        _ => Seq::empty(),
    }
}

pub open spec fn soft_rules(f: Format) -> Seq<LinkRule> {
    match f {
        Format::GameObj => seq![LinkRule::List(0)],
        Format::Node => seq![
            LinkRule::Field(0),
            LinkRule::Field(1),
            LinkRule::Field(2),
            LinkRule::Field(3),
            LinkRule::Field(4),
            LinkRule::Field(5),
            LinkRule::Field(6),
            LinkRule::Field(7),
            LinkRule::Field(8),
        ],
        Format::Skel => seq![LinkRule::EachField(2, 0), LinkRule::List(3), LinkRule::List(4)],
        Format::Mesh => seq![LinkRule::List(1)],
        Format::Skin => seq![LinkRule::Field(2)],
        _ => Seq::empty(),
    }
}

/// Formats whose header is described field by field.
pub open spec fn header_described(f: Format) -> bool {
    match f {
        Format::Camera | Format::CollisionVol | Format::Omni | Format::RotShape | Format::GameObj
        | Format::LightData | Format::Material | Format::MaterialAlt | Format::MaterialAltAlt
        | Format::MaterialObj | Format::MeshData | Format::Node | Format::NodeAlt | Format::Skel
        | Format::SurfaceDatas | Format::Warp | Format::Mesh | Format::Skin | Format::Sound
        | Format::FuelMesh | Format::FuelNode | Format::FuelCollisionVol => true,
        _ => false,
    }
}

/// Formats whose body is described field by field; the others, and the
/// samples of a sound, are carried as bytes.
pub open spec fn body_described(f: Format) -> bool {
    header_described(f) && f != Format::Sound
}

fn rules(hard: bool, f: Format) -> (r: Vec<LinkRule>)
    ensures
        r@ == if hard {
            hard_rules(f)
        } else {
            soft_rules(f)
        },
{
    let r = if hard {
        match f {
            Format::Material => vec![LinkRule::Field(MATERIAL_DIFFUSE_BITMAP)],
            Format::MaterialAlt => vec![LinkRule::List(MATERIAL_BITMAPS)],
            Format::MaterialAltAlt => vec![LinkRule::ListReversed(MATERIAL_BITMAPS)],
            _ => Vec::new(),
        }
    } else {
        match f {
            Format::GameObj => vec![LinkRule::List(0)],
            Format::Node => vec![
                LinkRule::Field(0),
                LinkRule::Field(1),
                LinkRule::Field(2),
                LinkRule::Field(3),
                LinkRule::Field(4),
                LinkRule::Field(5),
                LinkRule::Field(6),
                LinkRule::Field(7),
                LinkRule::Field(8),
            ],
            Format::Skel => vec![LinkRule::EachField(2, 0), LinkRule::List(3), LinkRule::List(4)],
            Format::Mesh => vec![LinkRule::List(1)],
            Format::Skin => vec![LinkRule::Field(2)],
            _ => Vec::new(),
        }
    };
    assert(r@ =~= if hard {
        hard_rules(f)
    } else {
        soft_rules(f)
    });
    r
}

fn header_layout(f: Format) -> (r: Layout)
    ensures
        header_is(f, r),
        (r is Raw) == !header_described(f),
        layout_wf(r),
        f != Format::Sound ==> layout_blind(r),
        layout_exact(r) == (f != Format::Skin),
{
    match f {
        Format::Camera | Format::CollisionVol | Format::Omni | Format::RotShape
        | Format::FuelMesh | Format::FuelCollisionVol => Layout::Schema(object_header(), true),
        Format::GameObj | Format::LightData | Format::Material | Format::MaterialAlt
        | Format::MaterialAltAlt | Format::MaterialObj | Format::MeshData | Format::Node
        | Format::NodeAlt | Format::Skel | Format::SurfaceDatas | Format::Warp
        | Format::FuelNode => Layout::Schema(resource_header(), true),
        Format::Mesh => Layout::Schema(MeshZHeader::shape(), true),
        Format::Skin => Layout::Schema(SkinZHeader::shape(), false),
        Format::Sound => Layout::Schema(SoundZHeader::shape(), true),
        _ => Layout::Raw,
    }
}

fn body_layout(f: Format) -> (r: Layout)
    ensures
        body_is(f, r),
        (r is Raw) == !body_described(f),
        layout_wf(r),
        layout_blind(r),
        layout_exact(r) == (f != Format::Mesh && f != Format::Skin),
{
    match f {
        Format::Camera => Layout::Schema(CameraZ::shape(), true),
        Format::CollisionVol | Format::FuelCollisionVol => Layout::Schema(CollisionVolZ::shape(), true),
        Format::Omni => Layout::Schema(OmniZ::shape(), true),
        Format::RotShape => Layout::Schema(RotShapeZ::shape(), true),
        Format::GameObj => Layout::Schema(GameObjZ::shape(), true),
        Format::LightData => Layout::Schema(LightDataZ::shape(), true),
        Format::Material => Layout::Schema(MaterialZ::shape(), true),
        Format::MaterialAlt | Format::MaterialAltAlt => Layout::Schema(MaterialZAlt::shape(), true),
        Format::MaterialObj => Layout::Schema(MaterialObjZ::shape(), true),
        Format::MeshData => Layout::Schema(MeshDataZ::shape(), true),
        Format::Node => Layout::Schema(NodeZ::shape(), true),
        Format::NodeAlt => Layout::Schema(NodeZAlt::shape(), true),
        Format::Skel => Layout::Schema(SkelZ::shape(), true),
        Format::SurfaceDatas => Layout::Schema(SurfaceDatasZ::shape(), true),
        Format::Warp => Layout::Schema(WarpZ::shape(), true),
        Format::Mesh => Layout::Schema(MeshZ::shape(), false),
        Format::Skin => Layout::Schema(SkinZ::shape(), false),
        Format::FuelMesh => Layout::Schema(FuelMeshZ::shape(), true),
        Format::FuelNode => Layout::Schema(FuelNodeZ::shape(), true),
        _ => Layout::Raw,
    }
}

fn copy_bytes(b: &[u8]) -> (r: Vec<u8>)
    ensures
        r@ == b@,
{
    let mut r: Vec<u8> = Vec::new();
    let mut i: usize = 0;
    while i < b.len()
        invariant
            i <= b@.len(),
            r@ == b@.take(i as int),
        decreases b.len() - i,
    {
        r.push(b[i]);
        i += 1;
        assert(r@ =~= b@.take(i as int));
    }
    assert(b@.take(i as int) =~= b@);
    r
}

fn decode_part(l: &Layout, b: &[u8]) -> (r: Result<Part, ParseFailure>)
    ensures
        match r {
            Ok(p) => layout_dec(*l, b@) == Ok::<PartV, ErrorKind>(p@),
            Err(f) => layout_dec(*l, b@) == Err::<PartV, ErrorKind>(f.kind) && f.path@ == layout_path(
                *l,
                b@,
            ),
        },
{
    match l {
        Layout::Raw => Ok(Part::Raw(copy_bytes(b))),
        Layout::Schema(s, exact) => match decode_all(s, *exact, b) {
            Ok(v) => Ok(Part::Parsed(v)),
            Err(f) => Err(f),
        },
    }
}

fn encode_part(l: &Layout, p: &Part) -> (r: Vec<u8>)
    ensures
        r@ == layout_enc(*l, p@),
{
    match p {
        Part::Raw(b) => b.clone(),
        Part::Parsed(v) => match l {
            Layout::Schema(s, _) => encode_all(s, v),
            Layout::Raw => Vec::new(),
        },
    }
}

impl Adapter {
    /// The adapter of format `f`.
    pub fn of(f: Format) -> (r: Adapter)
        ensures
            is_adapter_of(r, f),
    {
        Adapter {
            format: f,
            header: header_layout(f),
            body: body_layout(f),
            hard: rules(true, f),
            soft: rules(false, f),
            links_in_header: f == Format::Mesh || f == Format::Skin || f == Format::Sound,
        }
    }

    /// Decodes the header, then the body; the first failure is returned.
    pub fn unpack(&self, header: &[u8], body: &[u8]) -> (r: Result<ParsedObject, ParseFailure>)
        ensures
            unpacked(self.header, self.body, header@, body@, r),
    {
        let h = decode_part(&self.header, header)?;
        let b = decode_part(&self.body, body)?;
        Ok(ParsedObject { header: h, body: b })
    }

    /// Encodes the header and the body.
    pub fn pack(&self, o: &ParsedObject) -> (r: (Vec<u8>, Vec<u8>))
        ensures
            r.0@ == layout_enc(self.header, o.header@),
            r.1@ == layout_enc(self.body, o.body@),
    {
        (encode_part(&self.header, &o.header), encode_part(&self.body, &o.body))
    }

    /// The references of a decoded object, read from its header or its body.
    pub fn references(&self, o: &ParsedObject) -> (r: References)
        ensures
            ({
                let source = if self.links_in_header {
                    record_of(o.header@)
                } else {
                    record_of(o.body@)
                };
                &&& r.hard_links@ == links(self.hard@, source)
                &&& r.soft_links@ == links(self.soft@, source)
            }),
    {
        let absent = Value::Absent;
        let part = if self.links_in_header {
            &o.header
        } else {
            &o.body
        };
        let source = match part {
            Part::Parsed(v) => v,
            Part::Raw(_) => &absent,
        };
        References { hard_links: extract(&self.hard, source), soft_links: extract(&self.soft, source) }
    }
}

/// The mesh adapter of the newest releases; references are read from the header.
pub struct MeshObjectFormat;

impl MeshObjectFormat {
    pub fn new() -> (r: Adapter)
        ensures
            is_adapter_of(r, Format::Mesh),
    {
        Adapter::of(Format::Mesh)
    }
}

/// The skin adapter of the newer releases; references are read from the header.
pub struct SkinObjectFormat;

impl SkinObjectFormat {
    pub fn new() -> (r: Adapter)
        ensures
            is_adapter_of(r, Format::Skin),
    {
        Adapter::of(Format::Skin)
    }
}

/// The sound adapter: a described header, and a body of raw samples.
pub struct SoundObjectFormat;

impl SoundObjectFormat {
    pub fn new() -> (r: Adapter)
        ensures
            is_adapter_of(r, Format::Sound),
    {
        Adapter::of(Format::Sound)
    }
}

/// Decodes a mesh object of the earlier engine revision.
pub fn fuel_fmt_extract_mesh_z(header: &[u8], data: &[u8]) -> (r: Result<ParsedObject, ParseFailure>)
    ensures
        exists|a: Adapter|
            #![trigger is_adapter_of(a, Format::FuelMesh)]
            is_adapter_of(a, Format::FuelMesh) && unpacked(a.header, a.body, header@, data@, r),
{
    let a = Adapter::of(Format::FuelMesh);
    let r = a.unpack(header, data);
    assert(is_adapter_of(a, Format::FuelMesh) && unpacked(a.header, a.body, header@, data@, r));
    r
}

/// Decodes a node object of the earlier engine revision.
pub fn fuel_fmt_extract_node_z(header: &[u8], data: &[u8]) -> (r: Result<ParsedObject, ParseFailure>)
    ensures
        exists|a: Adapter|
            #![trigger is_adapter_of(a, Format::FuelNode)]
            is_adapter_of(a, Format::FuelNode) && unpacked(a.header, a.body, header@, data@, r),
{
    let a = Adapter::of(Format::FuelNode);
    let r = a.unpack(header, data);
    assert(is_adapter_of(a, Format::FuelNode) && unpacked(a.header, a.body, header@, data@, r));
    r
}

} // verus!
