//! The version registry: which adapter serves each class tag under each
//! release.
use vstd::prelude::*;
use std::collections::HashMap;
use crate::adapter::{Adapter, Format, hard_rules, soft_rules, links_in_header};

verus! {

broadcast use vstd::std_specs::hash::group_hash_axioms;

/// The releases whose layouts are known.
#[derive(Clone, Copy, Debug, PartialEq, Eq, Structural)]
pub enum Version {
    V1_381_67_09,
    V1_381_66_09,
    V1_381_65_09,
    V1_381_64_09,
    V1_379_60_09,
    V1_325_50_07,
    V1_220_50_07,
}

/// Errors in the configuration handed to the registry.
#[derive(Clone, Copy, Debug, PartialEq, Eq, Structural)]
pub enum ConfigError {
    UnknownVersion,
    UnknownClassTag,
}

pub const MATERIAL_TAG: u32 = 2204276779;

pub const MESH_TAG: u32 = 1387343541;

pub const SKIN_TAG: u32 = 1396791303;

pub const NODE_TAG: u32 = 2245010728;

pub const PARTICLES_TAG: u32 = 3312018398;

pub const LOD_TAG: u32 = 1943824915;

pub const BITMAP_TAG: u32 = 1471281566;

/// The release a version label names.
pub open spec fn version_of(label: Seq<char>) -> Option<Version> {
    if label == "v1.381.67.09 - Asobo Studio - Internal Cross Technology"@ {
        Some(Version::V1_381_67_09)
    } else if label == "v1.381.66.09 - Asobo Studio - Internal Cross Technology"@ {
        Some(Version::V1_381_66_09)
    } else if label == "v1.381.65.09 - Asobo Studio - Internal Cross Technology"@ {
        Some(Version::V1_381_65_09)
    } else if label == "v1.381.64.09 - Asobo Studio - Internal Cross Technology"@ {
        Some(Version::V1_381_64_09)
    } else if label == "v1.379.60.09 - Asobo Studio - Internal Cross Technology"@ {
        Some(Version::V1_379_60_09)
    } else if label == "v1.325.50.07 - Asobo Studio - Internal Cross Technology"@ {
        Some(Version::V1_325_50_07)
    } else if label == "v1.220.50.07 - Asobo Studio - Internal Cross Technology"@ {
        Some(Version::V1_220_50_07)
    } else {
        None
    }
}

/// The classes whose layout is the same in every release.
pub open spec fn base_table() -> Map<u32, Format> {
    Map::empty().insert(1175485833, Format::Animation).insert(4240844041, Format::Camera).insert(
        2398393906,
        Format::CollisionVol,
    ).insert(1536002910, Format::Fonts).insert(4096629181, Format::GameObj).insert(
        838505646,
        Format::GenWorld,
    ).insert(3845834591, Format::GwRoad).insert(848525546, Format::LightData).insert(
        3412401859,
        Format::LodData,
    ).insert(3834418854, Format::MaterialAnim).insert(849861735, Format::MaterialObj).insert(
        3626109572,
        Format::MeshData,
    ).insert(549480509, Format::Omni).insert(954499543, Format::ParticlesData).insert(
        866453734,
        Format::RotShape,
    ).insert(1625945536, Format::RotShapeData).insert(705810152, Format::Rtc).insert(
        3611002348,
        Format::Skel,
    ).insert(1135194223, Format::Spline).insert(1910554652, Format::SplineGraph).insert(
        1706265229,
        Format::Surface,
    ).insert(3747817665, Format::SurfaceDatas).insert(1391959958, Format::UserDefine).insert(
        1114947943,
        Format::Warp,
    ).insert(968261323, Format::World).insert(2906362741, Format::WorldRef).insert(
        2259852416,
        Format::Binary,
    ).insert(849267944, Format::Sound)
}

/// The formats of the classes whose layout changed across releases, in the
/// order material, mesh, skin, node, particles, level of detail, bitmap.
pub open spec fn overlay(v: Version) -> (Format, Format, Format, Format, Format, Format, Format) {
    match v {
        Version::V1_381_67_09 | Version::V1_381_66_09 => (
            Format::Material,
            Format::Mesh,
            Format::Skin,
            Format::Node,
            Format::Particles,
            Format::Lod,
            Format::Bitmap,
        ),
        Version::V1_381_65_09 => (
            Format::Material,
            Format::MeshAlt,
            Format::Skin,
            Format::Node,
            Format::Particles,
            Format::Lod,
            Format::Bitmap,
        ),
        Version::V1_381_64_09 => (
            Format::Material,
            Format::MeshAlt,
            Format::Skin,
            Format::Node,
            Format::ParticlesAlt,
            Format::Lod,
            Format::Bitmap,
        ),
        Version::V1_379_60_09 => (
            Format::Material,
            Format::MeshAltAlt,
            Format::Skin,
            Format::Node,
            Format::ParticlesAlt,
            Format::LodAltAlt,
            Format::BitmapAlt,
        ),
        Version::V1_325_50_07 => (
            Format::MaterialAltAlt,
            Format::MeshAltAlt,
            Format::SkinAlt,
            Format::NodeAlt,
            Format::ParticlesAlt,
            Format::LodAlt,
            Format::BitmapAlt,
        ),
        Version::V1_220_50_07 => (
            Format::MaterialAlt,
            Format::MeshAltAltAlt,
            Format::SkinAlt,
            Format::NodeAlt,
            Format::ParticlesAlt,
            Format::LodAlt,
            Format::BitmapAlt,
        ),
    }
}

/// The table of a release: the common classes, then its own.
pub open spec fn format_table(v: Version) -> Map<u32, Format> {
    let o = overlay(v);
    base_table().insert(MATERIAL_TAG, o.0).insert(MESH_TAG, o.1).insert(SKIN_TAG, o.2).insert(
        NODE_TAG,
        o.3,
    ).insert(PARTICLES_TAG, o.4).insert(LOD_TAG, o.5).insert(BITMAP_TAG, o.6)
}

/// Every class tag a table serves.
pub open spec fn class_tags() -> Set<u32> {
    base_table().dom() + set![
        MATERIAL_TAG,
        MESH_TAG,
        SKIN_TAG,
        NODE_TAG,
        PARTICLES_TAG,
        LOD_TAG,
        BITMAP_TAG,
    ]
}

fn same(a: &String, b: &str) -> (r: bool)
    ensures
        r == (a@ == b@),
{
    let b = b.to_owned();
    *a == b
}

impl Version {
    /// The release a version label names, if it is one of the known ones.
    pub fn from_label(label: &String) -> (r: Option<Version>)
        ensures
            r == version_of(label@),
    {
        if same(label, "v1.381.67.09 - Asobo Studio - Internal Cross Technology") {
            Some(Version::V1_381_67_09)
        } else if same(label, "v1.381.66.09 - Asobo Studio - Internal Cross Technology") {
            Some(Version::V1_381_66_09)
        } else if same(label, "v1.381.65.09 - Asobo Studio - Internal Cross Technology") {
            Some(Version::V1_381_65_09)
        } else if same(label, "v1.381.64.09 - Asobo Studio - Internal Cross Technology") {
            Some(Version::V1_381_64_09)
        } else if same(label, "v1.379.60.09 - Asobo Studio - Internal Cross Technology") {
            Some(Version::V1_379_60_09)
        } else if same(label, "v1.325.50.07 - Asobo Studio - Internal Cross Technology") {
            Some(Version::V1_325_50_07)
        } else if same(label, "v1.220.50.07 - Asobo Studio - Internal Cross Technology") {
            Some(Version::V1_220_50_07)
        } else {
            None
        }
    }

    fn overlay(self) -> (r: (Format, Format, Format, Format, Format, Format, Format))
        ensures
            r == overlay(self),
    {
        match self {
            Version::V1_381_67_09 | Version::V1_381_66_09 => (
                Format::Material,
                Format::Mesh,
                Format::Skin,
                Format::Node,
                Format::Particles,
                Format::Lod,
                Format::Bitmap,
            ),
            Version::V1_381_65_09 => (
                Format::Material,
                Format::MeshAlt,
                Format::Skin,
                Format::Node,
                Format::Particles,
                Format::Lod,
                Format::Bitmap,
            ),
            Version::V1_381_64_09 => (
                Format::Material,
                Format::MeshAlt,
                Format::Skin,
                Format::Node,
                Format::ParticlesAlt,
                Format::Lod,
                Format::Bitmap,
            ),
            Version::V1_379_60_09 => (
                Format::Material,
                Format::MeshAltAlt,
                Format::Skin,
                Format::Node,
                Format::ParticlesAlt,
                Format::LodAltAlt,
                Format::BitmapAlt,
            ),
            Version::V1_325_50_07 => (
                Format::MaterialAltAlt,
                Format::MeshAltAlt,
                Format::SkinAlt,
                Format::NodeAlt,
                Format::ParticlesAlt,
                Format::LodAlt,
                Format::BitmapAlt,
            ),
            Version::V1_220_50_07 => (
                Format::MaterialAlt,
                Format::MeshAltAltAlt,
                Format::SkinAlt,
                Format::NodeAlt,
                Format::ParticlesAlt,
                Format::LodAlt,
                Format::BitmapAlt,
            ),
        }
    }
}

/// The table of the release a version label names; an unknown label is
/// refused before any object is read.
pub fn get_formats(version: &String) -> (r: Result<HashMap<u32, Format>, ConfigError>)
    ensures
        match version_of(version@) {
            Some(v) => r matches Ok(t) && t@ == format_table(v),
            None => r == Err::<HashMap<u32, Format>, ConfigError>(ConfigError::UnknownVersion),
        },
{
    let v = match Version::from_label(version) {
        Some(v) => v,
        None => return Err(ConfigError::UnknownVersion),
    };
    let mut formats: HashMap<u32, Format> = HashMap::new();
    formats.insert(1175485833, Format::Animation);
    formats.insert(4240844041, Format::Camera);
    formats.insert(2398393906, Format::CollisionVol);
    formats.insert(1536002910, Format::Fonts);
    formats.insert(4096629181, Format::GameObj);
    formats.insert(838505646, Format::GenWorld);
    formats.insert(3845834591, Format::GwRoad);
    formats.insert(848525546, Format::LightData);
    formats.insert(3412401859, Format::LodData);
    formats.insert(3834418854, Format::MaterialAnim);
    formats.insert(849861735, Format::MaterialObj);
    formats.insert(3626109572, Format::MeshData);
    formats.insert(549480509, Format::Omni);
    formats.insert(954499543, Format::ParticlesData);
    formats.insert(866453734, Format::RotShape);
    formats.insert(1625945536, Format::RotShapeData);
    formats.insert(705810152, Format::Rtc);
    formats.insert(3611002348, Format::Skel);
    formats.insert(1135194223, Format::Spline);
    formats.insert(1910554652, Format::SplineGraph);
    formats.insert(1706265229, Format::Surface);
    formats.insert(3747817665, Format::SurfaceDatas);
    formats.insert(1391959958, Format::UserDefine);
    formats.insert(1114947943, Format::Warp);
    formats.insert(968261323, Format::World);
    formats.insert(2906362741, Format::WorldRef);
    formats.insert(2259852416, Format::Binary);
    formats.insert(849267944, Format::Sound);
    let o = v.overlay();
    formats.insert(MATERIAL_TAG, o.0);
    formats.insert(MESH_TAG, o.1);
    formats.insert(SKIN_TAG, o.2);
    formats.insert(NODE_TAG, o.3);
    formats.insert(PARTICLES_TAG, o.4);
    formats.insert(LOD_TAG, o.5);
    formats.insert(BITMAP_TAG, o.6);
    Ok(formats)
}

/// The adapter that a table assigns to a class tag.
pub fn adapter_for(table: &HashMap<u32, Format>, class_tag: u32) -> (r: Result<Adapter, ConfigError>)
    ensures
        match table@.get(class_tag) {
            Some(f) => r matches Ok(a) && a.format == f && a.hard@ == hard_rules(f) && a.soft@
                == soft_rules(f) && a.links_in_header == links_in_header(f),
            None => r matches Err(ConfigError::UnknownClassTag),
        },
{
    match table.get(&class_tag) {
        Some(f) => Ok(Adapter::of(*f)),
        None => Err(ConfigError::UnknownClassTag),
    }
}

/// A known release serves exactly the common classes and the classes of its
/// own, each by one adapter.
pub proof fn lemma_table_covers_classes(v: Version)
    ensures
        format_table(v).dom() =~= class_tags(),
{
}

} // verus!
