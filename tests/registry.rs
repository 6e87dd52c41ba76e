use dpc_fmt::adapter::Format;
use dpc_fmt::registry::{adapter_for, get_formats, ConfigError, Version, MATERIAL_TAG, MESH_TAG};

const LATEST: &str = "v1.381.67.09 - Asobo Studio - Internal Cross Technology";
const OLDEST: &str = "v1.220.50.07 - Asobo Studio - Internal Cross Technology";

#[test]
fn unknown_version_is_refused() {
    assert_eq!(get_formats(&String::from("v0.0")).unwrap_err(), ConfigError::UnknownVersion);
    assert_eq!(Version::from_label(&String::from("")), None);
}

#[test]
fn known_versions_are_recognised() {
    assert_eq!(Version::from_label(&String::from(LATEST)), Some(Version::V1_381_67_09));
    assert_eq!(Version::from_label(&String::from(OLDEST)), Some(Version::V1_220_50_07));
}

#[test]
fn table_holds_base_and_overlay_classes() {
    let t = get_formats(&String::from(LATEST)).unwrap();
    assert_eq!(t.len(), 35);
    assert_eq!(t.get(&MATERIAL_TAG), Some(&Format::Material));
    assert_eq!(t.get(&MESH_TAG), Some(&Format::Mesh));
    assert_eq!(t.get(&4240844041), Some(&Format::Camera));
    assert_eq!(t.get(&849267944), Some(&Format::Sound));
}

#[test]
fn overlay_depends_on_version() {
    let t = get_formats(&String::from(OLDEST)).unwrap();
    assert_eq!(t.len(), 35);
    assert_eq!(t.get(&MATERIAL_TAG), Some(&Format::MaterialAlt));
    assert_eq!(t.get(&MESH_TAG), Some(&Format::MeshAltAltAlt));
    let t = get_formats(&String::from("v1.325.50.07 - Asobo Studio - Internal Cross Technology")).unwrap();
    assert_eq!(t.get(&MATERIAL_TAG), Some(&Format::MaterialAltAlt));
    assert_eq!(t.get(&2245010728), Some(&Format::NodeAlt));
}

#[test]
fn unknown_class_tag_is_refused() {
    let t = get_formats(&String::from(LATEST)).unwrap();
    assert!(matches!(adapter_for(&t, 1), Err(ConfigError::UnknownClassTag)));
    let a = adapter_for(&t, MESH_TAG).ok().unwrap();
    assert_eq!(a.format, Format::Mesh);
}
