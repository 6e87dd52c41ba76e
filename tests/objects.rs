use dpc_fmt::adapter::{
    fuel_fmt_extract_mesh_z, fuel_fmt_extract_node_z, Adapter, Format, MeshObjectFormat, Part, ParsedObject, SkinObjectFormat,
    SoundObjectFormat,
};
use dpc_fmt::schema::{ErrorKind, Step, Value};

struct Buf(Vec<u8>);

impl Buf {
    fn new() -> Buf {
        Buf(Vec::new())
    }
    fn u8(mut self, v: u8) -> Buf {
        self.0.push(v);
        self
    }
    fn u16(mut self, v: u16) -> Buf {
        self.0.extend_from_slice(&v.to_le_bytes());
        self
    }
    fn u32(mut self, v: u32) -> Buf {
        self.0.extend_from_slice(&v.to_le_bytes());
        self
    }
    fn f32(self, v: f32) -> Buf {
        self.u32(v.to_bits())
    }
    fn u32s(mut self, vs: &[u32]) -> Buf {
        for v in vs {
            self = self.u32(*v);
        }
        self
    }
    fn f32s(mut self, n: usize, start: f32) -> Buf {
        for i in 0..n {
            self = self.f32(start + i as f32);
        }
        self
    }
    fn bytes(mut self, n: usize, b: u8) -> Buf {
        for _ in 0..n {
            self = self.u8(b);
        }
        self
    }
    fn pascal_u32(self, vs: &[u32]) -> Buf {
        self.u32(vs.len() as u32).u32s(vs)
    }
}

fn resource_header(links: &[u32]) -> Vec<u8> {
    Buf::new().u32(0x1234).pascal_u32(links).0
}

fn object_header() -> Vec<u8> {
    Buf::new().u32(0x55).pascal_u32(&[1, 2]).u32(0x66).f32s(4, 0.5).f32s(16, 1.0).f32(3.0).u32(8).u16(2).0
}

fn round_trip(format: Format, header: &[u8], body: &[u8]) -> ParsedObject {
    let a = Adapter::of(format);
    let o = a.unpack(header, body).unwrap();
    let (h, b) = a.pack(&o);
    assert_eq!(h, header);
    assert_eq!(b, body);
    let again = a.unpack(&h, &b).unwrap();
    assert_eq!(again, o);
    o
}

fn body_field(o: &ParsedObject, i: usize) -> &Value {
    match &o.body {
        Part::Parsed(Value::Items(fs)) => &fs[i],
        _ => panic!("body not decoded"),
    }
}

#[test]
fn camera_round_trips() {
    let body = Buf::new().f32(1.25).f32(0.0).u32(77).0;
    let o = round_trip(Format::Camera, &object_header(), &body);
    assert_eq!(body_field(&o, 2), &Value::Num(77));
    assert_eq!(body_field(&o, 0), &Value::Num(1.25f32.to_bits()));
}

#[test]
fn camera_body_missing_last_byte_is_truncated() {
    let body = Buf::new().f32(1.25).f32(0.0).u32(77).0;
    let e = Adapter::of(Format::Camera).unpack(&object_header(), &body[..body.len() - 1]).unwrap_err();
    assert_eq!(e.kind, ErrorKind::TruncatedInput);
}

#[test]
fn camera_body_with_extra_byte_has_trailing_bytes() {
    let body = Buf::new().f32(1.25).f32(0.0).u32(77).u8(0).0;
    let e = Adapter::of(Format::Camera).unpack(&object_header(), &body).unwrap_err();
    assert_eq!(e.kind, ErrorKind::TrailingBytes);
}

#[test]
fn header_failure_is_reported_before_body() {
    let e = Adapter::of(Format::Camera).unpack(&[1, 2], &[]).unwrap_err();
    assert_eq!(e.kind, ErrorKind::TruncatedInput);
}

#[test]
fn collision_volume_round_trips() {
    let body = Buf::new().u32(3).f32s(16, 0.0).f32s(16, 2.0).bytes(28 * 4, 0).u32(4).u32(5).0;
    round_trip(Format::CollisionVol, &object_header(), &body);
}

#[test]
fn game_object_soft_links_skip_zero() {
    let body = Buf::new().pascal_u32(&[11, 0, 12]).0;
    let a = Adapter::of(Format::GameObj);
    let o = round_trip(Format::GameObj, &resource_header(&[]), &body);
    let r = a.references(&o);
    assert_eq!(r.soft_links, vec![11, 12]);
    assert!(r.hard_links.is_empty());
}

#[test]
fn light_data_round_trips() {
    let body = Buf::new().u32(1).f32s(3, 0.1).f32s(3, 0.2).u32s(&[1, 2, 3]).u32(1).f32s(3, 4.0).0;
    round_trip(Format::LightData, &resource_header(&[9]), &body);
}

fn material_prefix() -> Buf {
    Buf::new()
        .f32s(4, 0.0)
        .f32s(3, 1.0)
        .u32(0)
        .f32s(9, 0.0)
        .f32s(8, 0.0)
        .u32s(&[0, 0, 0])
        .f32s(2, 0.0)
        .f32s(2, 1.0)
        .f32(0.0)
        .u32s(&[1, 2, 3])
}

#[test]
fn material_flag_one_has_seven_words() {
    let body = material_prefix().u8(1).u32(0xabc).u32s(&[1, 2, 3, 4, 5, 6, 7]).0;
    let o = round_trip(Format::Material, &resource_header(&[]), &body);
    assert!(matches!(body_field(&o, 12), Value::Present(_)));
    assert_eq!(body_field(&o, 13), &Value::Absent);
    assert_eq!(body_field(&o, 15), &Value::Absent);
    let r = Adapter::of(Format::Material).references(&o);
    assert_eq!(r.hard_links, vec![0xabc]);
}

#[test]
fn material_flag_three_has_word_and_six_words() {
    let body = material_prefix().u8(3).u32(0).u32(9).u32s(&[1, 2, 3, 4, 5, 6]).0;
    let o = round_trip(Format::Material, &resource_header(&[]), &body);
    assert_eq!(body_field(&o, 12), &Value::Absent);
    assert_eq!(body_field(&o, 13), &Value::Present(Box::new(Value::Num(9))));
    assert!(matches!(body_field(&o, 14), Value::Present(_)));
    let r = Adapter::of(Format::Material).references(&o);
    assert!(r.hard_links.is_empty());
}

#[test]
fn material_other_flag_has_three_words() {
    let body = material_prefix().u8(0).u32(5).u32s(&[1, 2, 3]).0;
    let o = round_trip(Format::Material, &resource_header(&[]), &body);
    assert!(matches!(body_field(&o, 15), Value::Present(_)));
    let short = material_prefix().u8(0).u32(5).u32s(&[1, 2]).0;
    let e = Adapter::of(Format::Material).unpack(&resource_header(&[]), &short).unwrap_err();
    assert_eq!(e.kind, ErrorKind::TruncatedInput);
}

#[test]
fn reversed_material_emits_hard_links_last_first() {
    let body = material_prefix().u32s(&[1, 2, 3]).0;
    let o = round_trip(Format::MaterialAltAlt, &resource_header(&[]), &body);
    let r = Adapter::of(Format::MaterialAltAlt).references(&o);
    assert_eq!(r.hard_links, vec![3, 2, 1]);
}

#[test]
fn older_material_emits_hard_links_in_order() {
    let body = material_prefix().u32s(&[1, 0, 3]).0;
    let o = round_trip(Format::MaterialAlt, &resource_header(&[]), &body);
    let r = Adapter::of(Format::MaterialAlt).references(&o);
    assert_eq!(r.hard_links, vec![1, 3]);
}

#[test]
fn material_object_round_trips() {
    let body = Buf::new().u32(2).u32(10).pascal_u32(&[1, 2]).u32(11).pascal_u32(&[]).0;
    round_trip(Format::MaterialObj, &resource_header(&[]), &body);
}

#[test]
fn mesh_data_omni_surface_warp_round_trip() {
    round_trip(Format::MeshData, &resource_header(&[]), &Buf::new().f32(1.0).u32(0xff00ff00).0);
    round_trip(Format::Omni, &object_header(), &Buf::new().bytes(50 * 4, 7).0);
    round_trip(Format::SurfaceDatas, &resource_header(&[]), &Buf::new().u32(1).0);
    let warp = Buf::new().u32(4).f32s(24, 0.0).f32(1.0).f32(2.0).f32(3.0).f32s(8, 0.0).0;
    round_trip(Format::Warp, &resource_header(&[]), &warp);
}

#[test]
fn rot_shape_round_trips() {
    let body = Buf::new()
        .u32(1)
        .f32s(3, 0.0)
        .f32(2.0)
        .pascal_u32(&[4, 5])
        .u32(0)
        .u32(1)
        .f32s(2, 0.0)
        .pascal_u32(&[6])
        .f32(1.0)
        .u16(2)
        .0;
    round_trip(Format::RotShape, &object_header(), &body);
}

fn node_body(links: &[u32; 9]) -> Vec<u8> {
    Buf::new()
        .u32s(links)
        .f32s(16, 0.0)
        .f32s(3, 0.0)
        .u32(1)
        .f32s(3, 0.0)
        .u32(2)
        .f32s(3, 0.0)
        .u32(3)
        .f32s(16, 0.0)
        .f32s(3, 0.0)
        .u32(4)
        .f32s(4, 0.0)
        .f32s(4, 1.0)
        .u32(0xffffffff)
        .f32s(4, 0.0)
        .u32s(&[0, 0, 8, 8])
        .u32s(&[0, 0, 4, 4])
        .f32s(16, 0.0)
        .u32(5)
        .u32(6)
        .u16(0xffff)
        .u32(7)
        .u32(8)
        .0
}

#[test]
fn node_soft_links_keep_order_and_skip_zero() {
    let body = node_body(&[10, 0, 30, 0, 50, 0, 0, 80, 90]);
    let o = round_trip(Format::Node, &resource_header(&[]), &body);
    let r = Adapter::of(Format::Node).references(&o);
    assert_eq!(r.soft_links, vec![10, 30, 50, 80, 90]);
    assert!(r.hard_links.is_empty());
}

#[test]
fn node_with_all_links_zero_has_none() {
    let body = node_body(&[0; 9]);
    let o = round_trip(Format::Node, &resource_header(&[]), &body);
    let r = Adapter::of(Format::Node).references(&o);
    assert!(r.soft_links.is_empty());
}

#[test]
fn older_node_round_trips() {
    let body = Buf::new().u32s(&[1, 2, 3, 4, 5, 6, 7, 8, 9]).f32s(16, 0.0).bytes(208, 1).f32s(16, 0.0).u32(1).u32(2).u16(3).u32(4).u32(5).0;
    let o = round_trip(Format::NodeAlt, &resource_header(&[]), &body);
    assert!(Adapter::of(Format::NodeAlt).references(&o).soft_links.is_empty());
}

fn skel_bone(user_define: u32) -> Buf {
    Buf::new()
        .u32(user_define)
        .f32s(4, 0.0)
        .f32s(3, 1.0)
        .u32(0)
        .f32s(3, 0.0)
        .u32(0)
        .f32s(3, 0.0)
        .u16(1)
        .u16(2)
        .f32s(3, 0.0)
        .u32(0)
        .f32s(3, 0.0)
        .u32(0)
        .f32s(4, 0.0)
        .u32s(&[0, 0, 0])
        .u32(0)
        .u32s(&[0, 0, 0])
        .u32(0)
        .u32s(&[0, 0, 0])
        .u32(0)
        .f32s(16, 0.0)
        .u32s(&[0xffffffff, 0, 1, 2])
        .u32(0x77)
}

#[test]
fn skeleton_soft_links_concatenate_in_order() {
    let mut body = Buf::new().u32(1).f32s(4, 0.0).u32(2).0;
    body.extend(skel_bone(100).0);
    body.extend(skel_bone(0).0);
    let rest = Buf::new()
        .pascal_u32(&[200, 201])
        .pascal_u32(&[300])
        .u32(1)
        .pascal_u32(&[5, 6])
        .pascal_u32(&[])
        .u32(1)
        .f32s(4, 0.0)
        .u32s(&[1, 2, 3])
        .u32(0)
        .u32(1)
        .f32s(16, 0.0)
        .u32s(&[4, 5, 6])
        .0;
    body.extend(rest);
    let o = round_trip(Format::Skel, &resource_header(&[]), &body);
    let r = Adapter::of(Format::Skel).references(&o);
    assert_eq!(r.soft_links, vec![100, 200, 201, 300]);
}

fn skin_header(skel: u32) -> Vec<u8> {
    Buf::new().u32(0x99).u32(2).u8(1).u8(2).u32(skel).f32s(4, 0.0).f32s(16, 0.0).f32(10.0).u32(0).u16(1).0
}

fn skin_body() -> Vec<u8> {
    let blend = Buf::new().u16(1).u32(1).u32(5).f32(0.5).u32(0).0;
    let mut b = Buf::new().pascal_u32(&[41, 42]).u32(1).bytes(8, 3).u32(1).u32(0x10).u32(1).0;
    b.extend(blend);
    b.extend(
        Buf::new()
            .u8(0)
            .u32(0xcdcd)
            .u32(1)
            .u32(1)
            .u32(0x20)
            .u32s(&[1, 2, 3, 4, 5, 6, 7])
            .u32(0)
            .u32(0)
            .u32(1)
            .u32s(&[8, 9])
            .0,
    );
    b
}

#[test]
fn skin_links_come_from_header() {
    let a = SkinObjectFormat::new();
    let o = a.unpack(&skin_header(0x5e1), &skin_body()).unwrap();
    let (h, b) = a.pack(&o);
    assert_eq!(h, skin_header(0x5e1));
    assert_eq!(b, skin_body());
    let r = a.references(&o);
    assert_eq!(r.soft_links, vec![0x5e1]);
    let o = a.unpack(&skin_header(0), &skin_body()).unwrap();
    assert!(a.references(&o).soft_links.is_empty());
}

fn vertex_buffer(stride: u32, count: u32) -> Vec<u8> {
    let mut b = Buf::new().u32(count).u32(stride).u32(0xb0).0;
    for _ in 0..count {
        b.extend(Buf::new().bytes(stride as usize, 1).0);
    }
    b
}

fn mesh_body(buffers: &[Vec<u8>]) -> Vec<u8> {
    let mut b = Buf::new()
        .u32(1)
        .u32(2)
        .pascal_u32(&[])
        .u32s(&[0, 0, 0, 0])
        .pascal_u32(&[0x3a7])
        .bytes(24, 0)
        .u32s(&[0, 0, 0, 0, 0])
        .u32(1)
        .u16(1)
        .u16(2)
        .u16(3)
        .u32(0)
        .u32(buffers.len() as u32)
        .0;
    for vb in buffers {
        b.extend(vb.iter());
    }
    b.extend(Buf::new().u32(1).u32(3).u32(0x1b).u16(0).u16(1).u16(2).0);
    b.extend(Buf::new().u32(1).u32s(&[0, 0, 0]).u32(4).u16(0).u16(0).u32(3).u32(0).u32(1).u32(0).u32(0).u16(36).u16(0xcdcd).0);
    b.extend(Buf::new().u32s(&[0, 0, 0, 0]).0);
    b
}

fn mesh_header() -> Vec<u8> {
    Buf::new().u32(0x10).pascal_u32(&[0x20, 0, 0x30]).u32(0x40).f32s(4, 0.0).f32s(16, 0.0).f32(1.0).u32(0).u16(0).0
}

fn vertex_case(o: &ParsedObject, buffer: usize) -> usize {
    match body_field(o, 13) {
        Value::Items(vbs) => match &vbs[buffer] {
            Value::Items(fs) => match &fs[3] {
                Value::Case(k, _) => *k,
                _ => panic!("not a variant"),
            },
            _ => panic!("not a record"),
        },
        _ => panic!("not a list"),
    }
}

#[test]
fn vertex_strides_select_distinct_layouts() {
    let body = mesh_body(&[
        vertex_buffer(60, 2),
        vertex_buffer(48, 1),
        vertex_buffer(36, 3),
        vertex_buffer(24, 2),
    ]);
    let a = MeshObjectFormat::new();
    let o = a.unpack(&mesh_header(), &body).unwrap();
    assert_eq!(vertex_case(&o, 0), 0);
    assert_eq!(vertex_case(&o, 1), 1);
    assert_eq!(vertex_case(&o, 2), 2);
    assert_eq!(vertex_case(&o, 3), 3);
    let (h, b) = a.pack(&o);
    assert_eq!(h, mesh_header());
    assert_eq!(b, body);
}

#[test]
fn unknown_vertex_stride_is_unmatched() {
    let body = mesh_body(&[vertex_buffer(12, 1)]);
    let e = MeshObjectFormat::new().unpack(&mesh_header(), &body).unwrap_err();
    assert_eq!(e.kind, ErrorKind::UnmatchedVariant);
}

#[test]
fn mesh_links_come_from_header() {
    let body = mesh_body(&[vertex_buffer(24, 1)]);
    let a = MeshObjectFormat::new();
    let o = a.unpack(&mesh_header(), &body).unwrap();
    let r = a.references(&o);
    assert_eq!(r.soft_links, vec![0x20, 0x30]);
    assert!(r.hard_links.is_empty());
}

fn sound_header(rate: u32, tail: Option<u16>, kind: u16) -> Vec<u8> {
    let mut b = Buf::new().u32(0xa1).u32(rate);
    if rate != 0 {
        b = b.u32(1000).u16(kind);
        if let Some(z) = tail {
            b = b.u16(z);
        }
    }
    b.0
}

#[test]
fn sound_header_variants_round_trip() {
    let a = SoundObjectFormat::new();
    for h in [sound_header(0, None, 1), sound_header(22050, None, 3), sound_header(22050, Some(0), 7)] {
        let o = a.unpack(&h, &[1, 2, 3, 4]).unwrap();
        assert_eq!(o.body, Part::Raw(vec![1, 2, 3, 4]));
        let (h2, b2) = a.pack(&o);
        assert_eq!(h2, h);
        assert_eq!(b2, vec![1, 2, 3, 4]);
    }
}

#[test]
fn sound_header_bad_kind_is_unmatched() {
    let e = SoundObjectFormat::new().unpack(&sound_header(22050, None, 2), &[]).unwrap_err();
    assert_eq!(e.kind, ErrorKind::UnmatchedVariant);
}

#[test]
fn undescribed_class_passes_bytes_through() {
    let a = Adapter::of(Format::Binary);
    let o = a.unpack(&[1, 2], &[3, 4, 5]).unwrap();
    assert_eq!(o, ParsedObject { header: Part::Raw(vec![1, 2]), body: Part::Raw(vec![3, 4, 5]) });
    assert_eq!(a.pack(&o), (vec![1, 2], vec![3, 4, 5]));
    let r = a.references(&o);
    assert!(r.hard_links.is_empty() && r.soft_links.is_empty());
}

#[test]
fn earlier_revision_node_decodes() {
    let body = Buf::new().u32s(&[1, 2, 3, 4, 5, 6, 7, 8, 9]).f32(1.0).bytes(32, 0).f32s(16, 0.0).bytes(34, 0).f32s(16, 0.0).0;
    let o = fuel_fmt_extract_node_z(&resource_header(&[4]), &body).unwrap();
    assert_eq!(body_field(&o, 0), &Value::Num(1));
    let e = fuel_fmt_extract_node_z(&resource_header(&[4]), &body[1..]).unwrap_err();
    assert_eq!(e.kind, ErrorKind::TruncatedInput);
}

fn fuel_mesh_body() -> Vec<u8> {
    let mut b = Buf::new().bytes(10 * 4, 0).0;
    b.extend(Buf::new().u32(1).u32(2).u32(3).u32(0x77).bytes(6, 9).0);
    b.extend(Buf::new().u32(1).u32(2).u32(0x77).u16(0).u16(1).0);
    b.extend(Buf::new().bytes(7 * 4, 0).0);
    b
}

#[test]
fn earlier_revision_mesh_sizes_blob_by_count_times_size() {
    let body = fuel_mesh_body();
    let o = fuel_fmt_extract_mesh_z(&object_header(), &body).unwrap();
    match body_field(&o, 10) {
        Value::Items(subs) => match &subs[0] {
            Value::Items(fs) => match &fs[3] {
                Value::Items(data) => assert_eq!(data.len(), 6),
                _ => panic!("no data"),
            },
            _ => panic!("no sub mesh"),
        },
        _ => panic!("no sub meshes"),
    }
    let (h, b) = Adapter::of(Format::FuelMesh).pack(&o);
    assert_eq!(h, object_header());
    assert_eq!(b, body);
    let e = fuel_fmt_extract_mesh_z(&object_header(), &body[..body.len() - 1]).unwrap_err();
    assert_eq!(e.kind, ErrorKind::TruncatedInput);
}

#[test]
fn extreme_hash_values_round_trip() {
    let body = Buf::new().f32(f32::MAX).f32(-0.0).u32(u32::MAX).0;
    let o = round_trip(Format::Camera, &object_header(), &body);
    assert_eq!(body_field(&o, 2), &Value::Num(u32::MAX));
    assert_eq!(body_field(&o, 1), &Value::Num((-0.0f32).to_bits()));
}

#[test]
fn failing_skin_reports_field_path() {
    let body = skin_body();
    let cut = &body[..30];
    let e = SkinObjectFormat::new().unpack(&skin_header(1), cut).unwrap_err();
    assert_eq!(e.kind, ErrorKind::TruncatedInput);
    assert_eq!(e.path.last(), Some(&Step::Field("bones")));
    assert!(e.path.contains(&Step::Index(0)));
}

#[test]
fn short_vertex_buffer_reports_vertex_index() {
    let body = mesh_body(&[vertex_buffer(36, 3)]);
    let prefix = 98 + 12 + 36 * 2 + 10;
    let e = MeshObjectFormat::new().unpack(&mesh_header(), &body[..prefix]).unwrap_err();
    assert_eq!(e.kind, ErrorKind::TruncatedInput);
    assert_eq!(e.path[e.path.len() - 2..].to_vec(), vec![Step::Index(0), Step::Field("vertex_buffers")]);
    assert!(e.path.contains(&Step::Field("vertices")));
    assert!(e.path.contains(&Step::Index(2)));
    assert_eq!(e.path.last(), Some(&Step::Field("vertex_buffers")));
}

#[test]
fn sound_header_lengths() {
    let a = SoundObjectFormat::new();
    assert_eq!(sound_header(0, None, 1).len(), 8);
    assert_eq!(sound_header(22050, None, 1).len(), 14);
    assert_eq!(sound_header(22050, Some(0), 1).len(), 16);
    let h = sound_header(22050, Some(0), 5);
    let o = a.unpack(&h, &[]).unwrap();
    match &o.header {
        dpc_fmt::adapter::Part::Parsed(Value::Items(fs)) => {
            assert_eq!(fs[4], Value::Present(Box::new(Value::Num(0))));
            assert_eq!(fs[3], Value::Present(Box::new(Value::Num(5))));
        }
        _ => panic!("header not decoded"),
    }
    for bad in [&h[..15], &h[..13], &sound_header(0, None, 1)[..7]] {
        assert!(a.unpack(bad, &[]).is_err());
    }
    let mut long = sound_header(0, None, 1);
    long.push(0);
    assert_eq!(a.unpack(&long, &[]).unwrap_err().kind, ErrorKind::TrailingBytes);
}
