use dpc_fmt::decode::{decode_all, Step};
use dpc_fmt::encode::encode_all;
use dpc_fmt::parts::{field, fixed, optional, pascal, record, u16s, u32s, u8s};
use dpc_fmt::schema::{Cond, ErrorKind, Field, FieldKind, Prim, Shape, Value};

fn num(n: u32) -> Value {
    Value::Num(n)
}

fn items(v: Vec<Value>) -> Value {
    Value::Items(v)
}

#[test]
fn reads_little_endian_primitives() {
    let v = decode_all(&Shape::Prim(Prim::U32), true, &[1, 2, 3, 4]).unwrap();
    assert_eq!(v, num(0x0403_0201));
    let v = decode_all(&Shape::Prim(Prim::U16), true, &[0xfe, 0xff]).unwrap();
    assert_eq!(v, num(0xfffe));
    let v = decode_all(&Shape::Prim(Prim::F32), true, &1.5f32.to_le_bytes()).unwrap();
    assert_eq!(v, num(1.5f32.to_bits()));
}

#[test]
fn writes_little_endian_primitives() {
    assert_eq!(encode_all(&Shape::Prim(Prim::U32), &num(0x0403_0201)), vec![1, 2, 3, 4]);
    assert_eq!(encode_all(&Shape::Prim(Prim::I16), &num(0xfffe)), vec![0xfe, 0xff]);
    assert_eq!(encode_all(&Shape::Prim(Prim::U8), &num(7)), vec![7]);
}

#[test]
fn short_primitive_is_truncated() {
    let e = decode_all(&Shape::Prim(Prim::U32), true, &[1, 2, 3]).unwrap_err();
    assert_eq!(e.kind, ErrorKind::TruncatedInput);
}

#[test]
fn exact_schema_rejects_trailing_bytes() {
    let e = decode_all(&Shape::Prim(Prim::U16), true, &[1, 2, 3]).unwrap_err();
    assert_eq!(e.kind, ErrorKind::TrailingBytes);
    let v = decode_all(&Shape::Prim(Prim::U16), false, &[1, 2, 3]).unwrap();
    assert_eq!(v, num(0x0201));
}

#[test]
fn length_prefixed_sequence_round_trips() {
    let s = pascal(u16s());
    let bytes = vec![3, 0, 0, 0, 1, 0, 2, 0, 3, 0];
    let v = decode_all(&s, true, &bytes).unwrap();
    assert_eq!(v, items(vec![num(1), num(2), num(3)]));
    assert_eq!(encode_all(&s, &v), bytes);
}

#[test]
fn empty_length_prefixed_sequence() {
    let s = pascal(u32s());
    let v = decode_all(&s, true, &[0, 0, 0, 0]).unwrap();
    assert_eq!(v, items(vec![]));
    assert_eq!(encode_all(&s, &v), vec![0, 0, 0, 0]);
}

#[test]
fn count_larger_than_buffer_is_truncated_with_path() {
    let s = record(vec![field("head", u8s()), field("list", pascal(u32s()))]);
    let e = decode_all(&s, true, &[9, 2, 0, 0, 0, 1, 0, 0, 0, 2]).unwrap_err();
    assert_eq!(e.kind, ErrorKind::TruncatedInput);
    assert_eq!(e.path, vec![Step::Index(1), Step::Field("list")]);
}

#[test]
fn fixed_array_has_no_count() {
    let s = fixed(u8s(), 3);
    let v = decode_all(&s, true, &[4, 5, 6]).unwrap();
    assert_eq!(v, items(vec![num(4), num(5), num(6)]));
    assert_eq!(encode_all(&s, &v), vec![4, 5, 6]);
}

#[test]
fn restricted_value_outside_set_is_unmatched() {
    let s = Shape::OneOf(Prim::U16, vec![1, 3, 5, 7]);
    assert_eq!(decode_all(&s, true, &[5, 0]).unwrap(), num(5));
    assert_eq!(decode_all(&s, true, &[2, 0]).unwrap_err().kind, ErrorKind::UnmatchedVariant);
}

fn counted_blob() -> Shape {
    record(vec![
        field("count", u32s()),
        field("size", u32s()),
        Field { name: "data", kind: FieldKind::Counted(0, Some(1), u8s()) },
    ])
}

#[test]
fn count_derived_from_two_siblings() {
    let bytes = vec![2, 0, 0, 0, 3, 0, 0, 0, 1, 2, 3, 4, 5, 6];
    let v = decode_all(&counted_blob(), true, &bytes).unwrap();
    let data: Vec<Value> = (1..=6).map(num).collect();
    assert_eq!(v, items(vec![num(2), num(3), items(data)]));
    assert_eq!(encode_all(&counted_blob(), &v), bytes);
}

#[test]
fn count_derived_blob_short_is_truncated() {
    let bytes = vec![2, 0, 0, 0, 3, 0, 0, 0, 1, 2, 3, 4, 5];
    assert_eq!(decode_all(&counted_blob(), true, &bytes).unwrap_err().kind, ErrorKind::TruncatedInput);
}

fn length_derived() -> Shape {
    record(vec![
        Field { name: "count", kind: FieldKind::LenOf(Prim::U32, 2) },
        field("id", u32s()),
        Field { name: "items", kind: FieldKind::Counted(0, None, u16s()) },
    ])
}

#[test]
fn derived_count_is_recomputed_on_encode() {
    let v = items(vec![num(99), num(7), items(vec![num(1), num(2)])]);
    let bytes = encode_all(&length_derived(), &v);
    assert_eq!(bytes, vec![2, 0, 0, 0, 7, 0, 0, 0, 1, 0, 2, 0]);
    let back = decode_all(&length_derived(), true, &bytes).unwrap();
    assert_eq!(back, items(vec![num(2), num(7), items(vec![num(1), num(2)])]));
}

fn flagged() -> Shape {
    record(vec![
        field("flag", u8s()),
        optional("extra", Cond { sibling: 0, values: vec![1], member: true, left: None }, u32s()),
    ])
}

#[test]
fn optional_field_follows_its_flag() {
    let v = decode_all(&flagged(), true, &[1, 9, 0, 0, 0]).unwrap();
    assert_eq!(v, items(vec![num(1), Value::Present(Box::new(num(9)))]));
    let v = decode_all(&flagged(), true, &[0]).unwrap();
    assert_eq!(v, items(vec![num(0), Value::Absent]));
}

#[test]
fn unset_optional_round_trips_unset() {
    let v = items(vec![num(0), Value::Absent]);
    let bytes = encode_all(&flagged(), &v);
    assert_eq!(bytes, vec![0]);
    assert_eq!(decode_all(&flagged(), true, &bytes).unwrap(), v);
}

#[test]
fn set_optional_round_trips_its_value() {
    let v = items(vec![num(1), Value::Present(Box::new(num(0xdead_beef)))]);
    let bytes = encode_all(&flagged(), &v);
    assert_eq!(bytes, vec![1, 0xef, 0xbe, 0xad, 0xde]);
    assert_eq!(decode_all(&flagged(), true, &bytes).unwrap(), v);
}

#[test]
fn presence_on_encode_comes_from_the_value() {
    let v = items(vec![num(0), Value::Present(Box::new(num(5)))]);
    assert_eq!(encode_all(&flagged(), &v), vec![0, 5, 0, 0, 0]);
}

#[test]
fn presence_by_remaining_length() {
    let s = record(vec![
        field("a", u8s()),
        optional("tail", Cond { sibling: 0, values: vec![0], member: false, left: Some(2) }, u16s()),
    ]);
    assert_eq!(decode_all(&s, true, &[1, 4, 0]).unwrap(), items(vec![num(1), Value::Present(Box::new(num(4)))]));
    assert_eq!(decode_all(&s, true, &[1]).unwrap(), items(vec![num(1), Value::Absent]));
    assert_eq!(decode_all(&s, true, &[0, 4, 0]).unwrap_err().kind, ErrorKind::TrailingBytes);
}

#[test]
fn truncating_the_last_byte_fails() {
    let s = record(vec![field("a", u32s()), field("b", pascal(u8s()))]);
    let bytes = vec![1, 0, 0, 0, 2, 0, 0, 0, 8, 9];
    assert!(decode_all(&s, true, &bytes).is_ok());
    let e = decode_all(&s, true, &bytes[..bytes.len() - 1]).unwrap_err();
    assert_eq!(e.kind, ErrorKind::TruncatedInput);
}
