//! What holds of decoding and encoding for every schema.
use vstd::prelude::*;
use crate::adapter::{
    layout_blind, layout_dec, layout_enc, layout_exact, layout_wf, Adapter, Layout, PartV,
};
use crate::bytes::{le_bytes, lemma_le_bytes_len, lemma_le_bytes_of_value, lemma_le_value_of_bytes};
use crate::layout::{fields_are, sound_z_header_is, sound_z_header_kinds, vertex_buffer_is};
use crate::refs::{field_of, links, list_of, nonzero, num_of, rule_hashes, LinkRule};
use crate::schema::{
    as_items, blind, blind_cases, blind_fields, blind_kind, cases_wf, conforms, conforms_field,
    conforms_from, conforms_items, dec, dec_all, dec_field, dec_fields, dec_items, dec_prim, enc,
    enc_field, enc_from, enc_items, field_wf, fields_wf, holds, picks, shape_wf, sib, tag_of, Case,
    ErrorKind, Field, FieldKind, Prim, Shape, Val,
};

verus! {

proof fn lemma_prim_round_trip(p: Prim, n: u32, rest: Seq<u8>)
    requires
        crate::bytes::fits(n, p.width()),
    ensures
        dec_prim(p, le_bytes(n, p.width()) + rest) == Ok::<(Val, nat), ErrorKind>(
            (Val::Num(n), le_bytes(n, p.width()).len()),
        ),
{
    let w = p.width();
    lemma_le_bytes_len(n, w);
    lemma_le_value_of_bytes(n, w);
    assert((le_bytes(n, w) + rest).take(w as int) =~= le_bytes(n, w));
}

/// Decoding what was encoded gives the value back and consumes exactly its
/// encoding, whatever follows it.
pub proof fn lemma_decode_encode(s: Shape, v: Val, rest: Seq<u8>)
    requires
        conforms(s, v, rest.len()),
    ensures
        dec(s, enc(s, v) + rest) == Ok::<(Val, nat), ErrorKind>((v, enc(s, v).len())),
    decreases v, 0nat,
{
    match (s, v) {
        (Shape::Prim(p), Val::Num(n)) => {
            lemma_prim_round_trip(p, n, rest);
        },
        (Shape::OneOf(p, _), Val::Num(n)) => {
            lemma_prim_round_trip(p, n, rest);
        },
        (Shape::Array(e, _), Val::Items(xs)) => {
            lemma_items_decode_encode(*e, xs, rest);
        },
        (Shape::Pascal(e), Val::Items(xs)) => {
            let head = le_bytes(xs.len() as u32, 4);
            let b = enc(s, v) + rest;
            lemma_le_bytes_len(xs.len() as u32, 4);
            lemma_le_value_of_bytes(xs.len() as u32, 4);
            assert(b.take(4) =~= head);
            assert(b.skip(4) =~= enc_items(*e, xs) + rest);
            lemma_items_decode_encode(*e, xs, rest);
        },
        (Shape::Record(fs), Val::Items(xs)) => {
            lemma_fields_decode_encode(fs@, xs, 0, rest);
            assert(xs.take(0) =~= Seq::<Val>::empty());
        },
        _ => {},
    }
}

pub proof fn lemma_items_decode_encode(e: Shape, xs: Seq<Val>, rest: Seq<u8>)
    requires
        conforms_items(e, xs, rest.len()),
    ensures
        dec_items(e, enc_items(e, xs) + rest, xs.len()) == Ok::<(Seq<Val>, nat), ErrorKind>(
            (xs, enc_items(e, xs).len()),
        ),
    decreases xs, 1nat,
{
    if xs.len() == 0 {
        assert(xs =~= Seq::<Val>::empty());
    } else {
        let tail = xs.drop_first();
        let after = enc_items(e, tail) + rest;
        lemma_decode_encode(e, xs[0], after);
        let b = enc_items(e, xs) + rest;
        assert(b =~= enc(e, xs[0]) + after);
        assert(b.skip(enc(e, xs[0]).len() as int) =~= after);
        lemma_items_decode_encode(e, tail, rest);
        assert(seq![xs[0]] + tail =~= xs);
    }
}

proof fn lemma_field_decode_encode(fs: Seq<Field>, vs: Seq<Val>, j: int, rest: Seq<u8>)
    requires
        0 <= j < fs.len(),
        j < vs.len(),
        conforms_field(fs, vs, j, rest.len()),
    ensures
        dec_field(fs[j].kind, enc_field(fs, vs, j) + rest, vs.take(j)) == Ok::<(Val, nat), ErrorKind>(
            (vs[j], enc_field(fs, vs, j).len()),
        ),
    decreases vs, 0nat,
{
    let acc = vs.take(j);
    match fs[j].kind {
        FieldKind::Plain(s) => {
            lemma_decode_encode(s, vs[j], rest);
        },
        FieldKind::LenOf(p, t) => {
            lemma_prim_round_trip(p, crate::schema::len_of(vs, t), rest);
        },
        FieldKind::TagOf(p, t) => {
            lemma_prim_round_trip(p, crate::schema::tag_of(fs, vs, t), rest);
        },
        FieldKind::When(c, s) => {
            match vs[j] {
                Val::Present(x) => {
                    lemma_decode_encode(s, *x, rest);
                },
                _ => {
                    assert(Seq::<u8>::empty() + rest =~= rest);
                },
            }
        },
        FieldKind::Counted(a, o, e) => {
            match vs[j] {
                Val::Items(xs) => {
                    lemma_items_decode_encode(e, xs, rest);
                },
                _ => {},
            }
        },
        FieldKind::Switch(t, c, cases) => {
            match vs[j] {
                Val::Case(k, xs) => {
                    let tag = sib(acc, t);
                    let i = choose|i: int| picks(cases@, tag, i);
                    assert(i == k as int);
                    lemma_items_decode_encode(cases@[k as int].shape, xs, rest);
                },
                _ => {},
            }
        },
    }
}

pub proof fn lemma_fields_decode_encode(fs: Seq<Field>, vs: Seq<Val>, i: int, rest: Seq<u8>)
    requires
        vs.len() == fs.len(),
        0 <= i <= fs.len(),
        conforms_from(fs, vs, i, rest.len()),
    ensures
        dec_fields(fs, enc_from(fs, vs, i) + rest, vs.take(i)) == Ok::<(Seq<Val>, nat), ErrorKind>(
            (vs, enc_from(fs, vs, i).len()),
        ),
    decreases vs, 1nat, fs.len() - i,
{
    if i == fs.len() {
        assert(vs.take(i) =~= vs);
        assert(Seq::<u8>::empty() + rest =~= rest);
    } else {
        let after = enc_from(fs, vs, i + 1) + rest;
        lemma_field_decode_encode(fs, vs, i, after);
        let b = enc_from(fs, vs, i) + rest;
        assert(b =~= enc_field(fs, vs, i) + after);
        assert(b.skip(enc_field(fs, vs, i).len() as int) =~= after);
        assert(vs.take(i).push(vs[i]) =~= vs.take(i + 1));
        lemma_fields_decode_encode(fs, vs, i + 1, rest);
    }
}

proof fn lemma_prim_encode_decode(p: Prim, b: Seq<u8>)
    requires
        dec_prim(p, b) is Ok,
    ensures
        ({
            let (v, k) = dec_prim(p, b)->Ok_0;
            &&& k == p.width() <= b.len()
            &&& v is Num
            &&& crate::bytes::fits(v->Num_0, p.width())
            &&& le_bytes(v->Num_0, p.width()) == b.take(k as int)
        }),
{
    lemma_le_bytes_of_value(b.take(p.width() as int));
}

proof fn lemma_cases_wf_at(cases: Seq<Case>, i: int, k: int)
    requires
        cases_wf(cases, i),
        0 <= i <= k < cases.len(),
    ensures
        shape_wf(cases[k].shape),
    decreases k - i,
{
    if i < k {
        lemma_cases_wf_at(cases, i + 1, k);
    }
}

proof fn lemma_fields_wf_at(fs: Seq<Field>, i: int, k: int)
    requires
        fields_wf(fs, i),
        0 <= i <= k < fs.len(),
    ensures
        field_wf(fs, k),
    decreases k - i,
{
    if i < k {
        lemma_fields_wf_at(fs, i + 1, k);
    }
}

proof fn lemma_conforms_from_at(fs: Seq<Field>, vs: Seq<Val>, i: int, tail: nat, t: int)
    requires
        conforms_from(fs, vs, i, tail),
        0 <= i <= t < fs.len(),
        t < vs.len(),
    ensures
        conforms_field(fs, vs, t, enc_from(fs, vs, t + 1).len() + tail),
    decreases t - i,
{
    if i < t {
        lemma_conforms_from_at(fs, vs, i + 1, tail, t);
    }
}

/// Encoding what was decoded gives back exactly the bytes consumed, and the
/// decoded value is well formed.
pub proof fn lemma_encode_decode(s: Shape, b: Seq<u8>)
    requires
        shape_wf(s),
        dec(s, b) is Ok,
    ensures
        ({
            let (v, n) = dec(s, b)->Ok_0;
            &&& n <= b.len()
            &&& enc(s, v) == b.take(n as int)
            &&& conforms(s, v, (b.len() - n) as nat)
        }),
    decreases s, 0int,
{
    match s {
        Shape::Prim(p) => {
            lemma_prim_encode_decode(p, b);
        },
        Shape::OneOf(p, _) => {
            lemma_prim_encode_decode(p, b);
        },
        Shape::Array(e, n) => {
            lemma_items_encode_decode(*e, b, n as nat);
        },
        Shape::Pascal(e) => {
            let head = b.take(4);
            lemma_le_bytes_of_value(head);
            let n = crate::bytes::le_value(head);
            lemma_items_encode_decode(*e, b.skip(4), n as nat);
            let (xs, k) = dec_items(*e, b.skip(4), n as nat)->Ok_0;
            assert(xs.len() as u32 == n);
            assert(b.take((4 + k) as int) =~= head + b.skip(4).take(k as int));
        },
        Shape::Record(fs) => {
            assert(Seq::<Val>::empty().len() == 0);
            lemma_fields_encode_decode(fs@, b, Seq::empty());
            let (vs, k) = dec_fields(fs@, b, Seq::empty())->Ok_0;
            assert(vs.take(0) =~= Seq::<Val>::empty());
        },
    }
}

pub proof fn lemma_items_encode_decode(e: Shape, b: Seq<u8>, n: nat)
    requires
        shape_wf(e),
        dec_items(e, b, n) is Ok,
    ensures
        ({
            let (xs, k) = dec_items(e, b, n)->Ok_0;
            &&& k <= b.len()
            &&& xs.len() == n
            &&& enc_items(e, xs) == b.take(k as int)
            &&& conforms_items(e, xs, (b.len() - k) as nat)
        }),
    decreases e, n + 1,
{
    if n == 0 {
        assert(b.take(0) =~= Seq::<u8>::empty());
    } else {
        lemma_encode_decode(e, b);
        let (v, k1) = dec(e, b)->Ok_0;
        let b2 = b.skip(k1 as int);
        lemma_items_encode_decode(e, b2, (n - 1) as nat);
        let (vs, m) = dec_items(e, b2, (n - 1) as nat)->Ok_0;
        let xs = seq![v] + vs;
        assert(xs[0] == v);
        assert(xs.drop_first() =~= vs);
        assert(b.take((k1 + m) as int) =~= b.take(k1 as int) + b2.take(m as int));
    }
}

proof fn lemma_field_encode_decode(fs: Seq<Field>, vs: Seq<Val>, j: int, b: Seq<u8>, tail: nat)
    requires
        0 <= j < fs.len(),
        vs.len() == fs.len(),
        field_wf(fs, j),
        dec_field(fs[j].kind, b, vs.take(j)) is Ok,
        dec_field(fs[j].kind, b, vs.take(j))->Ok_0.0 == vs[j],
        conforms_from(fs, vs, j + 1, tail),
    ensures
        ({
            let k = dec_field(fs[j].kind, b, vs.take(j))->Ok_0.1;
            &&& k <= b.len()
            &&& enc_field(fs, vs, j) == b.take(k as int)
            &&& conforms_field(fs, vs, j, (b.len() - k) as nat)
        }),
    decreases fs, 0int,
{
    let acc = vs.take(j);
    let k = dec_field(fs[j].kind, b, acc)->Ok_0.1;
    match fs[j].kind {
        FieldKind::Plain(s) => {
            lemma_encode_decode(s, b);
        },
        FieldKind::LenOf(p, t) => {
            lemma_prim_encode_decode(p, b);
            lemma_conforms_from_at(fs, vs, j + 1, tail, t as int);
            match fs[t as int].kind {
                FieldKind::Counted(a, None, _) => {
                    assert(vs.take(t as int)[j] == vs[j]);
                },
                FieldKind::Switch(_, c, _) => {
                    assert(vs.take(t as int)[j] == vs[j]);
                },
                _ => {},
            }
        },
        FieldKind::TagOf(p, t) => {
            lemma_prim_encode_decode(p, b);
            lemma_conforms_from_at(fs, vs, j + 1, tail, t as int);
            match fs[t as int].kind {
                FieldKind::Switch(ts, _, _) => {
                    assert(vs.take(t as int)[j] == vs[j]);
                },
                _ => {},
            }
        },
        FieldKind::When(c, s) => {
            if holds(c, acc, b.len()) {
                lemma_encode_decode(s, b);
            } else {
                assert(b.take(0) =~= Seq::<u8>::empty());
            }
        },
        FieldKind::Counted(a, o, e) => {
            lemma_items_encode_decode(e, b, crate::schema::count_of(acc, a, o));
        },
        FieldKind::Switch(t, c, cases) => {
            let i = choose|i: int| picks(cases@, sib(acc, t), i);
            lemma_cases_wf_at(cases@, 0, i);
            lemma_items_encode_decode(cases@[i].shape, b, sib(acc, c) as nat);
        },
    }
}

pub proof fn lemma_fields_encode_decode(fs: Seq<Field>, b: Seq<u8>, acc: Seq<Val>)
    requires
        fields_wf(fs, 0),
        acc.len() <= fs.len(),
        dec_fields(fs, b, acc) is Ok,
    ensures
        ({
            let (vs, n) = dec_fields(fs, b, acc)->Ok_0;
            &&& n <= b.len()
            &&& vs.len() == fs.len()
            &&& vs.take(acc.len() as int) == acc
            &&& enc_from(fs, vs, acc.len() as int) == b.take(n as int)
            &&& conforms_from(fs, vs, acc.len() as int, (b.len() - n) as nat)
        }),
    decreases fs, fs.len() - acc.len(),
{
    let i = acc.len() as int;
    if i >= fs.len() {
        assert(acc.take(i) =~= acc);
        assert(b.take(0) =~= Seq::<u8>::empty());
    } else {
        let (v, k) = dec_field(fs[i].kind, b, acc)->Ok_0;
        let b2 = b.skip(k as int);
        lemma_fields_encode_decode(fs, b2, acc.push(v));
        let (vs, m) = dec_fields(fs, b2, acc.push(v))->Ok_0;
        assert(vs.take(i + 1).take(i) =~= vs.take(i));
        assert(vs.take(i) =~= acc);
        assert(vs[i] == vs.take(i + 1)[i]);
        lemma_fields_wf_at(fs, 0, i);
        assert(enc_from(fs, vs, i + 1).len() == m);
        lemma_field_encode_decode(fs, vs, i, b, (b2.len() - m) as nat);
        assert(b.take((k + m) as int) =~= b.take(k as int) + b2.take(m as int));
    }
}

/// A part that an adapter's layout can hold: raw bytes for a raw layout, a
/// well-formed record ending its buffer for a schema.
pub open spec fn part_conforms(l: Layout, p: PartV) -> bool {
    match (l, p) {
        (Layout::Raw, PartV::Raw(_)) => true,
        (Layout::Schema(s, _), PartV::Parsed(v)) => conforms(s, v, 0),
        _ => false,
    }
}

/// A layout whose decoding consumes the whole buffer and whose derived fields
/// are consistent.
pub open spec fn exact_layout(l: Layout) -> bool {
    layout_exact(l) && layout_wf(l)
}

/// Unpacking what was packed gives back the same part.
pub proof fn lemma_part_unpack_pack(l: Layout, p: PartV)
    requires
        part_conforms(l, p),
    ensures
        layout_dec(l, layout_enc(l, p)) == Ok::<PartV, ErrorKind>(p),
{
    match (l, p) {
        (Layout::Schema(s, _), PartV::Parsed(v)) => {
            lemma_decode_encode(s, v, Seq::empty());
            assert(enc(s, v) + Seq::<u8>::empty() =~= enc(s, v));
        },
        _ => {},
    }
}

/// For any adapter, unpacking what was packed from a well-formed object gives
/// the object back.
pub proof fn lemma_unpack_pack(a: Adapter, header: PartV, body: PartV)
    requires
        part_conforms(a.header, header),
        part_conforms(a.body, body),
    ensures
        layout_dec(a.header, layout_enc(a.header, header)) == Ok::<PartV, ErrorKind>(header),
        layout_dec(a.body, layout_enc(a.body, body)) == Ok::<PartV, ErrorKind>(body),
{
    lemma_part_unpack_pack(a.header, header);
    lemma_part_unpack_pack(a.body, body);
}

/// Packing what an exact layout unpacked gives back the same bytes.
pub proof fn lemma_part_pack_unpack(l: Layout, b: Seq<u8>)
    requires
        exact_layout(l),
        layout_dec(l, b) is Ok,
    ensures
        layout_enc(l, layout_dec(l, b)->Ok_0) == b,
{
    match l {
        Layout::Schema(s, _) => {
            lemma_encode_decode(s, b);
            assert(b.take(b.len() as int) =~= b);
        },
        Layout::Raw => {},
    }
}

/// For an adapter with exact layouts, packing what was unpacked from a
/// header and a body gives back both buffers byte for byte.
pub proof fn lemma_pack_unpack(a: Adapter, header: Seq<u8>, body: Seq<u8>)
    requires
        exact_layout(a.header),
        exact_layout(a.body),
        layout_dec(a.header, header) is Ok,
        layout_dec(a.body, body) is Ok,
    ensures
        layout_enc(a.header, layout_dec(a.header, header)->Ok_0) == header,
        layout_enc(a.body, layout_dec(a.body, body)->Ok_0) == body,
{
    lemma_part_pack_unpack(a.header, header);
    lemma_part_pack_unpack(a.body, body);
}

/// A tagged-variant field reads its elements with the shape of the case whose
/// tag is the discriminant, and fails with `UnmatchedVariant` when no case has
/// that tag.
pub proof fn lemma_variant_selects(t: usize, c: usize, cases: Seq<Case>, cases_vec: Vec<Case>, b: Seq<u8>, acc: Seq<Val>)
    requires
        cases_vec@ == cases,
    ensures
        (forall|k: int| 0 <= k < cases.len() ==> cases[k].tag != sib(acc, t)) ==> dec_field(
            FieldKind::Switch(t, c, cases_vec),
            b,
            acc,
        ) == Err::<(Val, nat), ErrorKind>(ErrorKind::UnmatchedVariant),
        forall|k: int|
            picks(cases, sib(acc, t), k) ==> dec_field(FieldKind::Switch(t, c, cases_vec), b, acc)
                == match dec_items(#[trigger] cases[k].shape, b, sib(acc, c) as nat) {
                Ok((vs, n)) => Ok::<(Val, nat), ErrorKind>((Val::Case(k as nat, vs), n)),
                Err(x) => Err(x),
            },
{
    assert forall|k: int| picks(cases, sib(acc, t), k) implies dec_field(
        FieldKind::Switch(t, c, cases_vec),
        b,
        acc,
    ) == match dec_items(#[trigger] cases[k].shape, b, sib(acc, c) as nat) {
        Ok((vs, n)) => Ok::<(Val, nat), ErrorKind>((Val::Case(k as nat, vs), n)),
        Err(x) => Err(x),
    } by {
        let i = choose|i: int| picks(cases, sib(acc, t), i);
        assert(i == k);
    }
}

/// In a well-formed record, an optional field that was unset is unset again
/// after encoding and decoding, and one set to a value comes back set to it.
pub proof fn lemma_optional_round_trip(fs: Vec<Field>, vs: Seq<Val>, j: int)
    requires
        conforms(Shape::Record(fs), Val::Items(vs), 0),
        0 <= j < fs@.len(),
        fs@[j].kind is When,
    ensures
        ({
            let r = dec(Shape::Record(fs), enc(Shape::Record(fs), Val::Items(vs)));
            &&& r is Ok
            &&& r->Ok_0.0 is Items
            &&& (r->Ok_0.0->Items_0[j] is Absent <==> vs[j] is Absent)
            &&& (forall|x: Val| vs[j] == Val::Present(Box::new(x)) ==> r->Ok_0.0->Items_0[j] == Val::Present(Box::new(x)))
        }),
{
    let s = Shape::Record(fs);
    let v = Val::Items(vs);
    lemma_decode_encode(s, v, Seq::empty());
    assert(enc(s, v) + Seq::<u8>::empty() =~= enc(s, v));
}

/// A hash field set to zero contributes no link; set to `h`, it contributes
/// exactly `h`.
pub proof fn lemma_field_link(v: Val, i: usize)
    ensures
        num_of(field_of(v, i as int)) == 0 ==> links(seq![LinkRule::Field(i)], v) == Seq::<u32>::empty(),
        num_of(field_of(v, i as int)) != 0 ==> links(seq![LinkRule::Field(i)], v) == seq![num_of(field_of(v, i as int))],
{
    let rules = seq![LinkRule::Field(i)];
    reveal_with_fuel(Seq::filter, 2);
    assert(rules.drop_last() =~= Seq::<LinkRule>::empty());
    assert(links(rules.drop_last(), v) == Seq::<u32>::empty());
    assert(rules.last() == LinkRule::Field(i));
    let hs = rule_hashes(LinkRule::Field(i), v);
    assert(hs.drop_last() =~= Seq::<u32>::empty());
    assert(Seq::<u32>::empty() + nonzero(hs) =~= nonzero(hs));
    assert(Seq::<u32>::empty().push(hs[0]) =~= seq![hs[0]]);
}

proof fn lemma_filter_all_links(hs: Seq<u32>)
    requires
        forall|k: int| 0 <= k < hs.len() ==> hs[k] != 0,
    ensures
        nonzero(hs) == hs,
    decreases hs.len(),
{
    reveal(Seq::filter);
    if hs.len() > 0 {
        lemma_filter_all_links(hs.drop_last());
        assert(hs.drop_last().push(hs.last()) =~= hs);
    }
}

/// A hash list read in reverse yields its non-zero hashes last first.
pub proof fn lemma_reversed_links(v: Val, i: usize)
    requires
        forall|k: int| 0 <= k < list_of(field_of(v, i as int)).len() ==> num_of(
            #[trigger] list_of(field_of(v, i as int))[k],
        ) != 0,
    ensures
        links(seq![LinkRule::ListReversed(i)], v) == rule_hashes(LinkRule::List(i), v).reverse(),
{
    let rules = seq![LinkRule::ListReversed(i)];
    let hs = rule_hashes(LinkRule::ListReversed(i), v);
    assert(rules.drop_last() =~= Seq::<LinkRule>::empty());
    assert(links(rules.drop_last(), v) == Seq::<u32>::empty());
    assert(rules.last() == LinkRule::ListReversed(i));
    assert(hs =~= rule_hashes(LinkRule::List(i), v).reverse());
    lemma_filter_all_links(hs);
    assert(Seq::<u32>::empty() + hs =~= hs);
}

/// What decoding a prefix of `m` bytes gives, against decoding the whole:
/// the same result where the whole took at most `m` bytes, a truncation
/// where it took more.
pub open spec fn cut_agrees<A>(
    whole: Result<(A, nat), ErrorKind>,
    prefix: Result<(A, nat), ErrorKind>,
    m: nat,
) -> bool {
    match whole {
        Ok((_, n)) => if n <= m {
            prefix == whole
        } else {
            prefix == Err::<(A, nat), ErrorKind>(ErrorKind::TruncatedInput)
        },
        Err(_) => true,
    }
}

proof fn lemma_cut_as_items(whole: Result<(Seq<Val>, nat), ErrorKind>, prefix: Result<(Seq<Val>, nat), ErrorKind>, m: nat, extra: nat)
    requires
        cut_agrees(whole, prefix, m),
    ensures
        cut_agrees(as_items(whole, extra), as_items(prefix, extra), m + extra),
{
}

proof fn lemma_prefix_prim(p: Prim, b: Seq<u8>, m: nat)
    requires
        m <= b.len(),
    ensures
        cut_agrees(dec_prim(p, b), dec_prim(p, b.take(m as int)), m),
{
    if p.width() <= m {
        assert(b.take(m as int).take(p.width() as int) =~= b.take(p.width() as int));
    }
}

proof fn lemma_blind_cases_at(cases: Seq<Case>, i: int, k: int)
    requires
        blind_cases(cases, i),
        0 <= i <= k < cases.len(),
    ensures
        blind(cases[k].shape),
    decreases k - i,
{
    if i < k {
        lemma_blind_cases_at(cases, i + 1, k);
    }
}

proof fn lemma_blind_fields_at(fs: Seq<Field>, i: int, k: int)
    requires
        blind_fields(fs, i),
        0 <= i <= k < fs.len(),
    ensures
        blind_kind(fs[k].kind),
    decreases k - i,
{
    if i < k {
        lemma_blind_fields_at(fs, i + 1, k);
    }
}

/// Decoding the first `m` bytes of a buffer agrees with decoding all of it.
pub proof fn lemma_prefix(s: Shape, b: Seq<u8>, m: nat)
    requires
        blind(s),
        m <= b.len(),
    ensures
        cut_agrees(dec(s, b), dec(s, b.take(m as int)), m),
    decreases s, 0int,
{
    let c = b.take(m as int);
    match s {
        Shape::Prim(p) => {
            lemma_prefix_prim(p, b, m);
        },
        Shape::OneOf(p, _) => {
            lemma_prefix_prim(p, b, m);
        },
        Shape::Array(e, n) => {
            lemma_prefix_items(*e, b, n as nat, m);
            lemma_cut_as_items(dec_items(*e, b, n as nat), dec_items(*e, c, n as nat), m, 0);
        },
        Shape::Pascal(e) => {
            if b.len() >= 4 && m >= 4 {
                assert(c.take(4) =~= b.take(4));
                assert(c.skip(4) =~= b.skip(4).take(m - 4));
                let n = crate::bytes::le_value(b.take(4)) as nat;
                lemma_prefix_items(*e, b.skip(4), n, (m - 4) as nat);
                lemma_cut_as_items(dec_items(*e, b.skip(4), n), dec_items(*e, c.skip(4), n), (m - 4) as nat, 4);
            }
        },
        Shape::Record(fs) => {
            lemma_prefix_fields(fs@, b, Seq::empty(), m);
            lemma_cut_as_items(dec_fields(fs@, b, Seq::empty()), dec_fields(fs@, c, Seq::empty()), m, 0);
        },
    }
}

pub proof fn lemma_prefix_items(e: Shape, b: Seq<u8>, n: nat, m: nat)
    requires
        blind(e),
        m <= b.len(),
    ensures
        cut_agrees(dec_items(e, b, n), dec_items(e, b.take(m as int), n), m),
    decreases e, n + 1,
{
    if n > 0 {
        let c = b.take(m as int);
        lemma_prefix(e, b, m);
        match dec(e, b) {
            Ok((v, k)) => {
                if k <= m {
                    assert(c.skip(k as int) =~= b.skip(k as int).take(m - k));
                    lemma_prefix_items(e, b.skip(k as int), (n - 1) as nat, (m - k) as nat);
                }
            },
            Err(_) => {},
        }
    }
}

proof fn lemma_prefix_field(k: FieldKind, b: Seq<u8>, acc: Seq<Val>, m: nat)
    requires
        blind_kind(k),
        m <= b.len(),
    ensures
        cut_agrees(dec_field(k, b, acc), dec_field(k, b.take(m as int), acc), m),
    decreases k, 0int,
{
    let c = b.take(m as int);
    match k {
        FieldKind::Plain(s) => {
            lemma_prefix(s, b, m);
        },
        FieldKind::LenOf(p, _) => {
            lemma_prefix_prim(p, b, m);
        },
        FieldKind::TagOf(p, _) => {
            lemma_prefix_prim(p, b, m);
        },
        FieldKind::When(cond, s) => {
            lemma_prefix(s, b, m);
        },
        FieldKind::Counted(a, o, e) => {
            let n = crate::schema::count_of(acc, a, o);
            lemma_prefix_items(e, b, n, m);
            lemma_cut_as_items(dec_items(e, b, n), dec_items(e, c, n), m, 0);
        },
        FieldKind::Switch(t, cn, cases) => {
            if exists|i: int| picks(cases@, sib(acc, t), i) {
                let i = choose|i: int| picks(cases@, sib(acc, t), i);
                lemma_blind_cases_at(cases@, 0, i);
                lemma_prefix_items(cases@[i].shape, b, sib(acc, cn) as nat, m);
            }
        },
    }
}

pub proof fn lemma_prefix_fields(fs: Seq<Field>, b: Seq<u8>, acc: Seq<Val>, m: nat)
    requires
        blind_fields(fs, 0),
        m <= b.len(),
    ensures
        cut_agrees(dec_fields(fs, b, acc), dec_fields(fs, b.take(m as int), acc), m),
    decreases fs, fs.len() - acc.len(),
{
    if acc.len() < fs.len() {
        let i = acc.len() as int;
        let c = b.take(m as int);
        lemma_blind_fields_at(fs, 0, i);
        lemma_prefix_field(fs[i].kind, b, acc, m);
        match dec_field(fs[i].kind, b, acc) {
            Ok((v, k)) => {
                if k <= m {
                    assert(c.skip(k as int) =~= b.skip(k as int).take(m - k));
                    lemma_prefix_fields(fs, b.skip(k as int), acc.push(v), (m - k) as nat);
                }
            },
            Err(_) => {},
        }
    }
}

/// Removing the last byte of a buffer that an exact schema accepts makes the
/// decode fail with `TruncatedInput`.
pub proof fn lemma_truncated_fails(s: Shape, b: Seq<u8>)
    requires
        blind(s),
        dec_all(s, true, b) is Ok,
        b.len() > 0,
    ensures
        dec_all(s, true, b.drop_last()) == Err::<Val, ErrorKind>(ErrorKind::TruncatedInput),
{
    lemma_prefix(s, b, (b.len() - 1) as nat);
    assert(b.drop_last() =~= b.take(b.len() - 1));
}

/// Removing the last byte of a buffer that an exact, length-blind schema
/// layout accepts makes unpacking fail with `TruncatedInput`.
pub proof fn lemma_part_truncated_fails(l: Layout, b: Seq<u8>)
    requires
        l is Schema,
        layout_exact(l),
        layout_blind(l),
        layout_dec(l, b) is Ok,
        b.len() > 0,
    ensures
        layout_dec(l, b.drop_last()) == Err::<PartV, ErrorKind>(ErrorKind::TruncatedInput),
{
    match l {
        Layout::Schema(s, exact) => {
            lemma_truncated_fails(s, b);
        },
        Layout::Raw => {},
    }
}

proof fn lemma_derived_ignored_from(fs: Seq<Field>, vs: Seq<Val>, j: int, x: Val, i: int)
    requires
        fields_wf(fs, 0),
        0 <= j < fs.len(),
        j < vs.len(),
        fs[j].kind is LenOf || fs[j].kind is TagOf,
        0 <= i,
    ensures
        enc_from(fs, vs.update(j, x), i) == enc_from(fs, vs, i),
    decreases fs.len() - i,
{
    let ws = vs.update(j, x);
    if i < fs.len() && i < vs.len() {
        lemma_derived_ignored_from(fs, vs, j, x, i + 1);
        lemma_fields_wf_at(fs, 0, i);
        match fs[i].kind {
            FieldKind::LenOf(_, t) => {
                assert(t as int != j);
                assert(crate::schema::len_of(ws, t) == crate::schema::len_of(vs, t));
            },
            FieldKind::TagOf(_, t) => {
                assert(t as int != j);
                assert(tag_of(fs, ws, t) == tag_of(fs, vs, t));
            },
            _ => {
                if i != j {
                    assert(ws[i] == vs[i]);
                }
            },
        }
        assert(enc_field(fs, ws, i) == enc_field(fs, vs, i));
    }
}

/// Encoding never reads the stored value of a derived count or discriminant:
/// it is recomputed from what the record holds. So a record whose derived
/// fields disagree with its contents packs as the record with them recomputed,
/// and unpacks to that record.
pub proof fn lemma_derived_ignored(fs: Vec<Field>, vs: Seq<Val>, j: int, x: Val)
    requires
        shape_wf(Shape::Record(fs)),
        0 <= j < fs@.len(),
        j < vs.len(),
        fs@[j].kind is LenOf || fs@[j].kind is TagOf,
    ensures
        enc(Shape::Record(fs), Val::Items(vs.update(j, x))) == enc(Shape::Record(fs), Val::Items(vs)),
{
    lemma_derived_ignored_from(fs@, vs, j, x, 0);
}

/// Decoding any strict prefix of a buffer that an exact, length-blind
/// schema accepts fails with `TruncatedInput`.
pub proof fn lemma_prefix_fails(s: Shape, b: Seq<u8>, m: nat)
    requires
        blind(s),
        dec_all(s, true, b) is Ok,
        m < b.len(),
    ensures
        dec_all(s, true, b.take(m as int)) == Err::<Val, ErrorKind>(ErrorKind::TruncatedInput),
{
    lemma_prefix(s, b, m);
}

/// In a vertex buffer, the stride selects the layout: 60, 48, 36 and 24 pick
/// the four-blend, one-blend, no-blend and position-uv layouts (cases 0 to 3),
/// whose vertices are read `count` times; any other stride fails with
/// `UnmatchedVariant`.
pub proof fn lemma_vertex_stride_selects(s: Shape, b: Seq<u8>, acc: Seq<Val>)
    requires
        vertex_buffer_is()(s),
    ensures
        s matches Shape::Record(fs) && fs@[3].kind matches FieldKind::Switch(t, c, cases) && t == 1
            && c == 0 && {
            let stride = sib(acc, 1);
            let r = dec_field(fs@[3].kind, b, acc);
            &&& (stride != 60 && stride != 48 && stride != 36 && stride != 24) ==> r == Err::<
                (Val, nat),
                ErrorKind,
            >(ErrorKind::UnmatchedVariant)
            &&& forall|k: int|
                0 <= k < 4 && #[trigger] cases@[k].tag == stride ==> r == match dec_items(
                    cases@[k].shape,
                    b,
                    sib(acc, 0) as nat,
                ) {
                    Ok((vs, n)) => Ok::<(Val, nat), ErrorKind>((Val::Case(k as nat, vs), n)),
                    Err(x) => Err(x),
                }
        },
{
    match s {
        Shape::Record(fs) => {
            let fields = fs@;
            assert(crate::layout::fields_are(fields, crate::layout::vertex_buffer_kinds()));
            assert((crate::layout::vertex_buffer_kinds()[3])(fields[3].kind));
            assert((crate::layout::switch_is(
                1,
                0,
                seq![60u32, 48, 36, 24],
                seq![
                    crate::layout::vertex_four_blend_is(),
                    crate::layout::vertex_one_blend_is(),
                    crate::layout::vertex_no_blend_is(),
                    crate::layout::vertex_position_uv_is(),
                ],
            ))(fields[3].kind));
            match fields[3].kind {
                FieldKind::Switch(t, c, cases) => {
                    lemma_variant_selects(t, c, cases@, cases, b, acc);
                    assert forall|k: int|
                        0 <= k < 4 && #[trigger] cases@[k].tag == sib(acc, 1) implies picks(
                        cases@,
                        sib(acc, 1),
                        k,
                    ) by {
                        assert(cases@[0].tag == 60 && cases@[1].tag == 48 && cases@[2].tag == 36
                            && cases@[3].tag == 24);
                    }
                },
                _ => {},
            }
        },
        _ => {},
    }
}

/// How many bytes a sound header takes from `x`: 8 for a zero sample rate;
/// else 16 where exactly 16 are there, 14 otherwise. Too few bytes fail.
#[verifier::rlimit(100)]
pub proof fn lemma_sound_header_decode(fs: Seq<Field>, x: Seq<u8>)
    requires
        fields_are(fs, sound_z_header_kinds()),
    ensures
        x.len() < 8 ==> dec_fields(fs, x, Seq::empty()) is Err,
        x.len() >= 8 && crate::bytes::le_value(x.subrange(4, 8)) == 0 ==> dec_fields(fs, x, Seq::empty()) is Ok
            && dec_fields(fs, x, Seq::empty())->Ok_0.1 == 8,
        x.len() >= 8 && crate::bytes::le_value(x.subrange(4, 8)) != 0 && x.len() < 14 ==> dec_fields(
            fs,
            x,
            Seq::empty(),
        ) is Err,
        x.len() >= 14 && crate::bytes::le_value(x.subrange(4, 8)) != 0 && dec_fields(fs, x, Seq::empty()) is Ok
            ==> dec_fields(fs, x, Seq::empty())->Ok_0.1 == if x.len() == 16 {
            16nat
        } else {
            14nat
        },
{
    let ks = sound_z_header_kinds();
    assert((ks[0])(fs[0].kind));
    assert((ks[1])(fs[1].kind));
    assert((ks[2])(fs[2].kind));
    assert((ks[3])(fs[3].kind));
    assert((ks[4])(fs[4].kind));
    let a0 = Seq::<Val>::empty();
    if x.len() < 4 {
        assert(dec_field(fs[0].kind, x, a0) is Err);
    } else {
        let v0 = Val::Num(crate::bytes::le_value(x.take(4)));
        assert(dec_field(fs[0].kind, x, a0) == Ok::<(Val, nat), ErrorKind>((v0, 4)));
        let x1 = x.skip(4);
        let a1 = a0.push(v0);
        if x.len() < 8 {
            assert(dec_field(fs[1].kind, x1, a1) is Err);
        } else {
            assert(x1.take(4) =~= x.subrange(4, 8));
            let sr = crate::bytes::le_value(x.subrange(4, 8));
            let v1 = Val::Num(sr);
            assert(dec_field(fs[1].kind, x1, a1) == Ok::<(Val, nat), ErrorKind>((v1, 4)));
            let x2 = x1.skip(4);
            let a2 = a1.push(v1);
            assert(x2 =~= x.skip(8));
            assert(sib(a2, 1) == sr);
            let c2 = fs[2].kind->When_0;
            let c3 = fs[3].kind->When_0;
            let c4 = fs[4].kind->When_0;
            assert(c2.values@ == seq![0u32]);
            assert(c3.values@ == seq![0u32]);
            assert(c4.values@ == seq![0u32]);
            assert(c2.values@[0] == 0u32);
            assert(c2.values@.contains(0u32));
            if sr == 0 {
                assert(!holds(c2, a2, x2.len()));
                assert(dec_field(fs[2].kind, x2, a2) == Ok::<(Val, nat), ErrorKind>((Val::Absent, 0)));
                let a3 = a2.push(Val::Absent);
                assert(x2.skip(0) =~= x2);
                assert(sib(a3, 1) == 0);
                assert(!holds(c3, a3, x2.len()));
                assert(dec_field(fs[3].kind, x2, a3) == Ok::<(Val, nat), ErrorKind>((Val::Absent, 0)));
                let a4 = a3.push(Val::Absent);
                assert(sib(a4, 1) == 0);
                assert(!holds(c4, a4, x2.len()));
                assert(dec_field(fs[4].kind, x2, a4) == Ok::<(Val, nat), ErrorKind>((Val::Absent, 0)));
                let a5 = a4.push(Val::Absent);
                assert(dec_fields(fs, x2, a5) == Ok::<(Seq<Val>, nat), ErrorKind>((a5, 0)));
                assert(dec_fields(fs, x2, a4) == Ok::<(Seq<Val>, nat), ErrorKind>((a5, 0)));
                assert(dec_fields(fs, x2, a3) == Ok::<(Seq<Val>, nat), ErrorKind>((a5, 0)));
                assert(dec_fields(fs, x2, a2) == Ok::<(Seq<Val>, nat), ErrorKind>((a5, 0)));
                assert(dec_fields(fs, x1, a1) == Ok::<(Seq<Val>, nat), ErrorKind>((a5, 4)));
            } else {
                assert(!c2.values@.contains(sr));
                assert(holds(c2, a2, x2.len()));
                if x.len() < 12 {
                    assert(dec_field(fs[2].kind, x2, a2) is Err);
                    assert(dec_fields(fs, x2, a2) is Err);
                    assert(dec_fields(fs, x1, a1) is Err);
                } else {
                    let v2 = Val::Num(crate::bytes::le_value(x2.take(4)));
                    assert(dec_field(fs[2].kind, x2, a2) == Ok::<(Val, nat), ErrorKind>(
                        (Val::Present(Box::new(v2)), 4),
                    ));
                    let x3 = x2.skip(4);
                    let a3 = a2.push(Val::Present(Box::new(v2)));
                    assert(sib(a3, 1) == sr);
                    assert(holds(c3, a3, x3.len()));
                    if x.len() < 14 {
                        assert(dec_field(fs[3].kind, x3, a3) is Err);
                        assert(dec_fields(fs, x3, a3) is Err);
                        assert(dec_fields(fs, x2, a2) is Err);
                        assert(dec_fields(fs, x1, a1) is Err);
                    } else {
                        match dec_field(fs[3].kind, x3, a3) {
                            Err(_) => {
                                assert(dec_fields(fs, x3, a3) is Err);
                                assert(dec_fields(fs, x2, a2) is Err);
                                assert(dec_fields(fs, x1, a1) is Err);
                            },
                            Ok((v3, k3)) => {
                                assert(k3 == 2);
                                let x4 = x3.skip(2);
                                let a4 = a3.push(v3);
                                assert(x4.len() == x.len() - 14);
                                assert(sib(a4, 1) == sr);
                                assert(c4.left == Some(2usize));
                                if x.len() == 16 {
                                    assert(holds(c4, a4, x4.len()));
                                    let v4 = Val::Num(crate::bytes::le_value(x4.take(2)));
                                    assert(dec_field(fs[4].kind, x4, a4) == Ok::<(Val, nat), ErrorKind>(
                                        (Val::Present(Box::new(v4)), 2),
                                    ));
                                    let a5 = a4.push(Val::Present(Box::new(v4)));
                                    assert(dec_fields(fs, x4.skip(2), a5) == Ok::<(Seq<Val>, nat), ErrorKind>((a5, 0)));
                                    assert(dec_fields(fs, x4, a4) == Ok::<(Seq<Val>, nat), ErrorKind>((a5, 2)));
                                    assert(dec_fields(fs, x3, a3) == Ok::<(Seq<Val>, nat), ErrorKind>((a5, 4)));
                                    assert(dec_fields(fs, x2, a2) == Ok::<(Seq<Val>, nat), ErrorKind>((a5, 8)));
                                    assert(dec_fields(fs, x1, a1) == Ok::<(Seq<Val>, nat), ErrorKind>((a5, 12)));
                                } else {
                                    assert(!holds(c4, a4, x4.len()));
                                    assert(dec_field(fs[4].kind, x4, a4) == Ok::<(Val, nat), ErrorKind>((Val::Absent, 0)));
                                    let a5 = a4.push(Val::Absent);
                                    assert(x4.skip(0) =~= x4);
                                    assert(dec_fields(fs, x4, a5) == Ok::<(Seq<Val>, nat), ErrorKind>((a5, 0)));
                                    assert(dec_fields(fs, x4, a4) == Ok::<(Seq<Val>, nat), ErrorKind>((a5, 0)));
                                    assert(dec_fields(fs, x3, a3) == Ok::<(Seq<Val>, nat), ErrorKind>((a5, 2)));
                                    assert(dec_fields(fs, x2, a2) == Ok::<(Seq<Val>, nat), ErrorKind>((a5, 6)));
                                    assert(dec_fields(fs, x1, a1) == Ok::<(Seq<Val>, nat), ErrorKind>((a5, 10)));
                                }
                            },
                        }
                    }
                }
            }
        }
    }
}

/// Removing the last byte of a sound header that decodes makes the decode
/// fail: the header's remaining-length test cannot turn a shorter buffer
/// into a valid one.
pub proof fn lemma_sound_header_truncated_fails(s: Shape, b: Seq<u8>)
    requires
        sound_z_header_is()(s),
        dec_all(s, true, b) is Ok,
        b.len() > 0,
    ensures
        dec_all(s, true, b.drop_last()) is Err,
{
    let c = b.drop_last();
    match s {
        Shape::Record(fs) => {
            lemma_sound_header_decode(fs@, b);
            lemma_sound_header_decode(fs@, c);
            if c.len() >= 8 {
                assert(c.subrange(4, 8) =~= b.subrange(4, 8));
            }
        },
        _ => {},
    }
}

/// Decoding ignores bytes after what it consumes: appending bytes to a
/// buffer that decodes leaves the result unchanged.
pub proof fn lemma_extend(s: Shape, b: Seq<u8>, extra: Seq<u8>)
    requires
        blind(s),
        dec(s, b) is Ok,
    ensures
        dec(s, b + extra) == dec(s, b),
    decreases s, 0int,
{
    let x = b + extra;
    match s {
        Shape::Prim(p) => {
            assert(x.take(p.width() as int) =~= b.take(p.width() as int));
        },
        Shape::OneOf(p, _) => {
            assert(x.take(p.width() as int) =~= b.take(p.width() as int));
        },
        Shape::Array(e, n) => {
            lemma_extend_items(*e, b, extra, n as nat);
        },
        Shape::Pascal(e) => {
            assert(x.take(4) =~= b.take(4));
            assert(x.skip(4) =~= b.skip(4) + extra);
            lemma_extend_items(*e, b.skip(4), extra, crate::bytes::le_value(b.take(4)) as nat);
        },
        Shape::Record(fs) => {
            lemma_extend_fields(fs@, b, extra, Seq::empty());
        },
    }
}

pub proof fn lemma_extend_items(e: Shape, b: Seq<u8>, extra: Seq<u8>, n: nat)
    requires
        blind(e),
        dec_items(e, b, n) is Ok,
    ensures
        dec_items(e, b + extra, n) == dec_items(e, b, n),
    decreases e, n + 1,
{
    if n > 0 {
        lemma_extend(e, b, extra);
        let (v, k) = dec(e, b)->Ok_0;
        lemma_consumed_len(e, b);
        assert((b + extra).skip(k as int) =~= b.skip(k as int) + extra);
        lemma_extend_items(e, b.skip(k as int), extra, (n - 1) as nat);
    }
}

proof fn lemma_consumed_len(e: Shape, b: Seq<u8>)
    requires
        blind(e),
        dec(e, b) is Ok,
    ensures
        dec(e, b)->Ok_0.1 <= b.len(),
{
    lemma_prefix(e, b, b.len());
    assert(b.take(b.len() as int) =~= b);
}

proof fn lemma_extend_field(k: FieldKind, b: Seq<u8>, extra: Seq<u8>, acc: Seq<Val>)
    requires
        blind_kind(k),
        dec_field(k, b, acc) is Ok,
    ensures
        dec_field(k, b + extra, acc) == dec_field(k, b, acc),
        dec_field(k, b, acc)->Ok_0.1 <= b.len(),
    decreases k, 0int,
{
    let x = b + extra;
    lemma_prefix_field(k, b, acc, b.len());
    assert(b.take(b.len() as int) =~= b);
    match k {
        FieldKind::Plain(s) => {
            lemma_extend(s, b, extra);
        },
        FieldKind::LenOf(p, _) => {
            assert(x.take(p.width() as int) =~= b.take(p.width() as int));
        },
        FieldKind::TagOf(p, _) => {
            assert(x.take(p.width() as int) =~= b.take(p.width() as int));
        },
        FieldKind::When(c, s) => {
            if holds(c, acc, b.len()) {
                lemma_extend(s, b, extra);
            }
        },
        FieldKind::Counted(a, o, e) => {
            lemma_extend_items(e, b, extra, crate::schema::count_of(acc, a, o));
        },
        FieldKind::Switch(t, cn, cases) => {
            if exists|i: int| picks(cases@, sib(acc, t), i) {
                let i = choose|i: int| picks(cases@, sib(acc, t), i);
                lemma_blind_cases_at(cases@, 0, i);
                lemma_extend_items(cases@[i].shape, b, extra, sib(acc, cn) as nat);
            }
        },
    }
}

pub proof fn lemma_extend_fields(fs: Seq<Field>, b: Seq<u8>, extra: Seq<u8>, acc: Seq<Val>)
    requires
        blind_fields(fs, 0),
        dec_fields(fs, b, acc) is Ok,
    ensures
        dec_fields(fs, b + extra, acc) == dec_fields(fs, b, acc),
    decreases fs, fs.len() - acc.len(),
{
    if acc.len() < fs.len() {
        let i = acc.len() as int;
        lemma_blind_fields_at(fs, 0, i);
        lemma_extend_field(fs[i].kind, b, extra, acc);
        let (v, k) = dec_field(fs[i].kind, b, acc)->Ok_0;
        assert((b + extra).skip(k as int) =~= b.skip(k as int) + extra);
        lemma_extend_fields(fs, b.skip(k as int), extra, acc.push(v));
    }
}

/// A schema that is not exact decodes a buffer with bytes appended to it as
/// it decodes the buffer itself.
pub proof fn lemma_inexact_ignores_appended(s: Shape, b: Seq<u8>, extra: Seq<u8>)
    requires
        blind(s),
        dec_all(s, false, b) is Ok,
    ensures
        dec_all(s, false, b + extra) == dec_all(s, false, b),
{
    lemma_extend(s, b, extra);
}

} // verus!
