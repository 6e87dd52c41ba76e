//! Encoding values into bytes, proved to agree with `enc`.
use vstd::prelude::*;
use crate::bytes::write_le;
use crate::schema::{
    enc, enc_field, enc_from, enc_items, len_of, lemma_vals_of, tag_of, val_of, vals_of, Field,
    FieldKind, Shape, Val, Value,
};

verus! {

/// Appends the bytes of `v` laid out as `s`.
pub fn encode(s: &Shape, v: &Value, out: &mut Vec<u8>)
    ensures
        final(out)@ == old(out)@ + enc(*s, v@),
    decreases v, 0nat,
{
    match (s, v) {
        (Shape::Prim(p), Value::Num(n)) => write_le(out, *n, p.size()),
        (Shape::OneOf(p, _), Value::Num(n)) => write_le(out, *n, p.size()),
        (Shape::Array(e, _), Value::Items(xs)) => encode_items(e, xs, out),
        (Shape::Pascal(e), Value::Items(xs)) => {
            proof {
                lemma_vals_of(xs@);
            }
            write_le(out, #[verifier::truncate] (xs.len() as u32), 4);
            encode_items(e, xs, out);
            assert(out@ =~= old(out)@ + enc(*s, v@));
        },
        (Shape::Record(fs), Value::Items(xs)) => encode_fields(fs, xs, out),
        _ => {
            assert(out@ =~= old(out)@ + enc(*s, v@));
        },
    }
}

/// Appends the bytes of each element of `xs` in order.
pub fn encode_items(e: &Shape, xs: &Vec<Value>, out: &mut Vec<u8>)
    ensures
        final(out)@ == old(out)@ + enc_items(*e, vals_of(xs@)),
    decreases xs, 1nat,
{
    let ghost whole = vals_of(xs@);
    proof {
        lemma_vals_of(xs@);
        assert(whole.skip(0) =~= whole);
        assert(out@ + enc_items(*e, whole) =~= old(out)@ + enc_items(*e, whole));
    }
    let mut i: usize = 0;
    while i < xs.len()
        invariant
            i <= xs@.len(),
            whole == vals_of(xs@),
            whole.len() == xs@.len(),
            forall|j: int| 0 <= j < xs@.len() ==> #[trigger] whole[j] == val_of(xs@[j]),
            out@ + enc_items(*e, whole.skip(i as int)) == old(out)@ + enc_items(*e, whole),
        decreases xs.len() - i,
    {
        let ghost before = out@;
        encode(e, &xs[i], out);
        proof {
            let rest = whole.skip(i as int);
            assert(rest[0] == whole[i as int]);
            assert(rest.drop_first() =~= whole.skip(i + 1));
            assert(enc_items(*e, rest) == enc(*e, rest[0]) + enc_items(*e, rest.drop_first()));
            assert(before + enc_items(*e, rest) =~= out@ + enc_items(*e, whole.skip(i + 1)));
        }
        i += 1;
    }
    assert(enc_items(*e, whole.skip(i as int)) == Seq::<u8>::empty());
    assert(out@ =~= out@ + Seq::<u8>::empty());
}

fn len_at(vs: &Vec<Value>, t: usize) -> (r: u32)
    ensures
        r == len_of(vals_of(vs@), t),
{
    proof {
        lemma_vals_of(vs@);
    }
    if t < vs.len() {
        match &vs[t] {
            Value::Items(xs) => {
                proof {
                    lemma_vals_of(xs@);
                }
                #[verifier::truncate] (xs.len() as u32)
            },
            Value::Case(_, xs) => {
                proof {
                    lemma_vals_of(xs@);
                }
                #[verifier::truncate] (xs.len() as u32)
            },
            _ => 0,
        }
    } else {
        0
    }
}

fn tag_at(fs: &Vec<Field>, vs: &Vec<Value>, t: usize) -> (r: u32)
    ensures
        r == tag_of(fs@, vals_of(vs@), t),
{
    proof {
        lemma_vals_of(vs@);
    }
    if t < fs.len() && t < vs.len() {
        match (&fs[t].kind, &vs[t]) {
            (FieldKind::Switch(_, _, cases), Value::Case(k, _)) => if *k < cases.len() {
                cases[*k].tag
            } else {
                0
            },
            _ => 0,
        }
    } else {
        0
    }
}

/// Appends the bytes of field `j` of a record.
pub fn encode_field(fs: &Vec<Field>, vs: &Vec<Value>, j: usize, out: &mut Vec<u8>)
    requires
        j < fs@.len(),
        j < vs@.len(),
    ensures
        final(out)@ == old(out)@ + enc_field(fs@, vals_of(vs@), j as int),
    decreases vs, 0nat,
{
    proof {
        lemma_vals_of(vs@);
    }
    match &fs[j].kind {
        FieldKind::Plain(s) => encode(s, &vs[j], out),
        FieldKind::LenOf(p, t) => {
            let n = len_at(vs, *t);
            write_le(out, n, p.size());
        },
        FieldKind::TagOf(p, t) => {
            let n = tag_at(fs, vs, *t);
            write_le(out, n, p.size());
        },
        FieldKind::When(_, s) => match &vs[j] {
            Value::Present(x) => encode(s, x, out),
            _ => {
                assert(out@ =~= old(out)@ + Seq::<u8>::empty());
            },
        },
        FieldKind::Counted(_, _, e) => match &vs[j] {
            Value::Items(xs) => encode_items(e, xs, out),
            _ => {
                assert(out@ =~= old(out)@ + Seq::<u8>::empty());
            },
        },
        FieldKind::Switch(_, _, cases) => match &vs[j] {
            Value::Case(k, xs) => if *k < cases.len() {
                encode_items(&cases[*k].shape, xs, out);
            } else {
                assert(out@ =~= old(out)@ + Seq::<u8>::empty());
            },
            _ => {
                assert(out@ =~= old(out)@ + Seq::<u8>::empty());
            },
        },
    }
}

/// Appends the bytes of the fields of a record in order.
pub fn encode_fields(fs: &Vec<Field>, vs: &Vec<Value>, out: &mut Vec<u8>)
    ensures
        final(out)@ == old(out)@ + enc_from(fs@, vals_of(vs@), 0),
    decreases vs, 1nat,
{
    let ghost whole = vals_of(vs@);
    proof {
        lemma_vals_of(vs@);
        assert(out@ + enc_from(fs@, whole, 0) =~= old(out)@ + enc_from(fs@, whole, 0));
    }
    let mut i: usize = 0;
    while i < fs.len() && i < vs.len()
        invariant
            i <= fs@.len(),
            i <= vs@.len(),
            whole == vals_of(vs@),
            whole.len() == vs@.len(),
            out@ + enc_from(fs@, whole, i as int) == old(out)@ + enc_from(fs@, whole, 0),
        decreases fs.len() - i,
    {
        let ghost before = out@;
        encode_field(fs, vs, i, out);
        proof {
            assert(before + enc_from(fs@, whole, i as int) =~= out@ + enc_from(fs@, whole, i + 1));
        }
        i += 1;
    }
    assert(enc_from(fs@, whole, i as int) == Seq::<u8>::empty());
    assert(out@ =~= out@ + Seq::<u8>::empty());
}

/// The bytes of `v` laid out as `s`.
pub fn encode_all(s: &Shape, v: &Value) -> (r: Vec<u8>)
    ensures
        r@ == enc(*s, v@),
{
    let mut out: Vec<u8> = Vec::new();
    encode(s, v, &mut out);
    assert(out@ =~= enc(*s, v@));
    out
}

} // verus!
