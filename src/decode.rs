//! Decoding bytes into values, proved to agree with `dec`.
use vstd::prelude::*;
use crate::bytes::read_le;
use crate::schema::{
    dec, dec_field, dec_fields, dec_items, dec_prim, holds, lemma_vals_of, picks, sib, val_of, vals_of,
    Case, Cond, ErrorKind, Field, FieldKind, Prim, Shape, Val, Value, dec_all, path, path_all,
    path_field, path_fields, path_items,
};
pub use crate::schema::Step;

verus! {


/// A failed decode: why, and where, innermost step first.
#[derive(Debug, PartialEq, Eq)]
pub struct ParseFailure {
    pub kind: ErrorKind,
    pub path: Vec<Step>,
}

pub open spec fn join_items(
    done: Seq<Val>,
    used: nat,
    r: Result<(Seq<Val>, nat), ErrorKind>,
) -> Result<(Seq<Val>, nat), ErrorKind> {
    match r {
        Ok((vs, m)) => Ok((done + vs, used + m)),
        Err(x) => Err(x),
    }
}

pub open spec fn join_fields(used: nat, r: Result<(Seq<Val>, nat), ErrorKind>) -> Result<
    (Seq<Val>, nat),
    ErrorKind,
> {
    match r {
        Ok((vs, m)) => Ok((vs, used + m)),
        Err(x) => Err(x),
    }
}

fn fail(kind: ErrorKind) -> (r: ParseFailure)
    ensures
        r.kind == kind,
        r.path@ == Seq::<Step>::empty(),
{
    ParseFailure { kind, path: Vec::new() }
}

proof fn lemma_vals_push(xs: Seq<Value>, v: Value)
    ensures
        vals_of(xs.push(v)) == vals_of(xs).push(val_of(v)),
{
    assert(xs.push(v).drop_last() =~= xs);
}

fn decode_prim(p: &Prim, b: &[u8], pos: usize) -> (r: Result<(u32, usize), ParseFailure>)
    requires
        pos <= b@.len(),
    ensures
        match r {
            Ok((n, k)) => dec_prim(*p, b@.skip(pos as int)) == Ok::<(Val, nat), ErrorKind>(
                (Val::Num(n), k as nat),
            ) && pos + k <= b@.len(),
            Err(f) => dec_prim(*p, b@.skip(pos as int)) == Err::<(Val, nat), ErrorKind>(f.kind)
                && f.path@ == Seq::<Step>::empty(),
        },
{
    let w = p.size();
    if b.len() - pos < w {
        Err(fail(ErrorKind::TruncatedInput))
    } else {
        let n = read_le(b, pos, w);
        assert(b@.skip(pos as int).take(w as int) =~= b@.subrange(pos as int, pos + w));
        Ok((n, w))
    }
}

fn contains(xs: &Vec<u32>, x: u32) -> (r: bool)
    ensures
        r == xs@.contains(x),
{
    let mut i: usize = 0;
    while i < xs.len()
        invariant
            i <= xs@.len(),
            forall|j: int| 0 <= j < i ==> xs@[j] != x,
        decreases xs.len() - i,
    {
        if xs[i] == x {
            return true;
        }
        i += 1;
    }
    false
}

fn sibling(acc: &Vec<Value>, j: usize) -> (r: u32)
    ensures
        r == sib(vals_of(acc@), j),
{
    proof {
        lemma_vals_of(acc@);
    }
    if j < acc.len() {
        match &acc[j] {
            Value::Num(n) => *n,
            _ => 0,
        }
    } else {
        0
    }
}

/// Decodes `s` at `pos`: the value and the number of bytes it took.
pub fn decode(s: &Shape, b: &[u8], pos: usize) -> (r: Result<(Value, usize), ParseFailure>)
    requires
        pos <= b@.len(),
    ensures
        match r {
            Ok((v, k)) => dec(*s, b@.skip(pos as int)) == Ok::<(Val, nat), ErrorKind>(
                (v@, k as nat),
            ) && pos + k <= b@.len(),
            Err(f) => dec(*s, b@.skip(pos as int)) == Err::<(Val, nat), ErrorKind>(f.kind)
                && f.path@ == path(*s, b@.skip(pos as int)),
        },
    decreases s, 0nat,
{
    match s {
        Shape::Prim(p) => match decode_prim(p, b, pos) {
            Ok((n, k)) => Ok((Value::Num(n), k)),
            Err(f) => Err(f),
        },
        Shape::OneOf(p, allowed) => match decode_prim(p, b, pos) {
            Ok((n, k)) => if contains(allowed, n) {
                Ok((Value::Num(n), k))
            } else {
                Err(fail(ErrorKind::UnmatchedVariant))
            },
            Err(f) => Err(f),
        },
        Shape::Array(e, n) => match decode_items(e, b, pos, *n as u64) {
            Ok((vs, k)) => Ok((Value::Items(vs), k)),
            Err(f) => Err(f),
        },
        Shape::Pascal(e) => {
            if b.len() - pos < 4 {
                return Err(fail(ErrorKind::TruncatedInput));
            }
            let n = read_le(b, pos, 4);
            assert(b@.skip(pos as int).take(4) =~= b@.subrange(pos as int, pos + 4));
            assert(b@.skip(pos as int).skip(4) =~= b@.skip(pos + 4));
            match decode_items(e, b, pos + 4, n as u64) {
                Ok((vs, k)) => Ok((Value::Items(vs), k + 4)),
                Err(f) => Err(f),
            }
        },
        Shape::Record(fs) => match decode_fields(fs, b, pos) {
            Ok((vs, k)) => Ok((Value::Items(vs), k)),
            Err(f) => Err(f),
        },
    }
}

/// Decodes `n` elements of shape `e` one after the other.
pub fn decode_items(e: &Shape, b: &[u8], pos: usize, n: u64) -> (r: Result<
    (Vec<Value>, usize),
    ParseFailure,
>)
    requires
        pos <= b@.len(),
    ensures
        match r {
            Ok((vs, k)) => dec_items(*e, b@.skip(pos as int), n as nat) == Ok::<
                (Seq<Val>, nat),
                ErrorKind,
            >((vals_of(vs@), k as nat)) && pos + k <= b@.len(),
            Err(f) => dec_items(*e, b@.skip(pos as int), n as nat) == Err::<
                (Seq<Val>, nat),
                ErrorKind,
            >(f.kind) && f.path@ == path_items(*e, b@.skip(pos as int), n as nat, 0),
        },
    decreases e, 1nat,
{
    let mut vs: Vec<Value> = Vec::new();
    let mut off: usize = pos;
    let blen = b.len();
    let mut i: u64 = 0;
    assert(vals_of(vs@) =~= Seq::<Val>::empty());
    assert(b@.skip(pos as int) =~= b@.skip(off as int));
    while i < n
        invariant
            pos <= off <= b@.len(),
            blen == b@.len(),
            i <= n,
            dec_items(*e, b@.skip(pos as int), n as nat) == join_items(
                vals_of(vs@),
                (off - pos) as nat,
                dec_items(*e, b@.skip(off as int), (n - i) as nat),
            ),
            path_items(*e, b@.skip(pos as int), n as nat, 0) == path_items(
                *e,
                b@.skip(off as int),
                (n - i) as nat,
                i as nat,
            ),
        decreases n - i,
    {
        match decode(e, b, off) {
            Err(mut f) => {
                f.path.push(Step::Index(i));
                return Err(f);
            },
            Ok((v, k)) => {
                proof {
                    lemma_vals_push(vs@, v);
                    assert(b@.skip(off as int).skip(k as int) =~= b@.skip(off + k));
                    let rest = dec_items(*e, b@.skip(off + k), (n - i - 1) as nat);
                    match rest {
                        Ok((ws, m)) => {
                            assert(vals_of(vs@).push(v@) + ws =~= vals_of(vs@) + (seq![v@] + ws));
                        },
                        Err(_) => {},
                    }
                }
                vs.push(v);
                off = off + k;
                i = i + 1;
            },
        }
    }
    assert(vals_of(vs@) + Seq::<Val>::empty() =~= vals_of(vs@));
    Ok((vs, off - pos))
}

fn holds_now(c: &Cond, acc: &Vec<Value>, left: usize) -> (r: bool)
    ensures
        r == holds(*c, vals_of(acc@), left as nat),
{
    let v = sibling(acc, c.sibling);
    let m = contains(&c.values, v);
    if m != c.member {
        return false;
    }
    match c.left {
        Some(n) => left == n,
        None => true,
    }
}

fn find_case(cases: &Vec<Case>, tag: u32) -> (r: Option<usize>)
    ensures
        match r {
            Some(i) => picks(cases@, tag, i as int),
            None => !exists|i: int| picks(cases@, tag, i),
        },
{
    let mut i: usize = 0;
    while i < cases.len()
        invariant
            i <= cases@.len(),
            forall|j: int| 0 <= j < i ==> cases@[j].tag != tag,
        decreases cases.len() - i,
    {
        if cases[i].tag == tag {
            return Some(i);
        }
        i += 1;
    }
    None
}

/// Decodes one field, given its already decoded siblings.
pub fn decode_field(k: &FieldKind, b: &[u8], pos: usize, acc: &Vec<Value>) -> (r: Result<
    (Value, usize),
    ParseFailure,
>)
    requires
        pos <= b@.len(),
    ensures
        match r {
            Ok((v, n)) => dec_field(*k, b@.skip(pos as int), vals_of(acc@)) == Ok::<
                (Val, nat),
                ErrorKind,
            >((v@, n as nat)) && pos + n <= b@.len(),
            Err(f) => dec_field(*k, b@.skip(pos as int), vals_of(acc@)) == Err::<
                (Val, nat),
                ErrorKind,
            >(f.kind) && f.path@ == path_field(*k, b@.skip(pos as int), vals_of(acc@)),
        },
    decreases k, 0nat,
{
    match k {
        FieldKind::Plain(s) => decode(s, b, pos),
        FieldKind::LenOf(p, _) => match decode_prim(p, b, pos) {
            Ok((n, w)) => Ok((Value::Num(n), w)),
            Err(f) => Err(f),
        },
        FieldKind::TagOf(p, _) => match decode_prim(p, b, pos) {
            Ok((n, w)) => Ok((Value::Num(n), w)),
            Err(f) => Err(f),
        },
        FieldKind::When(c, s) => {
            if holds_now(c, acc, b.len() - pos) {
                match decode(s, b, pos) {
                    Ok((v, n)) => Ok((Value::Present(Box::new(v)), n)),
                    Err(f) => Err(f),
                }
            } else {
                Ok((Value::Absent, 0))
            }
        },
        FieldKind::Counted(a, o, e) => {
            let x = sibling(acc, *a) as u64;
            let n = match o {
                Some(j) => {
                    let y = sibling(acc, *j) as u64;
                    assert(x * y <= 0xffff_ffff * 0xffff_ffff) by (nonlinear_arith)
                        requires
                            x <= 0xffff_ffff,
                            y <= 0xffff_ffff,
                    ;
                    x * y
                },
                None => x,
            };
            match decode_items(e, b, pos, n) {
                Ok((vs, m)) => Ok((Value::Items(vs), m)),
                Err(f) => Err(f),
            }
        },
        FieldKind::Switch(t, c, cases) => {
            let tag = sibling(acc, *t);
            match find_case(cases, tag) {
                None => Err(fail(ErrorKind::UnmatchedVariant)),
                Some(i) => {
                    let n = sibling(acc, *c) as u64;
                    proof {
                        let j = choose|j: int| picks(cases@, sib(vals_of(acc@), *t), j);
                        assert(j == i as int);
                    }
                    match decode_items(&cases[i].shape, b, pos, n) {
                        Ok((vs, m)) => Ok((Value::Case(i, vs), m)),
                        Err(f) => Err(f),
                    }
                },
            }
        },
    }
}

/// Decodes the fields of a record in order.
pub fn decode_fields(fs: &Vec<Field>, b: &[u8], pos: usize) -> (r: Result<
    (Vec<Value>, usize),
    ParseFailure,
>)
    requires
        pos <= b@.len(),
    ensures
        match r {
            Ok((vs, k)) => dec_fields(fs@, b@.skip(pos as int), Seq::empty()) == Ok::<
                (Seq<Val>, nat),
                ErrorKind,
            >((vals_of(vs@), k as nat)) && pos + k <= b@.len(),
            Err(f) => dec_fields(fs@, b@.skip(pos as int), Seq::empty()) == Err::<
                (Seq<Val>, nat),
                ErrorKind,
            >(f.kind) && f.path@ == path_fields(fs@, b@.skip(pos as int), Seq::empty()),
        },
    decreases fs, 1nat,
{
    let mut vs: Vec<Value> = Vec::new();
    let mut off: usize = pos;
    let blen = b.len();
    let mut i: usize = 0;
    assert(vals_of(vs@) =~= Seq::<Val>::empty());
    assert(b@.skip(pos as int) =~= b@.skip(off as int));
    while i < fs.len()
        invariant
            pos <= off <= b@.len(),
            blen == b@.len(),
            i <= fs@.len(),
            vs@.len() == i,
            dec_fields(fs@, b@.skip(pos as int), Seq::empty()) == join_fields(
                (off - pos) as nat,
                dec_fields(fs@, b@.skip(off as int), vals_of(vs@)),
            ),
            path_fields(fs@, b@.skip(pos as int), Seq::empty()) == path_fields(
                fs@,
                b@.skip(off as int),
                vals_of(vs@),
            ),
        decreases fs.len() - i,
    {
        proof {
            lemma_vals_of(vs@);
        }
        match decode_field(&fs[i].kind, b, off, &vs) {
            Err(mut f) => {
                f.path.push(Step::Field(fs[i].name));
                return Err(f);
            },
            Ok((v, k)) => {
                proof {
                    lemma_vals_push(vs@, v);
                    assert(b@.skip(off as int).skip(k as int) =~= b@.skip(off + k));
                }
                vs.push(v);
                off = off + k;
                i = i + 1;
            },
        }
    }
    proof {
        lemma_vals_of(vs@);
    }
    Ok((vs, off - pos))
}

/// Decodes a whole buffer; an exact schema must consume all of it.
pub fn decode_all(s: &Shape, exact: bool, b: &[u8]) -> (r: Result<Value, ParseFailure>)
    ensures
        match r {
            Ok(v) => dec_all(*s, exact, b@) == Ok::<Val, ErrorKind>(v@),
            Err(f) => dec_all(*s, exact, b@) == Err::<Val, ErrorKind>(f.kind) && f.path@ == path_all(
                *s,
                exact,
                b@,
            ),
        },
{
    assert(b@.skip(0) =~= b@);
    match decode(s, b, 0) {
        Ok((v, n)) => if exact && n != b.len() {
            Err(fail(ErrorKind::TrailingBytes))
        } else {
            Ok(v)
        },
        Err(f) => Err(f),
    }
}

} // verus!
