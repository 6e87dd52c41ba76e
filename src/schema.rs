//! The schema language, the values it describes, and what decoding and
//! encoding mean for each of them.
use vstd::prelude::*;
use crate::bytes::{le_value, le_bytes, fits};

verus! {

/// A fixed-width little-endian primitive. Signed and floating-point fields are
/// carried as their raw bit patterns, so a round trip preserves them exactly.
#[derive(Clone, Copy, Debug, PartialEq, Eq, Structural)]
pub enum Prim {
    U8,
    U16,
    I16,
    U32,
    I32,
    F32,
}

impl Prim {
    pub open spec fn width(self) -> nat {
        match self {
            Prim::U8 => 1,
            Prim::U16 | Prim::I16 => 2,
            _ => 4,
        }
    }

    /// Number of bytes the primitive occupies.
    pub fn size(&self) -> (r: usize)
        ensures
            r as nat == self.width(),
    {
        match self {
            Prim::U8 => 1,
            Prim::U16 | Prim::I16 => 2,
            _ => 4,
        }
    }
}

/// Presence test of a conditional field: the value of an earlier sibling is
/// (`member`) or is not (`!member`) one of `values`, and, when `left` is set,
/// exactly that many bytes remain in the buffer.
pub struct Cond {
    pub sibling: usize,
    pub values: Vec<u32>,
    pub member: bool,
    pub left: Option<usize>,
}

/// One shape of a tagged-variant field, selected by `tag`.
pub struct Case {
    pub tag: u32,
    pub name: &'static str,
    pub shape: Shape,
}

/// How a field of a record is laid out. Sibling references are indices into
/// the record's field list.
pub enum FieldKind {
    /// A shape that depends on nothing around it.
    Plain(Shape),
    /// An element count written from the length of the list at the sibling.
    LenOf(Prim, usize),
    /// A discriminant written from the case chosen at the sibling.
    TagOf(Prim, usize),
    /// Present exactly when the condition holds.
    When(Cond, Shape),
    /// A list whose count is the value of one earlier sibling, or the product
    /// of two.
    Counted(usize, Option<usize>, Shape),
    /// A list of `count` elements (the value of the second sibling) whose shape
    /// is the case whose tag equals the first sibling's value.
    Switch(usize, usize, Vec<Case>),
}

pub struct Field {
    pub name: &'static str,
    pub kind: FieldKind,
}

/// The structure of an encoded value.
pub enum Shape {
    Prim(Prim),
    /// A primitive restricted to a closed set of values.
    OneOf(Prim, Vec<u32>),
    /// Exactly `n` elements, no count on the wire.
    Array(Box<Shape>, usize),
    /// A four-byte element count followed by the elements.
    Pascal(Box<Shape>),
    Record(Vec<Field>),
}

/// The mathematical value of a decoded record.
pub enum Val {
    Num(u32),
    Items(Seq<Val>),
    Absent,
    Present(Box<Val>),
    Case(nat, Seq<Val>),
}

/// A decoded value: a number, the elements of a list or the fields of a
/// record, an optional field, or the elements of a tagged variant.
#[derive(Debug, PartialEq, Eq)]
pub enum Value {
    Num(u32),
    Items(Vec<Value>),
    Absent,
    Present(Box<Value>),
    Case(usize, Vec<Value>),
}

pub open spec fn val_of(v: Value) -> Val
    decreases v, 0nat,
{
    match v {
        Value::Num(n) => Val::Num(n),
        Value::Items(xs) => Val::Items(vals_of(xs@)),
        Value::Absent => Val::Absent,
        Value::Present(x) => Val::Present(Box::new(val_of(*x))),
        Value::Case(k, xs) => Val::Case(k as nat, vals_of(xs@)),
    }
}

pub open spec fn vals_of(xs: Seq<Value>) -> Seq<Val>
    decreases xs, 1nat,
{
    if xs.len() == 0 {
        Seq::empty()
    } else {
        vals_of(xs.drop_last()).push(val_of(xs.last()))
    }
}

impl View for Value {
    type V = Val;

    open spec fn view(&self) -> Val {
        val_of(*self)
    }
}

pub proof fn lemma_vals_of(xs: Seq<Value>)
    ensures
        vals_of(xs).len() == xs.len(),
        forall|i: int| 0 <= i < xs.len() ==> #[trigger] vals_of(xs)[i] == val_of(xs[i]),
    decreases xs.len(),
{
    if xs.len() > 0 {
        lemma_vals_of(xs.drop_last());
    }
}

/// The three ways a decode fails.
#[derive(Clone, Copy, Debug, PartialEq, Eq, Structural)]
pub enum ErrorKind {
    /// Fewer bytes remain than a field requires.
    TruncatedInput,
    /// An exact schema left bytes unconsumed.
    TrailingBytes,
    /// A discriminant or a restricted value matches no known case.
    UnmatchedVariant,
}

/// One step of the path to the place where a decode failed.
#[derive(Clone, Copy, Debug, PartialEq, Eq)]
pub enum Step {
    /// Inside the named field of a record.
    Field(&'static str),
    /// Inside the element at this index of a repeated field.
    Index(u64),
}

/// The value of an earlier sibling, as decoding sees it.
pub open spec fn sib(acc: Seq<Val>, j: usize) -> u32 {
    if j < acc.len() {
        match acc[j as int] {
            Val::Num(n) => n,
            _ => 0,
        }
    } else {
        0
    }
}

pub open spec fn holds(c: Cond, acc: Seq<Val>, left: nat) -> bool {
    &&& c.values@.contains(sib(acc, c.sibling)) == c.member
    &&& match c.left {
        Some(n) => left == n,
        None => true,
    }
}

pub open spec fn count_of(acc: Seq<Val>, a: usize, o: Option<usize>) -> nat {
    match o {
        Some(b) => sib(acc, a) as nat * sib(acc, b) as nat,
        None => sib(acc, a) as nat,
    }
}

/// `k` is the first case whose tag is `tag`.
pub open spec fn picks(cases: Seq<Case>, tag: u32, k: int) -> bool {
    &&& 0 <= k < cases.len()
    &&& cases[k].tag == tag
    &&& forall|j: int| 0 <= j < k ==> cases[j].tag != tag
}

pub open spec fn dec_prim(p: Prim, b: Seq<u8>) -> Result<(Val, nat), ErrorKind> {
    if b.len() < p.width() {
        Err(ErrorKind::TruncatedInput)
    } else {
        Ok((Val::Num(le_value(b.take(p.width() as int))), p.width()))
    }
}

pub open spec fn as_items(r: Result<(Seq<Val>, nat), ErrorKind>, extra: nat) -> Result<(Val, nat), ErrorKind> {
    match r {
        Ok((vs, n)) => Ok((Val::Items(vs), n + extra)),
        Err(e) => Err(e),
    }
}

/// Decoding `s` from the front of `b`: the value and the number of bytes it
/// took, or why it failed.
pub open spec fn dec(s: Shape, b: Seq<u8>) -> Result<(Val, nat), ErrorKind>
    decreases s, 0nat,
{
    match s {
        Shape::Prim(p) => dec_prim(p, b),
        Shape::OneOf(p, allowed) => {
            match dec_prim(p, b) {
                Ok((Val::Num(n), k)) => if allowed@.contains(n) {
                    Ok((Val::Num(n), k))
                } else {
                    Err(ErrorKind::UnmatchedVariant)
                },
                r => r,
            }
        },
        Shape::Array(e, n) => as_items(dec_items(*e, b, n as nat), 0),
        Shape::Pascal(e) => if b.len() < 4 {
            Err(ErrorKind::TruncatedInput)
        } else {
            as_items(dec_items(*e, b.skip(4), le_value(b.take(4)) as nat), 4)
        },
        Shape::Record(fs) => as_items(dec_fields(fs@, b, Seq::empty()), 0),
    }
}

/// Decoding `n` elements of shape `e` one after the other.
pub open spec fn dec_items(e: Shape, b: Seq<u8>, n: nat) -> Result<(Seq<Val>, nat), ErrorKind>
    decreases e, n + 1,
{
    if n == 0 {
        Ok((Seq::empty(), 0))
    } else {
        match dec(e, b) {
            Err(x) => Err(x),
            Ok((v, k)) => match dec_items(e, b.skip(k as int), (n - 1) as nat) {
                Err(x) => Err(x),
                Ok((vs, m)) => Ok((seq![v] + vs, k + m)),
            },
        }
    }
}

/// Decoding one field, given its already decoded siblings `acc`.
pub open spec fn dec_field(k: FieldKind, b: Seq<u8>, acc: Seq<Val>) -> Result<(Val, nat), ErrorKind>
    decreases k, 0nat,
{
    match k {
        FieldKind::Plain(s) => dec(s, b),
        FieldKind::LenOf(p, _) => dec_prim(p, b),
        FieldKind::TagOf(p, _) => dec_prim(p, b),
        FieldKind::When(c, s) => if holds(c, acc, b.len()) {
            match dec(s, b) {
                Ok((v, n)) => Ok((Val::Present(Box::new(v)), n)),
                Err(x) => Err(x),
            }
        } else {
            Ok((Val::Absent, 0))
        },
        FieldKind::Counted(a, o, e) => as_items(dec_items(e, b, count_of(acc, a, o)), 0),
        FieldKind::Switch(t, c, cases) => if exists|i: int| picks(cases@, sib(acc, t), i) {
            let i = choose|i: int| picks(cases@, sib(acc, t), i);
            match dec_items(cases@[i].shape, b, sib(acc, c) as nat) {
                Ok((vs, n)) => Ok((Val::Case(i as nat, vs), n)),
                Err(x) => Err(x),
            }
        } else {
            Err(ErrorKind::UnmatchedVariant)
        },
    }
}

/// Decoding the fields of a record that follow the decoded siblings `acc`.
pub open spec fn dec_fields(fs: Seq<Field>, b: Seq<u8>, acc: Seq<Val>) -> Result<(Seq<Val>, nat), ErrorKind>
    decreases fs, fs.len() - acc.len(),
{
    if acc.len() >= fs.len() {
        Ok((acc, 0))
    } else {
        match dec_field(fs[acc.len() as int].kind, b, acc) {
            Err(x) => Err(x),
            Ok((v, n)) => match dec_fields(fs, b.skip(n as int), acc.push(v)) {
                Err(x) => Err(x),
                Ok((vs, m)) => Ok((vs, n + m)),
            },
        }
    }
}

/// Decoding a whole buffer: an exact schema must consume all of it.
pub open spec fn dec_all(s: Shape, exact: bool, b: Seq<u8>) -> Result<Val, ErrorKind> {
    match dec(s, b) {
        Ok((v, n)) => if exact && n != b.len() {
            Err(ErrorKind::TrailingBytes)
        } else {
            Ok(v)
        },
        Err(x) => Err(x),
    }
}

/// Where decoding `s` from `b` fails, innermost step first: the element
/// indices and field names leading to the place of the failure.
pub open spec fn path(s: Shape, b: Seq<u8>) -> Seq<Step>
    decreases s, 0nat,
{
    match s {
        Shape::Array(e, n) => path_items(*e, b, n as nat, 0),
        Shape::Pascal(e) => if b.len() < 4 {
            Seq::empty()
        } else {
            path_items(*e, b.skip(4), le_value(b.take(4)) as nat, 0)
        },
        Shape::Record(fs) => path_fields(fs@, b, Seq::empty()),
        _ => Seq::empty(),
    }
}

/// Where decoding `n` elements fails; `i` is the index of the first.
pub open spec fn path_items(e: Shape, b: Seq<u8>, n: nat, i: nat) -> Seq<Step>
    decreases e, n + 1,
{
    if n == 0 {
        Seq::empty()
    } else {
        match dec(e, b) {
            Err(_) => path(e, b).push(Step::Index(i as u64)),
            Ok((_, k)) => path_items(e, b.skip(k as int), (n - 1) as nat, i + 1),
        }
    }
}

/// Where decoding one field fails, inside the field.
pub open spec fn path_field(k: FieldKind, b: Seq<u8>, acc: Seq<Val>) -> Seq<Step>
    decreases k, 0nat,
{
    match k {
        FieldKind::Plain(s) => path(s, b),
        FieldKind::When(c, s) => if holds(c, acc, b.len()) {
            path(s, b)
        } else {
            Seq::empty()
        },
        FieldKind::Counted(a, o, e) => path_items(e, b, count_of(acc, a, o), 0),
        FieldKind::Switch(t, c, cases) => if exists|i: int| picks(cases@, sib(acc, t), i) {
            let i = choose|i: int| picks(cases@, sib(acc, t), i);
            path_items(cases@[i].shape, b, sib(acc, c) as nat, 0)
        } else {
            Seq::empty()
        },
        _ => Seq::empty(),
    }
}

/// Where decoding the fields after `acc` fails: inside the first field that
/// fails, then that field's name.
pub open spec fn path_fields(fs: Seq<Field>, b: Seq<u8>, acc: Seq<Val>) -> Seq<Step>
    decreases fs, fs.len() - acc.len(),
{
    if acc.len() >= fs.len() {
        Seq::empty()
    } else {
        match dec_field(fs[acc.len() as int].kind, b, acc) {
            Err(_) => path_field(fs[acc.len() as int].kind, b, acc).push(
                Step::Field(fs[acc.len() as int].name),
            ),
            Ok((v, n)) => path_fields(fs, b.skip(n as int), acc.push(v)),
        }
    }
}

/// Where decoding a whole buffer fails; unconsumed bytes have an empty path.
pub open spec fn path_all(s: Shape, exact: bool, b: Seq<u8>) -> Seq<Step> {
    match dec(s, b) {
        Err(_) => path(s, b),
        Ok(_) => Seq::empty(),
    }
}

/// The length of the list held at sibling `t`.
pub open spec fn len_of(vs: Seq<Val>, t: usize) -> u32 {
    if t < vs.len() {
        match vs[t as int] {
            Val::Items(xs) => xs.len() as u32,
            Val::Case(_, xs) => xs.len() as u32,
            _ => 0,
        }
    } else {
        0
    }
}

/// The tag of the case chosen at sibling `t`.
pub open spec fn tag_of(fs: Seq<Field>, vs: Seq<Val>, t: usize) -> u32 {
    if t < fs.len() && t < vs.len() {
        match (fs[t as int].kind, vs[t as int]) {
            (FieldKind::Switch(_, _, cases), Val::Case(k, _)) => if k < cases@.len() {
                cases@[k as int].tag
            } else {
                0
            },
            _ => 0,
        }
    } else {
        0
    }
}

/// The bytes of `v` laid out as `s`.
pub open spec fn enc(s: Shape, v: Val) -> Seq<u8>
    decreases v, 0nat,
{
    match (s, v) {
        (Shape::Prim(p), Val::Num(n)) => le_bytes(n, p.width()),
        (Shape::OneOf(p, _), Val::Num(n)) => le_bytes(n, p.width()),
        (Shape::Array(e, _), Val::Items(xs)) => enc_items(*e, xs),
        (Shape::Pascal(e), Val::Items(xs)) => le_bytes(xs.len() as u32, 4) + enc_items(*e, xs),
        (Shape::Record(fs), Val::Items(xs)) => enc_from(fs@, xs, 0),
        _ => Seq::empty(),
    }
}

pub open spec fn enc_items(e: Shape, xs: Seq<Val>) -> Seq<u8>
    decreases xs, 1nat,
{
    if xs.len() == 0 {
        Seq::empty()
    } else {
        enc(e, xs[0]) + enc_items(e, xs.drop_first())
    }
}

/// The bytes of field `j`. Counts and discriminants are derived from what is
/// present, never taken from the stored value.
pub open spec fn enc_field(fs: Seq<Field>, vs: Seq<Val>, j: int) -> Seq<u8>
    decreases vs, 0nat,
{
    if 0 <= j < fs.len() && j < vs.len() {
        match fs[j].kind {
            FieldKind::Plain(s) => enc(s, vs[j]),
            FieldKind::LenOf(p, t) => le_bytes(len_of(vs, t), p.width()),
            FieldKind::TagOf(p, t) => le_bytes(tag_of(fs, vs, t), p.width()),
            FieldKind::When(_, s) => match vs[j] {
                Val::Present(x) => enc(s, *x),
                _ => Seq::empty(),
            },
            FieldKind::Counted(_, _, e) => match vs[j] {
                Val::Items(xs) => enc_items(e, xs),
                _ => Seq::empty(),
            },
            FieldKind::Switch(_, _, cases) => match vs[j] {
                Val::Case(k, xs) => if k < cases@.len() {
                    enc_items(cases@[k as int].shape, xs)
                } else {
                    Seq::empty()
                },
                _ => Seq::empty(),
            },
        }
    } else {
        Seq::empty()
    }
}

/// The bytes of fields `i` onwards.
pub open spec fn enc_from(fs: Seq<Field>, vs: Seq<Val>, i: int) -> Seq<u8>
    decreases vs, 1nat, fs.len() - i,
{
    if 0 <= i < fs.len() && i < vs.len() {
        enc_field(fs, vs, i) + enc_from(fs, vs, i + 1)
    } else {
        Seq::empty()
    }
}

/// A value that is well formed for `s` when `tail` bytes follow its
/// encoding: every number fits its width, every list has the length its
/// count demands, an optional field is set exactly when its condition holds,
/// and a variant is the case its discriminant selects.
pub open spec fn conforms(s: Shape, v: Val, tail: nat) -> bool
    decreases v, 0nat,
{
    match (s, v) {
        (Shape::Prim(p), Val::Num(n)) => fits(n, p.width()),
        (Shape::OneOf(p, allowed), Val::Num(n)) => fits(n, p.width()) && allowed@.contains(n),
        (Shape::Array(e, n), Val::Items(xs)) => xs.len() == n && conforms_items(*e, xs, tail),
        (Shape::Pascal(e), Val::Items(xs)) => xs.len() <= u32::MAX && conforms_items(*e, xs, tail),
        (Shape::Record(fs), Val::Items(xs)) => xs.len() == fs.len() && conforms_from(fs@, xs, 0, tail),
        _ => false,
    }
}

pub open spec fn conforms_items(e: Shape, xs: Seq<Val>, tail: nat) -> bool
    decreases xs, 1nat,
{
    if xs.len() == 0 {
        true
    } else {
        &&& conforms(e, xs[0], enc_items(e, xs.drop_first()).len() + tail)
        &&& conforms_items(e, xs.drop_first(), tail)
    }
}

/// Field `j` is well formed when `after` bytes follow it.
pub open spec fn conforms_field(fs: Seq<Field>, vs: Seq<Val>, j: int, after: nat) -> bool
    decreases vs, 0nat,
{
    if 0 <= j < fs.len() && j < vs.len() {
        let acc = vs.take(j);
        match fs[j].kind {
            FieldKind::Plain(s) => conforms(s, vs[j], after),
            FieldKind::LenOf(p, t) => vs[j] == Val::Num(len_of(vs, t)) && fits(len_of(vs, t), p.width()),
            FieldKind::TagOf(p, t) => vs[j] == Val::Num(tag_of(fs, vs, t)) && fits(tag_of(fs, vs, t), p.width()),
            FieldKind::When(c, s) => match vs[j] {
                Val::Absent => !holds(c, acc, after),
                Val::Present(x) => holds(c, acc, enc(s, *x).len() + after) && conforms(s, *x, after),
                _ => false,
            },
            FieldKind::Counted(a, o, e) => match vs[j] {
                Val::Items(xs) => xs.len() == count_of(acc, a, o) && conforms_items(e, xs, after),
                _ => false,
            },
            FieldKind::Switch(t, c, cases) => match vs[j] {
                Val::Case(k, xs) => {
                    &&& picks(cases@, sib(acc, t), k as int)
                    &&& xs.len() == sib(acc, c)
                    &&& conforms_items(cases@[k as int].shape, xs, after)
                },
                _ => false,
            },
        }
    } else {
        false
    }
}

pub open spec fn conforms_from(fs: Seq<Field>, vs: Seq<Val>, i: int, tail: nat) -> bool
    decreases vs, 1nat, fs.len() - i,
{
    if 0 <= i < fs.len() && i < vs.len() {
        &&& conforms_field(fs, vs, i, enc_from(fs, vs, i + 1).len() + tail)
        &&& conforms_from(fs, vs, i + 1, tail)
    } else {
        true
    }
}

/// A schema whose derived fields are consistent: a count written from a
/// list's length is the count that list is decoded with, and a discriminant
/// written from a variant is the one that selects it.
pub open spec fn shape_wf(s: Shape) -> bool
    decreases s, 0int,
{
    match s {
        Shape::Prim(_) => true,
        Shape::OneOf(_, _) => true,
        Shape::Array(e, _) => shape_wf(*e),
        Shape::Pascal(e) => shape_wf(*e),
        Shape::Record(fs) => fields_wf(fs@, 0),
    }
}

pub open spec fn fields_wf(fs: Seq<Field>, i: int) -> bool
    decreases fs, fs.len() - i,
{
    if 0 <= i < fs.len() {
        field_wf(fs, i) && fields_wf(fs, i + 1)
    } else {
        true
    }
}

pub open spec fn field_wf(fs: Seq<Field>, j: int) -> bool
    decreases fs, 0int,
{
    if 0 <= j < fs.len() {
        match fs[j].kind {
            FieldKind::Plain(s) => shape_wf(s),
            FieldKind::LenOf(_, t) => j < t < fs.len() && match fs[t as int].kind {
                FieldKind::Counted(a, None, _) => a == j,
                FieldKind::Switch(_, c, _) => c == j,
                _ => false,
            },
            FieldKind::TagOf(_, t) => j < t < fs.len() && match fs[t as int].kind {
                FieldKind::Switch(ts, _, _) => ts == j,
                _ => false,
            },
            FieldKind::When(_, s) => shape_wf(s),
            FieldKind::Counted(_, _, e) => shape_wf(e),
            FieldKind::Switch(_, _, cases) => cases_wf(cases@, 0),
        }
    } else {
        false
    }
}

pub open spec fn cases_wf(cases: Seq<Case>, i: int) -> bool
    decreases cases, cases.len() - i,
{
    if 0 <= i < cases.len() {
        shape_wf(cases[i].shape) && cases_wf(cases, i + 1)
    } else {
        true
    }
}

/// A schema none of whose presence tests looks at how many bytes remain:
/// what it decodes depends only on the bytes it reads.
pub open spec fn blind(s: Shape) -> bool
    decreases s, 0int,
{
    match s {
        Shape::Prim(_) => true,
        Shape::OneOf(_, _) => true,
        Shape::Array(e, _) => blind(*e),
        Shape::Pascal(e) => blind(*e),
        Shape::Record(fs) => blind_fields(fs@, 0),
    }
}

pub open spec fn blind_fields(fs: Seq<Field>, i: int) -> bool
    decreases fs, fs.len() - i,
{
    if 0 <= i < fs.len() {
        blind_kind(fs[i].kind) && blind_fields(fs, i + 1)
    } else {
        true
    }
}

pub open spec fn blind_kind(k: FieldKind) -> bool
    decreases k, 0int,
{
    match k {
        FieldKind::Plain(s) => blind(s),
        FieldKind::LenOf(_, _) => true,
        FieldKind::TagOf(_, _) => true,
        FieldKind::When(c, s) => c.left is None && blind(s),
        FieldKind::Counted(_, _, e) => blind(e),
        FieldKind::Switch(_, _, cases) => blind_cases(cases@, 0),
    }
}

pub open spec fn blind_cases(cases: Seq<Case>, i: int) -> bool
    decreases cases, cases.len() - i,
{
    if 0 <= i < cases.len() {
        blind(cases[i].shape) && blind_cases(cases, i + 1)
    } else {
        true
    }
}

} // verus!
