//! Reference extraction: the ordered hashes of the objects a record links to.
use vstd::prelude::*;
use crate::schema::{lemma_vals_of, val_of, vals_of, Val, Value};

verus! {

/// Where a record holds the hashes of objects it links to. Indices are
/// positions in the record's field list.
#[derive(Clone, Copy, Debug, PartialEq, Eq, Structural)]
pub enum LinkRule {
    /// The hash in field `i`.
    Field(usize),
    /// Each hash in the list at field `i`, in order.
    List(usize),
    /// Each hash in the list at field `i`, last first.
    ListReversed(usize),
    /// Field `j` of each record in the list at field `i`, in order.
    EachField(usize, usize),
}

pub open spec fn num_of(v: Val) -> u32 {
    match v {
        Val::Num(n) => n,
        _ => 0,
    }
}

pub open spec fn field_of(v: Val, i: int) -> Val {
    match v {
        Val::Items(xs) => if 0 <= i < xs.len() {
            xs[i]
        } else {
            Val::Absent
        },
        _ => Val::Absent,
    }
}

pub open spec fn list_of(v: Val) -> Seq<Val> {
    match v {
        Val::Items(xs) => xs,
        _ => Seq::empty(),
    }
}

/// The hashes that are references: a zero hash means "no reference".
pub open spec fn nonzero(hs: Seq<u32>) -> Seq<u32> {
    hs.filter(|h: u32| h != 0)
}

/// The hashes a rule reads from record `v`, zeros included.
pub open spec fn rule_hashes(r: LinkRule, v: Val) -> Seq<u32> {
    match r {
        LinkRule::Field(i) => seq![num_of(field_of(v, i as int))],
        LinkRule::List(i) => list_of(field_of(v, i as int)).map_values(|x: Val| num_of(x)),
        LinkRule::ListReversed(i) => list_of(field_of(v, i as int)).map_values(|x: Val| num_of(x)).reverse(),
        LinkRule::EachField(i, j) => list_of(field_of(v, i as int)).map_values(
            |x: Val| num_of(field_of(x, j as int)),
        ),
    }
}

/// The links of `v` under `rules`: each rule's hashes in turn, zeros left out.
pub open spec fn links(rules: Seq<LinkRule>, v: Val) -> Seq<u32>
    decreases rules.len(),
{
    if rules.len() == 0 {
        Seq::empty()
    } else {
        links(rules.drop_last(), v) + nonzero(rule_hashes(rules.last(), v))
    }
}

/// The list a rule walks, if it walks one.
pub open spec fn rule_list(r: LinkRule, v: Val) -> Seq<Val> {
    match r {
        LinkRule::Field(_) => Seq::empty(),
        LinkRule::List(i) => list_of(field_of(v, i as int)),
        LinkRule::ListReversed(i) => list_of(field_of(v, i as int)),
        LinkRule::EachField(i, _) => list_of(field_of(v, i as int)),
    }
}

fn num_at(v: &Value) -> (r: u32)
    ensures
        r == num_of(v@),
{
    match v {
        Value::Num(n) => *n,
        _ => 0,
    }
}

fn field_at(v: &Value, i: usize) -> (r: Option<&Value>)
    ensures
        match r {
            Some(x) => x@ == field_of(v@, i as int),
            None => field_of(v@, i as int) == Val::Absent,
        },
{
    match v {
        Value::Items(xs) => {
            proof {
                lemma_vals_of(xs@);
            }
            if i < xs.len() {
                Some(&xs[i])
            } else {
                None
            }
        },
        _ => None,
    }
}

fn list_at(v: &Value, i: usize) -> (r: Option<&Vec<Value>>)
    ensures
        match r {
            Some(xs) => vals_of(xs@) == list_of(field_of(v@, i as int)),
            None => list_of(field_of(v@, i as int)) == Seq::<Val>::empty(),
        },
{
    match field_at(v, i) {
        Some(Value::Items(xs)) => Some(xs),
        _ => None,
    }
}

/// The `k`-th hash a rule reads, out of `n`.
fn hash_at(r: &LinkRule, v: &Value, list: &Vec<Value>, k: usize) -> (h: u32)
    requires
        vals_of(list@) == rule_list(*r, v@),
        k < rule_hashes(*r, v@).len(),
    ensures
        h == rule_hashes(*r, v@)[k as int],
{
    proof {
        lemma_vals_of(list@);
    }
    assert(r is Field || rule_hashes(*r, v@).len() == list@.len());
    match r {
        LinkRule::Field(i) => match field_at(v, *i) {
            Some(x) => num_at(x),
            None => 0,
        },
        LinkRule::List(_) => num_at(&list[k]),
        LinkRule::ListReversed(_) => num_at(&list[list.len() - 1 - k]),
        LinkRule::EachField(_, j) => match field_at(&list[k], *j) {
            Some(x) => num_at(x),
            None => 0,
        },
    }
}

/// Appends the non-zero hashes that `r` reads from `v`, in the rule's order.
pub fn push_links(r: &LinkRule, v: &Value, out: &mut Vec<u32>)
    ensures
        final(out)@ == old(out)@ + nonzero(rule_hashes(*r, v@)),
{
    let ghost hs = rule_hashes(*r, v@);
    let empty: Vec<Value> = Vec::new();
    let (list, n): (&Vec<Value>, usize) = match r {
        LinkRule::Field(_) => (&empty, 1),
        LinkRule::List(i) | LinkRule::ListReversed(i) | LinkRule::EachField(i, _) => match list_at(v, *i) {
            Some(xs) => (xs, xs.len()),
            None => (&empty, 0),
        },
    };
    proof {
        lemma_vals_of(list@);
        lemma_vals_of(empty@);
        assert(n == hs.len());
        assert(hs.take(0) =~= Seq::<u32>::empty());
        reveal(Seq::filter);
        assert(out@ =~= old(out)@ + nonzero(hs.take(0)));
    }
    let mut k: usize = 0;
    while k < n
        invariant
            k <= n,
            n == hs.len(),
            hs == rule_hashes(*r, v@),
            vals_of(list@) == rule_list(*r, v@),
            out@ == old(out)@ + nonzero(hs.take(k as int)),
        decreases n - k,
    {
        let h = hash_at(r, v, list, k);
        proof {
            reveal(Seq::filter);
            assert(hs.take(k + 1).drop_last() =~= hs.take(k as int));
        }
        if h != 0 {
            out.push(h);
        }
        k += 1;
    }
    assert(hs.take(n as int) =~= hs);
}

/// The non-zero hashes that `rules` read from `v`, in rule order.
pub fn extract(rules: &Vec<LinkRule>, v: &Value) -> (r: Vec<u32>)
    ensures
        r@ == links(rules@, v@),
{
    let mut out: Vec<u32> = Vec::new();
    let mut i: usize = 0;
    while i < rules.len()
        invariant
            i <= rules@.len(),
            out@ == links(rules@.take(i as int), v@),
        decreases rules.len() - i,
    {
        push_links(&rules[i], v, &mut out);
        proof {
            assert(rules@.take(i + 1).drop_last() =~= rules@.take(i as int));
        }
        i += 1;
    }
    assert(rules@.take(i as int) =~= rules@);
    out
}

} // verus!
