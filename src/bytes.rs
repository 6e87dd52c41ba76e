//! Little-endian primitives: the byte accounting beneath every schema.
use vstd::prelude::*;

verus! {

/// The value of a little-endian unsigned integer of one, two or four bytes.
pub open spec fn le_value(b: Seq<u8>) -> u32 {
    if b.len() == 1 {
        b[0] as u32
    } else if b.len() == 2 {
        (b[0] as u32) | ((b[1] as u32) << 8u32)
    } else if b.len() == 4 {
        (b[0] as u32) | ((b[1] as u32) << 8u32) | ((b[2] as u32) << 16u32) | ((b[3] as u32) << 24u32)
    } else {
        0
    }
}

/// The `w` low bytes of `v`, least significant first.
pub open spec fn le_bytes(v: u32, w: nat) -> Seq<u8> {
    if w == 1 {
        seq![v as u8]
    } else if w == 2 {
        seq![v as u8, (v >> 8u32) as u8]
    } else if w == 4 {
        seq![v as u8, (v >> 8u32) as u8, (v >> 16u32) as u8, (v >> 24u32) as u8]
    } else {
        Seq::empty()
    }
}

/// Whether `v` can be written in `w` bytes without losing bits.
pub open spec fn fits(v: u32, w: nat) -> bool {
    ||| w == 4
    ||| (w == 2 && v < 0x10000)
    ||| (w == 1 && v < 0x100)
}

pub open spec fn valid_width(w: nat) -> bool {
    w == 1 || w == 2 || w == 4
}

pub proof fn lemma_le_bytes_len(v: u32, w: nat)
    requires
        valid_width(w),
    ensures
        le_bytes(v, w).len() == w,
{
}

/// Reading back what was written gives the value, when it fits.
pub proof fn lemma_le_value_of_bytes(v: u32, w: nat)
    requires
        valid_width(w),
        fits(v, w),
    ensures
        le_value(le_bytes(v, w)) == v,
{
    if w == 1 {
        assert(v < 0x100 ==> ((v as u8) as u32) == v) by (bit_vector);
    } else if w == 2 {
        assert(v < 0x10000 ==> ((v as u8) as u32) | ((((v >> 8u32) as u8) as u32) << 8u32) == v)
            by (bit_vector);
    } else {
        assert(((v as u8) as u32) | ((((v >> 8u32) as u8) as u32) << 8u32) | ((((v >> 16u32) as u8) as u32) << 16u32)
            | ((((v >> 24u32) as u8) as u32) << 24u32) == v) by (bit_vector);
    }
}

/// Writing what was read gives the bytes back, and the value read always fits.
pub proof fn lemma_le_bytes_of_value(b: Seq<u8>)
    requires
        valid_width(b.len()),
    ensures
        le_bytes(le_value(b), b.len()) =~= b,
        fits(le_value(b), b.len()),
{
    let v = le_value(b);
    if b.len() == 1 {
        let b0 = b[0];
        assert((b0 as u32) < 0x100 && ((b0 as u32) as u8) == b0) by (bit_vector);
    } else if b.len() == 2 {
        let b0 = b[0];
        let b1 = b[1];
        assert({
            let x = (b0 as u32) | ((b1 as u32) << 8u32);
            &&& x < 0x10000
            &&& (x as u8) == b0
            &&& ((x >> 8u32) as u8) == b1
        }) by (bit_vector);
    } else {
        let b0 = b[0];
        let b1 = b[1];
        let b2 = b[2];
        let b3 = b[3];
        assert({
            let x = (b0 as u32) | ((b1 as u32) << 8u32) | ((b2 as u32) << 16u32) | ((b3 as u32) << 24u32);
            &&& (x as u8) == b0
            &&& ((x >> 8u32) as u8) == b1
            &&& ((x >> 16u32) as u8) == b2
            &&& ((x >> 24u32) as u8) == b3
        }) by (bit_vector);
    }
}

/// Reads a little-endian integer of `w` bytes at `pos`.
pub fn read_le(b: &[u8], pos: usize, w: usize) -> (r: u32)
    requires
        valid_width(w as nat),
        pos + w <= b@.len(),
    ensures
        r == le_value(b@.subrange(pos as int, pos + w)),
{
    let ghost s = b@.subrange(pos as int, pos + w);
    if w == 1 {
        b[pos] as u32
    } else if w == 2 {
        (b[pos] as u32) | ((b[pos + 1] as u32) << 8u32)
    } else {
        (b[pos] as u32) | ((b[pos + 1] as u32) << 8u32) | ((b[pos + 2] as u32) << 16u32) | ((b[pos
            + 3] as u32) << 24u32)
    }
}

/// Appends the `w` low bytes of `v`, least significant first.
pub fn write_le(out: &mut Vec<u8>, v: u32, w: usize)
    requires
        valid_width(w as nat),
    ensures
        final(out)@ == old(out)@ + le_bytes(v, w as nat),
{
    out.push(v as u8);
    if w >= 2 {
        out.push((v >> 8u32) as u8);
    }
    if w == 4 {
        out.push((v >> 16u32) as u8);
        out.push((v >> 24u32) as u8);
    }
    assert(out@ =~= old(out)@ + le_bytes(v, w as nat));
}

} // verus!
