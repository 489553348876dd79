//! Byte-level helpers shared by the framing codecs: big/little-endian
//! integer fields and `Vec<u8>` concatenation and slicing.

use vstd::prelude::*;

verus! {

/// Big-endian bytes of a 16-bit value.
pub open spec fn spec_u16_be(v: u16) -> Seq<u8> {
    seq![(v / 256) as u8, (v % 256) as u8]
}

/// Little-endian bytes of a 16-bit value.
pub open spec fn spec_u16_le(v: u16) -> Seq<u8> {
    seq![(v % 256) as u8, (v / 256) as u8]
}

/// Little-endian bytes of a 32-bit value.
pub open spec fn spec_u32_le(v: u32) -> Seq<u8> {
    seq![
        (v % 256) as u8,
        ((v / 256) % 256) as u8,
        ((v / 65536) % 256) as u8,
        (v / 16777216) as u8,
    ]
}

/// The 16-bit value read big-endian from two bytes.
pub open spec fn spec_read_u16_be(hi: u8, lo: u8) -> u16 {
    ((hi as int) * 256 + (lo as int)) as u16
}

/// The 16-bit value read little-endian from two bytes.
pub open spec fn spec_read_u16_le(lo: u8, hi: u8) -> u16 {
    ((hi as int) * 256 + (lo as int)) as u16
}

/// The 32-bit value read little-endian from four bytes.
pub open spec fn spec_read_u32_le(b0: u8, b1: u8, b2: u8, b3: u8) -> u32 {
    ((b0 as int) + (b1 as int) * 256 + (b2 as int) * 65536 + (b3 as int) * 16777216) as u32
}

/// A 16-bit field written big-endian reads back as itself.
pub proof fn lemma_u16_be_round(v: u16)
    ensures
        spec_read_u16_be(spec_u16_be(v)[0], spec_u16_be(v)[1]) == v,
{
    vstd::arithmetic::div_mod::lemma_fundamental_div_mod(v as int, 256);
}

/// A 16-bit field written little-endian reads back as itself.
pub proof fn lemma_u16_le_round(v: u16)
    ensures
        spec_read_u16_le(spec_u16_le(v)[0], spec_u16_le(v)[1]) == v,
{
    vstd::arithmetic::div_mod::lemma_fundamental_div_mod(v as int, 256);
}

/// A 32-bit field written little-endian reads back as itself.
pub proof fn lemma_u32_le_round(v: u32)
    ensures
        spec_read_u32_le(
            spec_u32_le(v)[0],
            spec_u32_le(v)[1],
            spec_u32_le(v)[2],
            spec_u32_le(v)[3],
        ) == v,
{
    vstd::arithmetic::div_mod::lemma_fundamental_div_mod(v as int, 256);
    vstd::arithmetic::div_mod::lemma_fundamental_div_mod(v as int / 256, 256);
    vstd::arithmetic::div_mod::lemma_fundamental_div_mod(v as int / 65536, 256);
    vstd::arithmetic::div_mod::lemma_div_denominator(v as int, 256, 256);
    vstd::arithmetic::div_mod::lemma_div_denominator(v as int, 65536, 256);
}

/// Appends every byte of `src` to `dst`, in order.
pub fn push_all(dst: &mut Vec<u8>, src: &Vec<u8>)
    ensures
        final(dst)@ == old(dst)@ + src@,
{
    let ghost dst0: Seq<u8> = dst@;
    let mut i: usize = 0;
    while i < src.len()
        invariant
            i <= src@.len(),
            dst@ == dst0 + src@.subrange(0, i as int),
        decreases src@.len() - i,
    {
        dst.push(src[i]);
        proof {
            assert(src@.subrange(0, i + 1) == src@.subrange(0, i as int).push(src@[i as int]));
        }
        i = i + 1;
    }
    proof {
        assert(src@.subrange(0, src@.len() as int) == src@);
    }
}

/// Appends the big-endian bytes of a 16-bit value.
pub fn push_u16_be(dst: &mut Vec<u8>, v: u16)
    ensures
        final(dst)@ == old(dst)@ + spec_u16_be(v),
{
    let ghost dst0: Seq<u8> = dst@;
    dst.push((v / 256) as u8);
    dst.push((v % 256) as u8);
    proof {
        assert(dst@ == dst0 + spec_u16_be(v));
    }
}

/// Appends the little-endian bytes of a 16-bit value.
pub fn push_u16_le(dst: &mut Vec<u8>, v: u16)
    ensures
        final(dst)@ == old(dst)@ + spec_u16_le(v),
{
    let ghost dst0: Seq<u8> = dst@;
    dst.push((v % 256) as u8);
    dst.push((v / 256) as u8);
    proof {
        assert(dst@ == dst0 + spec_u16_le(v));
    }
}

/// Appends the little-endian bytes of a 32-bit value.
pub fn push_u32_le(dst: &mut Vec<u8>, v: u32)
    ensures
        final(dst)@ == old(dst)@ + spec_u32_le(v),
{
    let ghost dst0: Seq<u8> = dst@;
    dst.push((v % 256) as u8);
    dst.push(((v / 256) % 256) as u8);
    dst.push(((v / 65536) % 256) as u8);
    dst.push((v / 16777216) as u8);
    proof {
        assert(dst@ == dst0 + spec_u32_le(v));
    }
}

/// Reads a 16-bit big-endian field at `at`.
pub fn read_u16_be(v: &Vec<u8>, at: usize) -> (r: u16)
    requires
        at + 2 <= v@.len(),
    ensures
        r == spec_read_u16_be(v@[at as int], v@[at as int + 1]),
{
    let _n: usize = v.len();
    (v[at] as u16) * 256 + (v[at + 1] as u16)
}

/// Reads a 16-bit little-endian field at `at`.
pub fn read_u16_le(v: &Vec<u8>, at: usize) -> (r: u16)
    requires
        at + 2 <= v@.len(),
    ensures
        r == spec_read_u16_le(v@[at as int], v@[at as int + 1]),
{
    let _n: usize = v.len();
    (v[at] as u16) + (v[at + 1] as u16) * 256
}

/// Reads a 32-bit little-endian field at `at`.
pub fn read_u32_le(v: &Vec<u8>, at: usize) -> (r: u32)
    requires
        at + 4 <= v@.len(),
    ensures
        r == spec_read_u32_le(v@[at as int], v@[at as int + 1], v@[at as int + 2], v@[at as int + 3]),
{
    let _n: usize = v.len();
    (v[at] as u32) + (v[at + 1] as u32) * 256 + (v[at + 2] as u32) * 65536 + (v[at + 3] as u32)
        * 16777216
}

/// Copies `v[start..end]` into a fresh vector.
pub fn sub_vec(v: &Vec<u8>, start: usize, end: usize) -> (r: Vec<u8>)
    requires
        start <= end,
        end <= v@.len(),
    ensures
        r@ == v@.subrange(start as int, end as int),
{
    let mut out: Vec<u8> = Vec::new();
    let mut i: usize = start;
    while i < end
        invariant
            start <= i <= end,
            end <= v@.len(),
            out@ == v@.subrange(start as int, i as int),
        decreases end - i,
    {
        out.push(v[i]);
        proof {
            assert(v@.subrange(start as int, i + 1) == v@.subrange(start as int, i as int).push(
                v@[i as int],
            ));
        }
        i = i + 1;
    }
    out
}

} // verus!
