//! Length-prefixed byte records.
//!
//! The native interface has no generic "repeated buffer" parameter, so every
//! variable-length field, and every collection handed to the native side as a
//! single flattened region, is framed as a record: eight little-endian length
//! bytes followed by that many payload bytes. This module defines the framing
//! once, as spec functions over byte sequences, and provides the executable
//! readers and writers proved against them.

use vstd::bytes::{
    lemma_auto_spec_u64_to_from_le_bytes, spec_u64_from_le_bytes, spec_u64_to_le_bytes,
    u64_from_le_bytes, u64_to_le_bytes,
};
use vstd::prelude::*;
use vstd::slice::{slice_subrange, slice_to_vec};

verus! {

/// One framed record: the payload length as eight little-endian bytes, then
/// the payload itself.
pub open spec fn spec_record(v: Seq<u8>) -> Seq<u8>
    recommends
        v.len() <= u64::MAX,
{
    spec_u64_to_le_bytes(v.len() as u64) + v
}

/// Read the eight-byte little-endian length field of `b` at position `i`,
/// returning the value and the position just past it.
pub open spec fn spec_read_u64(b: Seq<u8>, i: int) -> Option<(u64, int)> {
    if 0 <= i && i + 8 <= b.len() {
        Some((spec_u64_from_le_bytes(b.subrange(i, i + 8)), i + 8))
    } else {
        None
    }
}

/// Read one framed record of `b` at position `i`, returning the payload and
/// the position just past it.
pub open spec fn spec_read_record(b: Seq<u8>, i: int) -> Option<(Seq<u8>, int)> {
    match spec_read_u64(b, i) {
        Some((n, j)) => {
            if j + n <= b.len() {
                Some((b.subrange(j, j + n), j + n))
            } else {
                None
            }
        },
        None => None,
    }
}

/// Reading at the position where a record was written recovers exactly the
/// written payload, whatever stands before and after it.
pub proof fn lemma_read_record_of_record(prefix: Seq<u8>, v: Seq<u8>, suffix: Seq<u8>)
    requires
        v.len() <= u64::MAX,
    ensures
        spec_read_record(prefix + spec_record(v) + suffix, prefix.len() as int) == Some(
            (v, prefix.len() + 8 + v.len() as int),
        ),
{
    lemma_auto_spec_u64_to_from_le_bytes();
    let b = prefix + spec_record(v) + suffix;
    let i = prefix.len() as int;
    assert(b.subrange(i, i + 8) =~= spec_u64_to_le_bytes(v.len() as u64));
    assert(b.subrange(i + 8, i + 8 + v.len()) =~= v);
}

/// Reading a record of `b` at position `i` is reading the suffix of `b` from
/// `i` at position zero, with the resulting position shifted by `i`.
pub proof fn lemma_read_record_shift(b: Seq<u8>, i: int)
    requires
        0 <= i <= b.len(),
    ensures
        spec_read_record(b, i) is Some <==> spec_read_record(
            b.subrange(i, b.len() as int),
            0,
        ) is Some,
        spec_read_record(b, i) matches Some((v, next)) ==> spec_read_record(
            b.subrange(i, b.len() as int),
            0,
        ) == Some((v, next - i)),
{
    let s = b.subrange(i, b.len() as int);
    if i + 8 <= b.len() {
        assert(s.subrange(0, 8) =~= b.subrange(i, i + 8));
        let n = spec_u64_from_le_bytes(b.subrange(i, i + 8));
        if i + 8 + n <= b.len() {
            assert(s.subrange(8, 8 + n) =~= b.subrange(i + 8, i + 8 + n));
        }
    }
}

/// Append a copy of `src` to `out`.
pub fn append_bytes(out: &mut Vec<u8>, src: &Vec<u8>)
    ensures
        final(out)@ == old(out)@ + src@,
{
    let ghost start = out@;
    let mut i: usize = 0;
    while i < src.len()
        invariant
            i <= src.len(),
            out@ == start + src@.subrange(0, i as int),
        decreases src.len() - i,
    {
        out.push(src[i]);
        i = i + 1;
        assert(start + src@.subrange(0, i - 1) + seq![src@[i - 1]] =~= start + src@.subrange(
            0,
            i as int,
        ));
    }
    assert(start + src@.subrange(0, src@.len() as int) =~= start + src@);
}

/// Append `src`, framed as one record, to `out`.
pub fn append_record(out: &mut Vec<u8>, src: &Vec<u8>)
    ensures
        final(out)@ == old(out)@ + spec_record(src@),
{
    let ghost start = out@;
    let mut len_bytes = u64_to_le_bytes(src.len() as u64);
    out.append(&mut len_bytes);
    append_bytes(out, src);
    assert(start + spec_u64_to_le_bytes(src@.len() as u64) + src@ =~= start + spec_record(src@));
}

/// Read the eight-byte length field of `b` at position `pos`.
pub fn read_u64_at(b: &Vec<u8>, pos: usize) -> (r: Option<(u64, usize)>)
    ensures
        r is Some <==> spec_read_u64(b@, pos as int) is Some,
        r matches Some((x, next)) ==> spec_read_u64(b@, pos as int) == Some((x, next as int)),
{
    if pos <= b.len() && b.len() - pos >= 8 {
        let field = slice_subrange(b.as_slice(), pos, pos + 8);
        let x = u64_from_le_bytes(field);
        Some((x, pos + 8))
    } else {
        None
    }
}

/// Read one framed record of `b` at position `pos`, copying out the payload.
pub fn read_record_at(b: &Vec<u8>, pos: usize) -> (r: Option<(Vec<u8>, usize)>)
    ensures
        r is Some <==> spec_read_record(b@, pos as int) is Some,
        r matches Some((v, next)) ==> spec_read_record(b@, pos as int) == Some(
            (v@, next as int),
        ),
{
    match read_u64_at(b, pos) {
        Some((n, j)) => {
            let blen = b.len();
            if n <= (blen - j) as u64 {
                let next = j + (n as usize);
                let payload = slice_to_vec(slice_subrange(b.as_slice(), j, next));
                Some((payload, next))
            } else {
                None
            }
        },
        None => None,
    }
}

} // verus!
