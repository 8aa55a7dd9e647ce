//! Little-endian `u32` length prefixes, as used by every variable-length
//! field of the Token-2022 metadata encodings.
use vstd::prelude::*;

verus! {

/// The four little-endian bytes of `n`.
pub open spec fn le_u32_bytes(n: nat) -> Seq<u8> {
    seq![
        (n % 256) as u8,
        ((n / 256) % 256) as u8,
        ((n / 65536) % 256) as u8,
        ((n / 16777216) % 256) as u8,
    ]
}

/// The little-endian `u32` stored at `s[off..off + 4]`.
pub open spec fn read_le_u32(s: Seq<u8>, off: int) -> nat {
    (s[off] + 256 * s[off + 1] + 65536 * s[off + 2] + 16777216 * s[off + 3]) as nat
}

/// `b` preceded by its length as a little-endian `u32`.
pub open spec fn length_prefixed(b: Seq<u8>) -> Seq<u8> {
    le_u32_bytes(b.len()) + b
}

/// Reading back the four bytes written for `n` gives `n`.
pub proof fn lemma_le_u32_roundtrip(n: nat, prefix: Seq<u8>, suffix: Seq<u8>)
    requires
        n < 0x1_0000_0000,
    ensures
        read_le_u32(prefix + le_u32_bytes(n) + suffix, prefix.len() as int) == n,
{
    let s = prefix + le_u32_bytes(n) + suffix;
    let p = prefix.len() as int;
    assert(s[p] == (n % 256) as u8);
    assert(s[p + 1] == ((n / 256) % 256) as u8);
    assert(s[p + 2] == ((n / 65536) % 256) as u8);
    assert(s[p + 3] == ((n / 16777216) % 256) as u8);
    assert((n % 256) + 256 * ((n / 256) % 256) + 65536 * ((n / 65536) % 256) + 16777216 * (
    (n / 16777216) % 256) == n) by (nonlinear_arith)
        requires
            n < 0x1_0000_0000,
    ;
}

/// The little-endian `u32` at `data[off..off + 4]`.
pub(crate) fn read_u32_le(data: &[u8], off: usize) -> (r: u32)
    requires
        off + 4 <= data@.len(),
    ensures
        r == read_le_u32(data@, off as int),
{
    let b0 = data[off] as u32;
    let b1 = data[off + 1] as u32;
    let b2 = data[off + 2] as u32;
    let b3 = data[off + 3] as u32;
    b0 + 256 * b1 + 65536 * b2 + 16777216 * b3
}

/// Appends the little-endian bytes of `n` to `out`.
pub(crate) fn push_u32_le(out: &mut Vec<u8>, n: u32)
    ensures
        final(out)@ == old(out)@ + le_u32_bytes(n as nat),
{
    out.push((n % 256) as u8);
    out.push(((n / 256) % 256) as u8);
    out.push(((n / 65536) % 256) as u8);
    out.push(((n / 16777216) % 256) as u8);
    assert(final(out)@ =~= old(out)@ + le_u32_bytes(n as nat));
}

/// Appends every byte of `bytes` to `out`.
pub(crate) fn push_bytes(out: &mut Vec<u8>, bytes: &[u8])
    ensures
        final(out)@ == old(out)@ + bytes@,
{
    let ghost start = out@;
    let mut i: usize = 0;
    while i < bytes.len()
        invariant
            i <= bytes@.len(),
            out@ == start + bytes@.subrange(0, i as int),
        decreases bytes@.len() - i,
    {
        out.push(bytes[i]);
        i = i + 1;
        assert(out@ =~= start + bytes@.subrange(0, i as int));
    }
    assert(bytes@.subrange(0, i as int) =~= bytes@);
}

/// Appends `bytes` preceded by its length as a little-endian `u32`.
pub(crate) fn push_length_prefixed(out: &mut Vec<u8>, bytes: &[u8])
    requires
        bytes@.len() <= u32::MAX,
    ensures
        final(out)@ == old(out)@ + length_prefixed(bytes@),
{
    push_u32_le(out, bytes.len() as u32);
    push_bytes(out, bytes);
    assert(final(out)@ =~= old(out)@ + length_prefixed(bytes@));
}

} // verus!
