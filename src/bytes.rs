//! Fixed-width pieces of a binary layout: 32-byte keys and little-endian `u64`s.
use vstd::prelude::*;

verus! {

/// The eight bytes of `v`, least significant first.
pub open spec fn u64_le_bytes(v: u64) -> Seq<u8> {
    seq![
        (v & 0xff) as u8,
        ((v >> 8u64) & 0xff) as u8,
        ((v >> 16u64) & 0xff) as u8,
        ((v >> 24u64) & 0xff) as u8,
        ((v >> 32u64) & 0xff) as u8,
        ((v >> 40u64) & 0xff) as u8,
        ((v >> 48u64) & 0xff) as u8,
        ((v >> 56u64) & 0xff) as u8,
    ]
}

/// The `u64` whose little-endian bytes start `s`.
pub open spec fn u64_from_le(s: Seq<u8>) -> u64 {
    (s[0] as u64) | ((s[1] as u64) << 8u64) | ((s[2] as u64) << 16u64) | ((s[3] as u64) << 24u64)
        | ((s[4] as u64) << 32u64) | ((s[5] as u64) << 40u64) | ((s[6] as u64) << 48u64) | ((
    s[7] as u64) << 56u64)
}

/// Reading back the bytes of a `u64` gives the same `u64`.
pub proof fn lemma_u64_le_round_trip(v: u64)
    ensures
        u64_from_le(u64_le_bytes(v)) == v,
{
    let b = u64_le_bytes(v);
    assert(b[0] as u64 == v & 0xff && b[1] as u64 == (v >> 8u64) & 0xff && b[2] as u64 == (v
        >> 16u64) & 0xff && b[3] as u64 == (v >> 24u64) & 0xff && b[4] as u64 == (v >> 32u64)
        & 0xff && b[5] as u64 == (v >> 40u64) & 0xff && b[6] as u64 == (v >> 48u64) & 0xff
        && b[7] as u64 == (v >> 56u64) & 0xff) by {
        assert((v & 0xff) < 256 && (v >> 8u64) & 0xff < 256 && (v >> 16u64) & 0xff < 256 && (v
            >> 24u64) & 0xff < 256 && (v >> 32u64) & 0xff < 256 && (v >> 40u64) & 0xff < 256
            && (v >> 48u64) & 0xff < 256 && (v >> 56u64) & 0xff < 256) by (bit_vector);
    }
    assert(v == (v & 0xff) | (((v >> 8u64) & 0xff) << 8u64) | (((v >> 16u64) & 0xff) << 16u64)
        | (((v >> 24u64) & 0xff) << 24u64) | (((v >> 32u64) & 0xff) << 32u64) | (((v >> 40u64)
        & 0xff) << 40u64) | (((v >> 48u64) & 0xff) << 48u64) | (((v >> 56u64) & 0xff) << 56u64))
        by (bit_vector);
}

/// The all-zero key.
pub open spec fn zero_key() -> Seq<u8> {
    Seq::new(32, |i: int| 0u8)
}

/// Whether two keys hold the same bytes.
pub fn keys_equal(a: &[u8; 32], b: &[u8; 32]) -> (r: bool)
    ensures
        r == (a@ == b@),
{
    let mut i: usize = 0;
    while i < 32
        invariant
            i <= 32,
            a@.len() == 32,
            b@.len() == 32,
            forall|j: int| 0 <= j < i ==> a@[j] == b@[j],
        decreases 32 - i,
    {
        if a[i] != b[i] {
            return false;
        }
        i = i + 1;
    }
    assert(a@ =~= b@);
    true
}

/// Whether every byte of the key is zero.
pub fn key_is_zero(a: &[u8; 32]) -> (r: bool)
    ensures
        r == (a@ == zero_key()),
{
    let mut i: usize = 0;
    while i < 32
        invariant
            i <= 32,
            a@.len() == 32,
            forall|j: int| 0 <= j < i ==> a@[j] == 0,
        decreases 32 - i,
    {
        if a[i] != 0 {
            assert(a@[i as int] != zero_key()[i as int]);
            return false;
        }
        i = i + 1;
    }
    assert(a@ =~= zero_key());
    true
}

/// Appends the 32 bytes of a key.
pub fn push_key(out: &mut Vec<u8>, k: &[u8; 32])
    ensures
        final(out)@ == old(out)@ + k@,
{
    let ghost start = out@;
    let mut i: usize = 0;
    while i < 32
        invariant
            i <= 32,
            k@.len() == 32,
            out@ == start + k@.subrange(0, i as int),
        decreases 32 - i,
    {
        out.push(k[i]);
        i = i + 1;
        assert(out@ =~= start + k@.subrange(0, i as int));
    }
    assert(k@.subrange(0, 32) =~= k@);
}

/// Appends the little-endian bytes of `v`.
pub fn push_u64_le(out: &mut Vec<u8>, v: u64)
    ensures
        final(out)@ == old(out)@ + u64_le_bytes(v),
{
    let ghost start = out@;
    out.push((v & 0xff) as u8);
    out.push(((v >> 8u64) & 0xff) as u8);
    out.push(((v >> 16u64) & 0xff) as u8);
    out.push(((v >> 24u64) & 0xff) as u8);
    out.push(((v >> 32u64) & 0xff) as u8);
    out.push(((v >> 40u64) & 0xff) as u8);
    out.push(((v >> 48u64) & 0xff) as u8);
    out.push(((v >> 56u64) & 0xff) as u8);
    assert(out@ =~= start + u64_le_bytes(v));
}

/// The 32-byte key that starts at `at`.
pub fn read_key(d: &[u8], at: usize) -> (r: [u8; 32])
    requires
        at + 32 <= d@.len(),
    ensures
        r@ == d@.subrange(at as int, at + 32),
{
    let mut k: [u8; 32] = [0u8; 32];
    let n: usize = d.len();
    let mut i: usize = 0;
    while i < 32
        invariant
            i <= 32,
            at + 32 <= d@.len(),
            n == d@.len(),
            k@.len() == 32,
            forall|j: int| 0 <= j < i ==> k@[j] == d@[at + j],
        decreases 32 - i,
    {
        k[i] = d[at + i];
        i = i + 1;
    }
    assert(k@ =~= d@.subrange(at as int, at + 32));
    k
}

/// The little-endian `u64` that starts at `at`.
pub fn read_u64_le(d: &[u8], at: usize) -> (r: u64)
    requires
        at + 8 <= d@.len(),
    ensures
        r == u64_from_le(d@.subrange(at as int, at + 8)),
{
    (d[at] as u64) | ((d[at + 1] as u64) << 8u64) | ((d[at + 2] as u64) << 16u64) | ((d[at + 3]
        as u64) << 24u64) | ((d[at + 4] as u64) << 32u64) | ((d[at + 5] as u64) << 40u64) | ((d[at
        + 6] as u64) << 48u64) | ((d[at + 7] as u64) << 56u64)
}

} // verus!
