use vstd::prelude::*;

verus! {

/// The four bytes that open every frame and every acknowledgement.
pub const MAGIC_HEADER: [u8; 4] = [0x91, 0x16, 0x10, 0x83];

/// The magic header as a sequence.
pub open spec fn magic() -> Seq<u8> {
    seq![0x91u8, 0x16u8, 0x10u8, 0x83u8]
}

/// The number that eight big-endian bytes denote.
pub open spec fn be_u64(s: Seq<u8>) -> u64 {
    (s[0] as u64) << 56u64 | (s[1] as u64) << 48u64 | (s[2] as u64) << 40u64 | (s[3] as u64)
        << 32u64 | (s[4] as u64) << 24u64 | (s[5] as u64) << 16u64 | (s[6] as u64) << 8u64 | (
    s[7] as u64)
}

/// The eight big-endian bytes of `n`.
pub open spec fn be8(n: u64) -> Seq<u8> {
    seq![
        (n >> 56u64) as u8,
        (n >> 48u64) as u8,
        (n >> 40u64) as u8,
        (n >> 32u64) as u8,
        (n >> 24u64) as u8,
        (n >> 16u64) as u8,
        (n >> 8u64) as u8,
        n as u8,
    ]
}

/// Eight big-endian bytes read back give the number they were written from.
pub proof fn lemma_be8_round_trip(n: u64)
    ensures
        be8(n).len() == 8,
        be_u64(be8(n)) == n,
{
    let s = be8(n);
    let (b0, b1, b2, b3) = (s[0], s[1], s[2], s[3]);
    let (b4, b5, b6, b7) = (s[4], s[5], s[6], s[7]);
    assert(b0 == (n >> 56u64) as u8 && b1 == (n >> 48u64) as u8 && b2 == (n >> 40u64) as u8);
    assert(b3 == (n >> 32u64) as u8 && b4 == (n >> 24u64) as u8 && b5 == (n >> 16u64) as u8);
    assert(b6 == (n >> 8u64) as u8 && b7 == n as u8);
    assert((((n >> 56u64) as u8) as u64) << 56u64 | (((n >> 48u64) as u8) as u64) << 48u64 | (((n
        >> 40u64) as u8) as u64) << 40u64 | (((n >> 32u64) as u8) as u64) << 32u64 | (((n
        >> 24u64) as u8) as u64) << 24u64 | (((n >> 16u64) as u8) as u64) << 16u64 | (((n
        >> 8u64) as u8) as u64) << 8u64 | ((n as u8) as u64) == n) by (bit_vector);
}

/// The eight big-endian bytes of `n`.
pub fn u64_to_be(n: u64) -> (r: Vec<u8>)
    ensures
        r@ == be8(n),
{
    let r = vec![
        (n >> 56u64) as u8,
        (n >> 48u64) as u8,
        (n >> 40u64) as u8,
        (n >> 32u64) as u8,
        (n >> 24u64) as u8,
        (n >> 16u64) as u8,
        (n >> 8u64) as u8,
        n as u8,
    ];
    assert(r@ =~= be8(n));
    r
}

/// The number that eight big-endian bytes denote.
pub fn u64_from_be(s: &[u8]) -> (r: u64)
    requires
        s@.len() == 8,
    ensures
        r == be_u64(s@),
{
    (s[0] as u64) << 56u64 | (s[1] as u64) << 48u64 | (s[2] as u64) << 40u64 | (s[3] as u64)
        << 32u64 | (s[4] as u64) << 24u64 | (s[5] as u64) << 16u64 | (s[6] as u64) << 8u64 | (
    s[7] as u64)
}

/// Appends a copy of `s` to `v`.
pub fn append_bytes(v: &mut Vec<u8>, s: &[u8])
    ensures
        final(v)@ == old(v)@ + s@,
{
    let mut t = vstd::slice::slice_to_vec(s);
    v.append(&mut t);
}

/// The magic header as a vector.
pub fn magic_vec() -> (r: Vec<u8>)
    ensures
        r@ == magic(),
{
    let r = vec![MAGIC_HEADER[0], MAGIC_HEADER[1], MAGIC_HEADER[2], MAGIC_HEADER[3]];
    assert(r@ =~= magic());
    r
}

/// Whether `s` is the magic header.
pub fn is_magic(s: &[u8]) -> (r: bool)
    ensures
        r == (s@ == magic()),
{
    if s.len() != 4 {
        return false;
    }
    let r = s[0] == 0x91 && s[1] == 0x16 && s[2] == 0x10 && s[3] == 0x83;
    if r {
        assert(s@ =~= magic());
    }
    r
}

} // verus!
