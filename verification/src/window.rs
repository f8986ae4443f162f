//! Byte windows and the big-endian integers that headers store in them.
use vstd::prelude::*;

verus! {

/// A borrowed, contiguous run of bytes that a header view interprets in place.
pub trait Window {
    /// The bytes of the window, first to last.
    spec fn bytes(&self) -> Seq<u8>;

    /// Shared access to the bytes.
    fn as_bytes(&self) -> (r: &[u8])
        ensures
            r@ == self.bytes(),
    ;
}

impl<'a> Window for &'a [u8] {
    open spec fn bytes(&self) -> Seq<u8> {
        self@
    }

    fn as_bytes(&self) -> (r: &[u8]) {
        *self
    }
}

impl<'a> Window for &'a mut [u8] {
    open spec fn bytes(&self) -> Seq<u8> {
        self@
    }

    fn as_bytes(&self) -> (r: &[u8]) {
        &**self
    }
}

/// The 16-bit number that two bytes spell in network byte order.
pub open spec fn be16(hi: u8, lo: u8) -> int {
    hi * 256 + lo
}

/// The 32-bit number that four bytes spell in network byte order.
pub open spec fn be32(b0: u8, b1: u8, b2: u8, b3: u8) -> int {
    be16(b0, b1) * 65536 + be16(b2, b3)
}

/// The upper byte of a 16-bit number.
pub open spec fn hi8(v: u16) -> u8 {
    (v / 256) as u8
}

/// The lower byte of a 16-bit number.
pub open spec fn lo8(v: u16) -> u8 {
    (v % 256) as u8
}

/// The upper half of a 32-bit number.
pub open spec fn hi16(v: u32) -> u16 {
    (v / 65536) as u16
}

/// The lower half of a 32-bit number.
pub open spec fn lo16(v: u32) -> u16 {
    (v % 65536) as u16
}

/// `bytes` with the four bytes from `at` on spelling `v` in network byte order.
pub open spec fn replace_u32(bytes: Seq<u8>, at: int, v: u32) -> Seq<u8> {
    bytes.update(at, hi8(hi16(v))).update(at + 1, lo8(hi16(v))).update(
        at + 2,
        hi8(lo16(v)),
    ).update(at + 3, lo8(lo16(v)))
}

/// `bytes` with the two bytes from `at` on spelling `v` in network byte order.
pub open spec fn replace_u16(bytes: Seq<u8>, at: int, v: u16) -> Seq<u8> {
    bytes.update(at, hi8(v)).update(at + 1, lo8(v))
}

/// `bytes` with the bytes from `at` on replaced by `src`.
pub open spec fn replace_bytes(bytes: Seq<u8>, at: int, src: Seq<u8>) -> Seq<u8> {
    bytes.subrange(0, at) + src + bytes.subrange(at + src.len(), bytes.len() as int)
}

/// The 16-bit number that `bytes` spell from `at` on.
pub open spec fn u16_at(bytes: Seq<u8>, at: int) -> u16 {
    be16(bytes[at], bytes[at + 1]) as u16
}

/// The 32-bit number that `bytes` spell from `at` on.
pub open spec fn u32_at(bytes: Seq<u8>, at: int) -> u32 {
    be32(bytes[at], bytes[at + 1], bytes[at + 2], bytes[at + 3]) as u32
}

/// A 16-bit number written over two bytes is read back from them as it was
/// written, whatever it is, and no other byte changes.
pub proof fn lemma_u16_round_trip(bytes: Seq<u8>, at: int, v: u16)
    requires
        0 <= at,
        at + 2 <= bytes.len(),
    ensures
        u16_at(replace_u16(bytes, at, v), at) == v,
        replace_u16(bytes, at, v).len() == bytes.len(),
        forall|i: int|
            0 <= i < bytes.len() && !(at <= i < at + 2) ==> replace_u16(bytes, at, v)[i]
                == bytes[i],
{
}

/// A 32-bit number written over four bytes is read back from them as it was
/// written, whatever it is, and no other byte changes.
pub proof fn lemma_u32_round_trip(bytes: Seq<u8>, at: int, v: u32)
    requires
        0 <= at,
        at + 4 <= bytes.len(),
    ensures
        u32_at(replace_u32(bytes, at, v), at) == v,
        replace_u32(bytes, at, v).len() == bytes.len(),
        forall|i: int|
            0 <= i < bytes.len() && !(at <= i < at + 4) ==> replace_u32(bytes, at, v)[i]
                == bytes[i],
{
}

/// Bytes written over a stretch are read back from it as they were written,
/// and no other byte changes.
pub proof fn lemma_bytes_round_trip(bytes: Seq<u8>, at: int, src: Seq<u8>)
    requires
        0 <= at,
        at + src.len() <= bytes.len(),
    ensures
        replace_bytes(bytes, at, src).subrange(at, at + src.len()) == src,
        replace_bytes(bytes, at, src).len() == bytes.len(),
        forall|i: int|
            0 <= i < bytes.len() && !(at <= i < at + src.len()) ==> replace_bytes(
                bytes,
                at,
                src,
            )[i] == bytes[i],
{
    assert(replace_bytes(bytes, at, src).subrange(at, at + src.len()) =~= src);
}

/// Writes `src` over the bytes of `dst` from `at` on. No other byte changes.
pub(crate) fn write_bytes(dst: &mut [u8], at: usize, src: &[u8])
    requires
        at + src@.len() <= old(dst)@.len(),
    ensures
        final(dst)@ == replace_bytes(old(dst)@, at as int, src@),
        final(dst)@.len() == old(dst)@.len(),
{
    let len: usize = dst.len();
    let mut i: usize = 0;
    while i < src.len()
        invariant
            i <= src@.len(),
            at + src@.len() <= len,
            dst@.len() == len,
            len == old(dst)@.len(),
            forall|j: int| 0 <= j < dst@.len() ==> dst@[j] == if at <= j < at + i {
                src@[j - at]
            } else {
                old(dst)@[j]
            },
        decreases src@.len() - i,
    {
        dst[at + i] = src[i];
        i = i + 1;
    }
    assert(dst@ =~= replace_bytes(old(dst)@, at as int, src@));
}

/// Reads a 16-bit number in network byte order.
pub(crate) fn u16_from_be(bytes: &[u8; 2]) -> (r: u16)
    ensures
        r == be16(bytes@[0], bytes@[1]),
{
    let hi: u16 = bytes[0] as u16;
    let lo: u16 = bytes[1] as u16;
    hi * 256 + lo
}

/// Reads a 32-bit number in network byte order.
pub(crate) fn u32_from_be(bytes: &[u8; 4]) -> (r: u32)
    ensures
        r == be32(bytes@[0], bytes@[1], bytes@[2], bytes@[3]),
{
    let b0: u32 = bytes[0] as u32;
    let b1: u32 = bytes[1] as u32;
    let b2: u32 = bytes[2] as u32;
    let b3: u32 = bytes[3] as u32;
    (b0 * 256 + b1) * 65536 + (b2 * 256 + b3)
}

/// Spells a 16-bit number in network byte order.
pub(crate) fn u16_to_be(v: u16) -> (r: [u8; 2])
    ensures
        r@ == seq![hi8(v), lo8(v)],
        be16(r@[0], r@[1]) == v,
{
    let r: [u8; 2] = [(v / 256) as u8, (v % 256) as u8];
    assert(r@ =~= seq![hi8(v), lo8(v)]);
    r
}

/// Spells a 32-bit number in network byte order.
pub(crate) fn u32_to_be(v: u32) -> (r: [u8; 4])
    ensures
        r@ == seq![hi8(hi16(v)), lo8(hi16(v)), hi8(lo16(v)), lo8(lo16(v))],
        be32(r@[0], r@[1], r@[2], r@[3]) == v,
{
    let hi: u16 = (v / 65536) as u16;
    let lo: u16 = (v % 65536) as u16;
    let r: [u8; 4] = [(hi / 256) as u8, (hi % 256) as u8, (lo / 256) as u8, (lo % 256) as u8];
    assert(r@ =~= seq![hi8(hi16(v)), lo8(hi16(v)), hi8(lo16(v)), lo8(lo16(v))]);
    r
}

/// `<[T]>::first_chunk` of std: the first `N` items of a slice as an array,
/// or nothing where the slice is shorter than `N`.
pub assume_specification<T, const N: usize>[ <[T]>::first_chunk::<N> ](s: &[T]) -> (r: Option<
    &[T; N],
>)
    ensures
        s@.len() < N ==> r is None,
        s@.len() >= N ==> r is Some && r.unwrap()@ == s@.subrange(0, N as int),
;

} // verus!
