//! Little-endian words: what their bytes are, and reading and writing them.
use byteorder::{ByteOrder, LittleEndian};
use vstd::prelude::*;

verus! {

/// The unsigned 16-bit value stored little-endian at `at`.
pub open spec fn u16_at(b: Seq<u8>, at: int) -> u16 {
    (b[at] as u16) | ((b[at + 1] as u16) << 8u16)
}

/// The signed 16-bit value stored little-endian (two's complement) at `at`.
pub open spec fn i16_at(b: Seq<u8>, at: int) -> i16 {
    u16_at(b, at) as i16
}

/// The unsigned 32-bit value stored little-endian at `at`.
pub open spec fn u32_at(b: Seq<u8>, at: int) -> u32 {
    (b[at] as u32) | ((b[at + 1] as u32) << 8u32) | ((b[at + 2] as u32) << 16u32) | ((b[at + 3] as u32) << 24u32)
}

/// The signed 32-bit value stored little-endian (two's complement) at `at`.
pub open spec fn i32_at(b: Seq<u8>, at: int) -> i32 {
    u32_at(b, at) as i32
}

/// The unsigned 64-bit value stored little-endian at `at`.
pub open spec fn u64_at(b: Seq<u8>, at: int) -> u64 {
    (u32_at(b, at) as u64) | ((u32_at(b, at + 4) as u64) << 32u64)
}

/// The two bytes of `n`, least significant first.
pub open spec fn i16_le(n: i16) -> Seq<u8> {
    seq![(n as u16) as u8, ((n as u16) >> 8u16) as u8]
}

/// The four bytes of `n`, least significant first.
pub open spec fn u32_le(n: u32) -> Seq<u8> {
    seq![n as u8, (n >> 8u32) as u8, (n >> 16u32) as u8, (n >> 24u32) as u8]
}

/// `n` 16-bit signed values stored one after the other from `at`.
pub open spec fn i16s_at(b: Seq<u8>, at: int, n: int) -> Seq<i16> {
    Seq::new(n as nat, |k: int| i16_at(b, at + 2 * k))
}

/// `n` 32-bit words stored one after the other from `at`.
pub open spec fn u32s_at(b: Seq<u8>, at: int, n: int) -> Seq<u32> {
    Seq::new(n as nat, |k: int| u32_at(b, at + 4 * k))
}

/// The bytes of a sequence of 32-bit words, each little-endian, in order.
pub open spec fn u32s_le(s: Seq<u32>) -> Seq<u8>
    decreases s.len(),
{
    if s.len() == 0 {
        Seq::empty()
    } else {
        u32s_le(s.drop_last()) + u32_le(s.last())
    }
}

pub proof fn lemma_i16_le_round_trip(n: i16)
    ensures
        i16_at(i16_le(n), 0) == n,
{
    let b0 = (n as u16) as u8;
    let b1 = ((n as u16) >> 8u16) as u8;
    assert(((b0 as u16) | ((b1 as u16) << 8u16)) as i16 == n) by (bit_vector)
        requires
            b0 == (n as u16) as u8,
            b1 == ((n as u16) >> 8u16) as u8,
    ;
}

pub proof fn lemma_u32_le_round_trip(n: u32)
    ensures
        u32_at(u32_le(n), 0) == n,
{
    let b0 = n as u8;
    let b1 = (n >> 8u32) as u8;
    let b2 = (n >> 16u32) as u8;
    let b3 = (n >> 24u32) as u8;
    assert((b0 as u32) | ((b1 as u32) << 8u32) | ((b2 as u32) << 16u32) | ((b3 as u32) << 24u32) == n) by (bit_vector)
        requires
            b0 == n as u8,
            b1 == (n >> 8u32) as u8,
            b2 == (n >> 16u32) as u8,
            b3 == (n >> 24u32) as u8,
    ;
}

pub proof fn lemma_u32s_le_len(s: Seq<u32>)
    ensures
        u32s_le(s).len() == 4 * s.len(),
    decreases s.len(),
{
    if s.len() > 0 {
        lemma_u32s_le_len(s.drop_last());
    }
}

/// Word `k` of a sequence sits in bytes `4k .. 4k + 4` of its encoding.
pub proof fn lemma_u32s_le_index(s: Seq<u32>, k: int)
    requires
        0 <= k < s.len(),
    ensures
        u32s_le(s).subrange(4 * k, 4 * k + 4) == u32_le(s[k]),
    decreases s.len(),
{
    lemma_u32s_le_len(s);
    lemma_u32s_le_len(s.drop_last());
    let prev = u32s_le(s.drop_last());
    if k < s.len() - 1 {
        lemma_u32s_le_index(s.drop_last(), k);
        assert(u32s_le(s).subrange(4 * k, 4 * k + 4) =~= prev.subrange(4 * k, 4 * k + 4));
    } else {
        assert(u32s_le(s).subrange(4 * k, 4 * k + 4) =~= u32_le(s[k]));
    }
}

/// The value at `at` depends on the four bytes there alone.
pub proof fn lemma_u32_at_bytes(b: Seq<u8>, at: int, c: Seq<u8>)
    requires
        0 <= at,
        at + 4 <= b.len(),
        b.subrange(at, at + 4) == c,
    ensures
        u32_at(b, at) == u32_at(c, 0),
{
    assert(b[at] == c[0]);
    assert(b[at + 1] == c[1]);
    assert(b[at + 2] == c[2]);
    assert(b[at + 3] == c[3]);
}

/// Reading the words back out of their encoding gives the words.
pub proof fn lemma_u32s_round_trip(pre: Seq<u8>, s: Seq<u32>, post: Seq<u8>)
    ensures
        u32s_at(pre + u32s_le(s) + post, pre.len() as int, s.len() as int) == s,
{
    let b = pre + u32s_le(s) + post;
    lemma_u32s_le_len(s);
    assert forall|k: int| 0 <= k < s.len() implies u32_at(b, pre.len() + 4 * k) == s[k] by {
        lemma_u32s_le_index(s, k);
        let at = pre.len() + 4 * k;
        assert(b.subrange(at, at + 4) =~= u32s_le(s).subrange(4 * k, 4 * k + 4));
        lemma_u32_at_bytes(b, at, u32_le(s[k]));
        lemma_u32_le_round_trip(s[k]);
    }
    assert(u32s_at(b, pre.len() as int, s.len() as int) =~= s);
}

/// Words read inside `x` do not see what follows it.
pub proof fn lemma_u32s_at_prefix(x: Seq<u8>, y: Seq<u8>, p: int, n: int)
    requires
        0 <= p,
        0 <= n,
        p + 4 * n <= x.len(),
    ensures
        u32s_at(x + y, p, n) == u32s_at(x, p, n),
{
    assert forall|k: int| 0 <= k < n implies #[trigger] u32_at(x + y, p + 4 * k) == u32_at(
        x,
        p + 4 * k,
    ) by {
        let at = p + 4 * k;
        assert((x + y)[at] == x[at]);
        assert((x + y)[at + 1] == x[at + 1]);
        assert((x + y)[at + 2] == x[at + 2]);
        assert((x + y)[at + 3] == x[at + 3]);
    }
    assert(u32s_at(x + y, p, n) =~= u32s_at(x, p, n));
}

/// Words read after `x` do not see it.
pub proof fn lemma_u32s_at_shift(x: Seq<u8>, y: Seq<u8>, q: int, n: int)
    requires
        0 <= q,
        0 <= n,
        q + 4 * n <= y.len(),
    ensures
        u32s_at(x + y, x.len() + q, n) == u32s_at(y, q, n),
{
    assert forall|k: int| 0 <= k < n implies #[trigger] u32_at(x + y, x.len() + q + 4 * k)
        == u32_at(y, q + 4 * k) by {
        let at = q + 4 * k;
        assert((x + y)[x.len() + at] == y[at]);
        assert((x + y)[x.len() + at + 1] == y[at + 1]);
        assert((x + y)[x.len() + at + 2] == y[at + 2]);
        assert((x + y)[x.len() + at + 3] == y[at + 3]);
    }
    assert(u32s_at(x + y, x.len() + q, n) =~= u32s_at(y, q, n));
}

/// A 16-bit value read inside `x` does not see what follows it.
pub proof fn lemma_i16_at_prefix(x: Seq<u8>, y: Seq<u8>, p: int)
    requires
        0 <= p,
        p + 2 <= x.len(),
    ensures
        i16_at(x + y, p) == i16_at(x, p),
{
    assert((x + y)[p] == x[p]);
    assert((x + y)[p + 1] == x[p + 1]);
}

/// Words that end a buffer read back as themselves.
pub proof fn lemma_u32s_last(pre: Seq<u8>, s: Seq<u32>)
    ensures
        u32s_at(pre + u32s_le(s), pre.len() as int, s.len() as int) == s,
        (pre + u32s_le(s)).len() == pre.len() + 4 * s.len(),
{
    lemma_u32s_round_trip(pre, s, Seq::empty());
    assert(pre + u32s_le(s) + Seq::empty() =~= pre + u32s_le(s));
    lemma_u32s_le_len(s);
}

/// A 16-bit value that ends a buffer reads back as itself.
pub proof fn lemma_i16_last(pre: Seq<u8>, n: i16)
    ensures
        i16_at(pre + i16_le(n), pre.len() as int) == n,
        (pre + i16_le(n)).len() == pre.len() + 2,
{
    lemma_i16_round_trip(pre, n, Seq::empty());
    assert(pre + i16_le(n) + Seq::empty() =~= pre + i16_le(n));
}

/// Reading a 16-bit value back out of its encoding gives the value.
pub proof fn lemma_i16_round_trip(pre: Seq<u8>, n: i16, post: Seq<u8>)
    ensures
        i16_at(pre + i16_le(n) + post, pre.len() as int) == n,
{
    let b = pre + i16_le(n) + post;
    let at = pre.len() as int;
    assert(b[at] == i16_le(n)[0]);
    assert(b[at + 1] == i16_le(n)[1]);
    lemma_i16_le_round_trip(n);
}

/// Relies on `LittleEndian::read_i16` of byteorder: the two bytes at `at`,
/// least significant first, as a two's complement value.
#[verifier::external_body]
pub(crate) fn read_i16(b: &[u8], at: usize) -> (r: i16)
    requires
        at + 2 <= b@.len(),
    ensures
        r == i16_at(b@, at as int),
{
    LittleEndian::read_i16(&b[at..])
}

/// Relies on `LittleEndian::read_i32` of byteorder: the four bytes at `at`,
/// least significant first, as a two's complement value.
#[verifier::external_body]
pub(crate) fn read_i32(b: &[u8], at: usize) -> (r: i32)
    requires
        at + 4 <= b@.len(),
    ensures
        r == i32_at(b@, at as int),
{
    LittleEndian::read_i32(&b[at..])
}

/// Relies on `LittleEndian::read_u32` of byteorder: the four bytes at `at`,
/// least significant first.
#[verifier::external_body]
pub(crate) fn read_u32(b: &[u8], at: usize) -> (r: u32)
    requires
        at + 4 <= b@.len(),
    ensures
        r == u32_at(b@, at as int),
{
    LittleEndian::read_u32(&b[at..])
}

/// Relies on `LittleEndian::read_u64` of byteorder: the eight bytes at `at`,
/// least significant first.
#[verifier::external_body]
pub(crate) fn read_u64(b: &[u8], at: usize) -> (r: u64)
    requires
        at + 8 <= b@.len(),
    ensures
        r == u64_at(b@, at as int),
{
    LittleEndian::read_u64(&b[at..])
}

/// Relies on `LittleEndian::write_i16` of byteorder: it stores `n` in the
/// first two bytes of the buffer, least significant first.
#[verifier::external_body]
pub(crate) fn i16_bytes(n: i16) -> (r: [u8; 2])
    ensures
        r@ == i16_le(n),
{
    let mut b = [0u8; 2];
    LittleEndian::write_i16(&mut b, n);
    b
}

/// Relies on `LittleEndian::write_u32` of byteorder: it stores `n` in the
/// first four bytes of the buffer, least significant first.
#[verifier::external_body]
pub(crate) fn u32_bytes(n: u32) -> (r: [u8; 4])
    ensures
        r@ == u32_le(n),
{
    let mut b = [0u8; 4];
    LittleEndian::write_u32(&mut b, n);
    b
}

/// Appends the two bytes of `n`, least significant first.
pub fn push_i16(buf: &mut Vec<u8>, n: i16)
    ensures
        final(buf)@ == old(buf)@ + i16_le(n),
{
    let b = i16_bytes(n);
    buf.push(b[0]);
    buf.push(b[1]);
    assert(final(buf)@ =~= old(buf)@ + i16_le(n));
}

/// Appends the four bytes of `n`, least significant first.
pub fn push_u32(buf: &mut Vec<u8>, n: u32)
    ensures
        final(buf)@ == old(buf)@ + u32_le(n),
{
    let b = u32_bytes(n);
    buf.push(b[0]);
    buf.push(b[1]);
    buf.push(b[2]);
    buf.push(b[3]);
    assert(final(buf)@ =~= old(buf)@ + u32_le(n));
}

/// Appends the words of `s` in order, each little-endian.
pub fn push_u32s(buf: &mut Vec<u8>, s: &Vec<u32>)
    ensures
        final(buf)@ == old(buf)@ + u32s_le(s@),
{
    let mut i: usize = 0;
    while i < s.len()
        invariant
            i <= s@.len(),
            buf@ == old(buf)@ + u32s_le(s@.take(i as int)),
        decreases s@.len() - i,
    {
        push_u32(buf, s[i]);
        assert(s@.take(i + 1).drop_last() =~= s@.take(i as int));
        assert(buf@ =~= old(buf)@ + u32s_le(s@.take(i + 1)));
        i = i + 1;
    }
    assert(s@.take(s@.len() as int) =~= s@);
}

/// Reads `n` words stored one after the other from `at`.
pub fn read_u32s(b: &[u8], at: usize, n: usize) -> (r: Vec<u32>)
    requires
        at + 4 * n <= b@.len(),
    ensures
        r@ == u32s_at(b@, at as int, n as int),
{
    let mut r: Vec<u32> = Vec::new();
    let len = b.len();
    let mut i: usize = 0;
    while i < n
        invariant
            i <= n,
            len == b@.len(),
            at + 4 * n <= len,
            r@ == u32s_at(b@, at as int, i as int),
        decreases n - i,
    {
        r.push(read_u32(b, at + 4 * i));
        assert(r@ =~= u32s_at(b@, at as int, i + 1));
        i = i + 1;
    }
    r
}

/// Reads `n` 16-bit signed values stored one after the other from `at`.
pub fn read_i16s(b: &[u8], at: usize, n: usize) -> (r: Vec<i16>)
    requires
        at + 2 * n <= b@.len(),
    ensures
        r@ == i16s_at(b@, at as int, n as int),
{
    let mut r: Vec<i16> = Vec::new();
    let len = b.len();
    let mut i: usize = 0;
    while i < n
        invariant
            i <= n,
            len == b@.len(),
            at + 2 * n <= len,
            r@ == i16s_at(b@, at as int, i as int),
        decreases n - i,
    {
        r.push(read_i16(b, at + 2 * i));
        assert(r@ =~= i16s_at(b@, at as int, i + 1));
        i = i + 1;
    }
    r
}

/// `n` copies of `z`.
pub open spec fn filled<T>(n: int, z: T) -> Seq<T> {
    Seq::new(n as nat, |i: int| z)
}

/// A vector of `n` copies of `z`.
pub fn filled_vec<T: Copy>(n: usize, z: T) -> (r: Vec<T>)
    ensures
        r@ == filled(n as int, z),
{
    let mut r: Vec<T> = Vec::new();
    let mut i: usize = 0;
    while i < n
        invariant
            i <= n,
            r@ == filled(i as int, z),
        decreases n - i,
    {
        r.push(z);
        assert(r@ =~= filled(i + 1, z));
        i = i + 1;
    }
    r
}

} // verus!
