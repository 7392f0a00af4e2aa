//! Device words: 16-bit integers assembled from two bytes, and single
//! bits of a 64-bit value.
use vstd::prelude::*;

verus! {

/// The `i16` whose little-endian bytes are `lo`, `hi` (as `i16::from_le_bytes`).
pub open spec fn i16_le(lo: u8, hi: u8) -> i16 {
    ((((hi as u16) << 8u16) | (lo as u16)) as i16)
}

/// The `i16` whose big-endian bytes are `hi`, `lo` (as `i16::from_be_bytes`).
pub open spec fn i16_be(hi: u8, lo: u8) -> i16 {
    i16_le(lo, hi)
}

/// Bit `k` of an `i16` (as `(v >> k) & 1` on the `i16`).
pub open spec fn bit16_of(v: i16, k: u64) -> bool {
    ((v >> k) & 1i16) == 1i16
}

/// Returns bit `k` of the `i16` `v`.
pub fn get_bit16(v: i16, k: usize) -> (res: bool)
    requires
        k < 16,
    ensures
        res == bit16_of(v, k as u64),
{
    let kk = k as u64;
    let b: i16 = (v >> kk) & 1i16;
    assert(((v >> kk) & 1i16) > 0i16 <==> ((v >> kk) & 1i16) == 1i16) by (bit_vector);
    b > 0
}

/// Assembles an `i16` from its big-endian bytes.
pub fn i16_from_be_bytes(hi: u8, lo: u8) -> (res: i16)
    ensures
        res == i16_be(hi, lo),
{
    i16_from_le_bytes(lo, hi)
}

/// Bit `k` of `v` (bit 0 is the least significant).
pub open spec fn bit_of(v: i64, k: u64) -> bool {
    ((v >> k) & 1i64) == 1i64
}

/// `v` with bit `k` set to `b` and every other bit kept.
pub open spec fn with_bit(v: i64, k: u64, b: bool) -> i64 {
    if b { v | (1i64 << k) } else { v & !(1i64 << k) }
}

/// Assembles an `i16` from its little-endian bytes.
pub fn i16_from_le_bytes(lo: u8, hi: u8) -> (res: i16)
    ensures
        res == i16_le(lo, hi),
{
    ((((hi as u16) << 8u16) | (lo as u16)) as i16)
}

/// Returns bit `k` of `v`.
pub fn get_bit(v: i64, k: usize) -> (res: bool)
    requires
        k < 64,
    ensures
        res == bit_of(v, k as u64),
{
    let kk = k as u64;
    let b = (v >> kk) & 1i64;
    assert(((v >> kk) & 1i64) > 0i64 <==> ((v >> kk) & 1i64) == 1i64) by (bit_vector);
    b > 0
}

/// Returns `v` with bit `k` set to 1.
pub fn set_bit(v: i64, k: usize) -> (res: i64)
    requires
        k < 64,
    ensures
        res == with_bit(v, k as u64, true),
{
    let kk = k as u64;
    v | (1i64 << kk)
}

/// Returns `v` with bit `k` set to 0.
pub fn reset_bit(v: i64, k: usize) -> (res: i64)
    requires
        k < 64,
    ensures
        res == with_bit(v, k as u64, false),
{
    let kk = k as u64;
    v & !(1i64 << kk)
}

/// Returns `v` with bit `k` set to `b`.
pub fn change_bit(v: i64, b: bool, k: usize) -> (res: i64)
    requires
        k < 64,
    ensures
        res == with_bit(v, k as u64, b),
{
    if b { set_bit(v, k) } else { reset_bit(v, k) }
}

/// Changing bit `k` of a value sets that bit to the given value and keeps
/// every other bit.
pub proof fn lemma_with_bit(v: i64, k: u64, b: bool, j: u64)
    requires
        k < 64,
        j < 64,
    ensures
        bit_of(with_bit(v, k, b), j) == (if j == k { b } else { bit_of(v, j) }),
{
    if b {
        assert(((v | (1i64 << k)) >> j) & 1i64 == 1i64 <==> (if j == k { true } else { ((v >> j) & 1i64) == 1i64 })) by (bit_vector)
            requires k < 64, j < 64;
    } else {
        assert(((v & !(1i64 << k)) >> j) & 1i64 == 1i64 <==> (if j == k { false } else { ((v >> j) & 1i64) == 1i64 })) by (bit_vector)
            requires k < 64, j < 64;
    }
}

/// The bits of a word read from two bytes: bits 0 to 7 are those of the
/// low byte, bits 8 to 15 those of the high byte, and every higher bit of
/// the sign-extended value repeats bit 7 of the high byte.
pub proof fn lemma_word_bits(lo: u8, hi: u8, k: u64)
    requires
        k < 64,
    ensures
        k < 8 ==> bit_of(i16_le(lo, hi) as i64, k) == (((lo >> k) & 1u8) == 1u8),
        8 <= k < 16 ==> bit_of(i16_le(lo, hi) as i64, k) == (((hi >> ((k - 8) as u64)) & 1u8) == 1u8),
        16 <= k ==> bit_of(i16_le(lo, hi) as i64, k) == (((hi >> 7u8) & 1u8) == 1u8),
{
    let w: i64 = i16_le(lo, hi) as i64;
    assert(w == ((((hi as u16) << 8u16) | (lo as u16)) as i16) as i64);
    assert(k < 8 ==> (((((((hi as u16) << 8u16) | (lo as u16)) as i16) as i64) >> k) & 1i64 == 1i64 <==> ((lo >> k) & 1u8) == 1u8)) by (bit_vector)
        requires k < 64;
    assert(8 <= k < 16 ==> (((((((hi as u16) << 8u16) | (lo as u16)) as i16) as i64) >> k) & 1i64 == 1i64 <==> ((hi >> ((k - 8) as u64)) & 1u8) == 1u8)) by (bit_vector)
        requires k < 64;
    assert(16 <= k ==> (((((((hi as u16) << 8u16) | (lo as u16)) as i16) as i64) >> k) & 1i64 == 1i64 <==> ((hi >> 7u8) & 1u8) == 1u8)) by (bit_vector)
        requires k < 64;
}

/// The little-endian bytes of an `i16` (as `i16::to_le_bytes`).
pub open spec fn i16_le_lo(v: i16) -> u8 {
    ((v as u16) & 0xffu16) as u8
}

pub open spec fn i16_le_hi(v: i16) -> u8 {
    ((v as u16) >> 8u16) as u8
}

/// Returns the little-endian bytes of `v`.
pub fn i16_to_le_bytes(v: i16) -> (res: (u8, u8))
    ensures
        res.0 == i16_le_lo(v),
        res.1 == i16_le_hi(v),
        i16_le(res.0, res.1) == v,
{
    let lo = ((v as u16) & 0xffu16) as u8;
    let hi = ((v as u16) >> 8u16) as u8;
    assert(((((((((v as u16) >> 8u16) as u8) as u16) << 8u16) | ((((v as u16) & 0xffu16) as u8) as u16)) as i16) == v)) by (bit_vector);
    (lo, hi)
}

/// Byte `k` (0 the most significant) of the big-endian bytes of the
/// `n`-byte value `v`.
pub open spec fn be_byte(v: u64, n: nat, k: int) -> u8 {
    ((v >> ((8 * (n - 1 - k)) as u64)) & 0xffu64) as u8
}

/// The big-endian bytes of the low `n` bytes of `v` (as `to_be_bytes` of
/// the `n`-byte integer type).
pub fn to_be_bytes(v: u64, n: usize) -> (res: Vec<u8>)
    requires
        1 <= n <= 8,
    ensures
        res@.len() == n,
        forall|k: int| 0 <= k < n ==> #[trigger] res@[k] == be_byte(v, n as nat, k),
{
    let mut res: Vec<u8> = Vec::new();
    let mut k: usize = 0;
    while k < n
        invariant
            1 <= n <= 8,
            k <= n,
            res@.len() == k,
            forall|j: int| 0 <= j < k ==> #[trigger] res@[j] == be_byte(v, n as nat, j),
        decreases n - k,
    {
        let shift: u64 = (8 * (n - 1 - k)) as u64;
        let b: u8 = ((v >> shift) & 0xffu64) as u8;
        res.push(b);
        k = k + 1;
    }
    res
}

/// Calls `i16::try_from` on an `i64`: as its documentation says, it gives
/// the same number where it fits into an `i16` and an error otherwise; the
/// error is handed back as its `{:#?}` text, of which nothing is stated.
#[verifier::external_body]
pub(crate) fn i16_try_from(v: i64) -> (res: Result<i16, String>)
    ensures
        (-32768 <= v <= 32767) <==> res is Ok,
        res matches Ok(x) ==> x == v,
{
    match i16::try_from(v) {
        Ok(x) => Ok(x),
        Err(err) => Err(format!("{:#?}", err)),
    }
}

} // verus!
