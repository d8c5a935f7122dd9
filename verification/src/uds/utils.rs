//! Byte-level helpers: 24-bit values, length checks and big-endian integers.

use vstd::prelude::*;
use crate::uds::error::{Iso14229Error, Iso14229ErrorView, unit_result_view};
use crate::uds::service::SUPPRESS_POSITIVE;

verus! {

/// A 24-bit unsigned value.
#[derive(Debug, Copy, Clone, PartialEq, Eq, Structural)]
pub struct U24(pub(crate) u32);

impl View for U24 {
    type V = u32;

    closed spec fn view(&self) -> u32 {
        self.0
    }
}

/// The largest 24-bit value.
pub const U24_MAX: u32 = 0x00FF_FFFF;

impl U24 {
    /// The low 24 bits of `val`.
    pub fn new(val: u32) -> (r: U24)
        ensures
            r@ == val % 0x100_0000,
    {
        assert(val & 0x00FF_FFFFu32 == val % 0x100_0000) by (bit_vector);
        U24(val & U24_MAX)
    }

    /// The value of three big-endian bytes.
    pub fn from_be_bytes(data: [u8; 3]) -> (r: U24)
        ensures
            r@ == data[0] as int * 0x1_0000 + data[1] as int * 0x100 + data[2] as int,
    {
        let (a, b, c) = (data[0], data[1], data[2]);
        let v = ((a as u32) << 16u32) | ((b as u32) << 8u32) | (c as u32);
        assert(((a as u32) << 16u32) | ((b as u32) << 8u32) | (c as u32)
            == (a as u32) * 0x1_0000u32 + (b as u32) * 0x100u32 + (c as u32)) by (bit_vector);
        U24(v)
    }

    /// The value of the first three bytes of `data`; fewer than three bytes are refused.
    pub fn try_from(data: &[u8]) -> (r: Result<U24, Iso14229Error>)
        ensures
            data@.len() < 3 <==> r is Err,
            r matches Err(e) ==> e@ == (Iso14229ErrorView::InvalidDataLength { expect: 3, actual: data@.len() as usize }),
            r matches Ok(v) ==> v@ == data@[0] as int * 0x1_0000 + data@[1] as int * 0x100 + data@[2] as int,
    {
        let data_len = data.len();
        data_length_check(data_len, 3, false)?;
        Ok(U24::from_be_bytes([data[0], data[1], data[2]]))
    }

    /// The three big-endian bytes.
    pub fn to_bytes(self) -> (r: Vec<u8>)
        ensures
            r@ == seq![(self@ / 0x1_0000 % 256) as u8, (self@ / 0x100 % 256) as u8, (self@ % 256) as u8],
    {
        let v = self.0;
        assert(((v & 0xFF0000u32) >> 16u32) as u8 == (v / 0x1_0000 % 256) as u8
            && ((v & 0x00FF00u32) >> 8u32) as u8 == (v / 0x100 % 256) as u8
            && (v & 0x0000FFu32) as u8 == (v % 256) as u8) by (bit_vector);
        vec![((v & 0xFF0000) >> 16) as u8, ((v & 0x00FF00) >> 8) as u8, (v & 0x0000FF) as u8]
    }

    /// The value.
    pub fn to_u32(self) -> (r: u32)
        ensures
            r == self@,
    {
        self.0
    }
}

/// The outcome of a length check: `actual` must equal `expect` when `equal`,
/// else must be at least `expect`.
pub open spec fn spec_length_check(actual: usize, expect: usize, equal: bool) -> Result<(), Iso14229ErrorView> {
    if (equal && actual != expect) || (!equal && actual < expect) {
        Err(Iso14229ErrorView::InvalidDataLength { expect, actual })
    } else {
        Ok(())
    }
}

/// Checks a data length: equal to `expect` when `equal`, else at least `expect`.
pub fn data_length_check(actual: usize, expect: usize, equal: bool) -> (r: Result<(), Iso14229Error>)
    ensures
        unit_result_view(r) == spec_length_check(actual, expect, equal),
{
    if equal {
        if actual != expect {
            return Err(Iso14229Error::InvalidDataLength { expect, actual });
        }
    } else {
        if actual < expect {
            return Err(Iso14229Error::InvalidDataLength { expect, actual });
        }
    }
    Ok(())
}

/// The `k`-th byte of `v`, counting from the least significant (0 beyond 16).
pub open spec fn byte_at(v: u128, k: nat) -> u8 {
    if k < 16 {
        ((v >> (8 * k) as u128) & 0xFF) as u8
    } else {
        0
    }
}

/// The `len` low bytes of `v`, big-endian.
pub open spec fn be_bytes(v: u128, len: nat) -> Seq<u8> {
    Seq::new(len, |i: int| byte_at(v, (len - 1 - i) as nat))
}

/// The number of bytes up to the most significant non-zero one (0 for 0).
pub open spec fn byte_len(v: u128) -> nat
    decreases v
    via byte_len_decreases
{
    if v == 0 {
        0
    } else {
        1 + byte_len(v >> 8)
    }
}

/// The big-endian value of `s`, keeping its last 16 bytes.
pub open spec fn be_value(s: Seq<u8>) -> u128
    decreases s.len(),
{
    if s.len() == 0 {
        0
    } else {
        (be_value(s.drop_last()) << 8u128) | s.last() as u128
    }
}

#[via_fn]
proof fn byte_len_decreases(v: u128) {
    lemma_shift_decreases(v);
}

proof fn lemma_shift_decreases(v: u128)
    ensures
        v != 0 ==> v >> 8u128 < v,
{
    assert(v != 0 ==> v >> 8u128 < v) by (bit_vector);
}

/// A value whose bytes from the `m`-th on are zero has at most `m` significant bytes.
proof fn lemma_byte_len_le(v: u128, m: nat)
    requires
        1 <= m <= 16,
        v >> (8 * m) as u128 == 0,
    ensures
        byte_len(v) <= m,
    decreases m,
{
    if v != 0 {
        lemma_shift_decreases(v);
        let w = v >> 8u128;
        if m == 1 {
            assert(w == 0);
            assert(byte_len(w) == 0);
        } else {
            let s = (8 * (m - 1)) as u128;
            assert(s + 8 <= 128);
            assert(v >> (s + 8) == 0 && s + 8 <= 128 ==> w >> s == 0) by (bit_vector)
                requires w == v >> 8u128;
            assert((8 * m) as u128 == s + 8);
            lemma_byte_len_le(w, (m - 1) as nat);
        }
    }
}

proof fn lemma_byte_len_bound(v: u128)
    ensures
        byte_len(v) <= 16,
{
    if v != 0 {
        lemma_shift_decreases(v);
        let w = v >> 8u128;
        assert(w >> 120u128 == 0) by (bit_vector)
            requires w == v >> 8u128;
        lemma_byte_len_le(w, 15);
    }
}

/// The number of significant bytes of `value`.
pub fn length_of_u_type(value: u128) -> (r: usize)
    ensures
        r == byte_len(value),
        r <= 16,
{
    let mut v = value;
    let mut result: usize = 0;
    proof {
        lemma_byte_len_bound(value);
    }
    while v > 0
        invariant
            result + byte_len(v) == byte_len(value),
            byte_len(value) <= 16,
        decreases v,
    {
        proof {
            lemma_shift_decreases(v);
        }
        result = result + 1;
        v = v >> 8;
    }
    result
}

/// The `len` low bytes of `value`, big-endian (zeros above the 16th byte).
pub fn u128_to_vec(value: u128, len: usize) -> (r: Vec<u8>)
    ensures
        r@ == be_bytes(value, len as nat),
{
    let mut result: Vec<u8> = Vec::new();
    let mut i: usize = 0;
    while i < len
        invariant
            i <= len,
            result@.len() == i,
            forall|j: int| 0 <= j < i ==> #[trigger] result@[j] == byte_at(value, (len - 1 - j) as nat),
        decreases len - i,
    {
        let k = len - 1 - i;
        let b = if k < 16 {
            let s = (8 * k) as u128;
            ((value >> s) & 0xFF) as u8
        } else {
            0
        };
        result.push(b);
        i = i + 1;
    }
    assert(result@ =~= be_bytes(value, len as nat));
    result
}

/// The significant bytes of `value`, big-endian (empty for 0).
pub fn u128_to_vec_fix(value: u128) -> (r: Vec<u8>)
    ensures
        r@ == be_bytes(value, byte_len(value)),
{
    let len = length_of_u_type(value);
    u128_to_vec(value, len)
}

/// The big-endian value of `slice` (bytes before its last 16 are dropped).
pub fn slice_to_u128(slice: &[u8]) -> (r: u128)
    ensures
        r == be_value(slice@),
{
    let mut acc: u128 = 0;
    let mut i: usize = 0;
    while i < slice.len()
        invariant
            i <= slice@.len(),
            acc == be_value(slice@.take(i as int)),
        decreases slice@.len() - i,
    {
        proof {
            assert(slice@.take(i + 1).drop_last() =~= slice@.take(i as int));
        }
        acc = (acc << 8u128) | slice[i] as u128;
        i = i + 1;
    }
    assert(slice@.take(slice@.len() as int) =~= slice@);
    acc
}

/// Splits a sub-function byte into the suppress-positive-response bit and the
/// sub-function proper.
pub fn peel_suppress_positive(value: u8) -> (r: (bool, u8))
    ensures
        r.0 == (value >= 0x80),
        r.1 == value % 0x80,
{
    assert((value & 0x80 == 0x80) == (value >= 0x80) && value & 0x7F == value % 0x80) by (bit_vector);
    ((value & SUPPRESS_POSITIVE) == SUPPRESS_POSITIVE, value & 0x7F)
}

} // verus!

verus! {

proof fn lemma_byte_at_shift(v: u128, k: nat)
    ensures
        byte_at(v, k + 1) == byte_at(v >> 8u128, k),
{
    let w = v >> 8u128;
    if k + 1 < 16 {
        let s = (8 * k) as u128;
        assert(s < 120);
        assert(s < 120 ==> (v >> (s + 8)) & 0xFF == (w >> s) & 0xFF) by (bit_vector)
            requires w == v >> 8u128;
        assert((8 * (k + 1)) as u128 == s + 8);
    } else if k + 1 == 16 {
        assert((w >> 120u128) & 0xFF == 0) by (bit_vector)
            requires w == v >> 8u128;
    }
}

/// Writing the `n` low bytes of `v` big-endian and reading them back gives
/// `v`, when `v` has at most `n` significant bytes.
pub proof fn u128_bytes_roundtrip(v: u128, n: nat)
    requires
        byte_len(v) <= n,
    ensures
        be_value(be_bytes(v, n)) == v,
    decreases n,
{
    if n == 0 {
        if v != 0 {
            assert(byte_len(v) >= 1);
        }
        assert(be_bytes(v, 0) =~= Seq::<u8>::empty());
    } else {
        let w = v >> 8u128;
        lemma_shift_decreases(v);
        if v == 0 {
            assert(w == 0) by (bit_vector) requires w == v >> 8u128, v == 0;
        }
        u128_bytes_roundtrip(w, (n - 1) as nat);
        let s = be_bytes(v, n);
        assert forall|i: int| 0 <= i < n - 1 implies #[trigger] s.drop_last()[i] == be_bytes(w, (n - 1) as nat)[i] by {
            lemma_byte_at_shift(v, (n - 2 - i) as nat);
        }
        assert(s.drop_last() =~= be_bytes(w, (n - 1) as nat));
        assert(v >> 0u128 == v) by (bit_vector);
        assert(s.last() == byte_at(v, 0));
        assert(s.last() == (v & 0xFF) as u8);
        assert((w << 8u128) | ((v & 0xFF) as u8) as u128 == v) by (bit_vector)
            requires w == v >> 8u128;
    }
}

/// The big-endian value of at most 15 bytes lies below 256 to the power of their count.
proof fn lemma_be_value_bound(s: Seq<u8>)
    requires
        s.len() <= 15,
    ensures
        be_value(s) >> (8 * s.len()) as u128 == 0,
    decreases s.len(),
{
    if s.len() == 0 {
        assert(0u128 >> 0u128 == 0) by (bit_vector);
    } else {
        let t = s.drop_last();
        lemma_be_value_bound(t);
        let w = be_value(t);
        let b = s.last();
        let k = (8 * t.len()) as u128;
        assert(k <= 112);
        assert(w >> k == 0 && k <= 112 ==> ((w << 8u128) | (b as u128)) >> (k + 8) == 0) by (bit_vector);
        assert((8 * s.len()) as u128 == k + 8);
    }
}

/// Reading at most 16 bytes big-endian and writing the value back in as many
/// bytes gives those bytes.
pub proof fn bytes_u128_roundtrip(s: Seq<u8>)
    requires
        s.len() <= 16,
    ensures
        be_bytes(be_value(s), s.len()) == s,
    decreases s.len(),
{
    let n = s.len();
    if n == 0 {
        assert(be_bytes(be_value(s), 0) =~= s);
    } else {
        let t = s.drop_last();
        let w = be_value(t);
        let b = s.last();
        let v = be_value(s);
        bytes_u128_roundtrip(t);
        lemma_be_value_bound(t);
        let k = (8 * t.len()) as u128;
        assert(k <= 120);
        assert((w >> k == 0 && k <= 120 ==> ((w << 8u128) | (b as u128)) >> 8u128 == w)
            && ((((w << 8u128) | (b as u128)) >> 0u128) & 0xFF) as u8 == b) by (bit_vector);
        assert(v >> 8u128 == w);
        assert forall|i: int| 0 <= i < n implies #[trigger] be_bytes(v, n)[i] == s[i] by {
            if i < n - 1 {
                lemma_byte_at_shift(v, (n - 2 - i) as nat);
                assert(be_bytes(w, (n - 1) as nat)[i] == t[i]);
            } else {
                assert(byte_at(v, 0) == b);
            }
        }
        assert(be_bytes(v, n) =~= s);
    }
}

} // verus!
