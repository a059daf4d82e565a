//! Bit-field helpers shared by the decoder and the execution engine:
//! single-bit access, gathering the bits of a field selected by a mask,
//! putting them back, and two's-complement sign extension.

use vstd::prelude::*;

verus! {

/// Bit `i` of a 32-bit word.
pub open spec fn bit32(x: u32, i: u32) -> bool {
    (x >> i) & 1 == 1
}

/// Bit `i` of a byte.
pub open spec fn bit8(x: u8, i: u8) -> bool {
    (x >> i) & 1 == 1
}

/// How many bits of `mask` are set below position `n`.
pub open spec fn rank(mask: u32, n: nat) -> nat
    decreases n,
{
    if n == 0 {
        0
    } else {
        rank(mask, (n - 1) as nat) + if bit32(mask, (n - 1) as u32) {
            1nat
        } else {
            0nat
        }
    }
}

/// The bits of `raw` that `mask` selects below position `n`, packed towards
/// bit 0 in the order in which they stand.
pub open spec fn extract_low(mask: u32, raw: u32, n: nat) -> u32
    decreases n,
{
    if n == 0 {
        0
    } else {
        let i = (n - 1) as u32;
        let rest = extract_low(mask, raw, (n - 1) as nat);
        if bit32(mask, i) {
            rest | (((raw >> i) & 1) << (rank(mask, i as nat) as u32))
        } else {
            rest
        }
    }
}

/// The field of `raw` that `mask` selects, as a number.
pub open spec fn extract_bits(mask: u32, raw: u32) -> u32 {
    extract_low(mask, raw, 32)
}

/// The inverse of `extract_low`: bit `rank(mask, i)` of `value` goes back to
/// each selected position `i` below `n`; every other position is zero.
pub open spec fn deposit_low(mask: u32, value: u32, n: nat) -> u32
    decreases n,
{
    if n == 0 {
        0
    } else {
        let i = (n - 1) as u32;
        let rest = deposit_low(mask, value, (n - 1) as nat);
        if bit32(mask, i) {
            rest | (((value >> (rank(mask, i as nat) as u32)) & 1) << i)
        } else {
            rest
        }
    }
}

/// The word whose field under `mask` holds `value`.
pub open spec fn deposit_bits(mask: u32, value: u32) -> u32 {
    deposit_low(mask, value, 32)
}

/// A field of `len` bits read as a two's-complement number.
pub open spec fn sign_extend(val: int, len: nat) -> int
    recommends
        len >= 1,
{
    if val < half_range(len) {
        val
    } else {
        val - 2 * half_range(len)
    }
}

/// Two to the power `len - 1`: the first value of a `len`-bit field that
/// stands for a negative number.
pub open spec fn half_range(len: nat) -> int
    decreases len,
{
    if len <= 1 {
        1
    } else {
        2 * half_range((len - 1) as nat)
    }
}

pub(crate) proof fn lemma_rank_bound(mask: u32, n: nat)
    ensures
        rank(mask, n) <= n,
    decreases n,
{
    if n > 0 {
        lemma_rank_bound(mask, (n - 1) as nat);
    }
}

pub(crate) proof fn lemma_rank_monotonic(mask: u32, a: nat, b: nat)
    requires
        a <= b,
    ensures
        rank(mask, a) <= rank(mask, b),
    decreases b,
{
    if a < b {
        lemma_rank_monotonic(mask, a, (b - 1) as nat);
    }
}

proof fn lemma_or_shifted_bit(r: u32, b: u32, p: u32, k: u32)
    by (bit_vector)
    requires
        b <= 1,
        p < 32,
        k < 32,
    ensures
        k != p ==> ((((r | (b << p)) >> k) & 1) == ((r >> k) & 1)),
        ((r >> p) & 1) == 0 ==> (((r | (b << p)) >> p) & 1) == b,
{
}

proof fn lemma_single_bit(x: u32, i: u32)
    by (bit_vector)
    requires
        i < 32,
    ensures
        (x >> i) & 1 <= 1,
        (0u32 >> i) & 1 == 0,
{
}

/// No bit of `extract_low(mask, raw, n)` stands at or above `rank(mask, n)`.
pub(crate) proof fn lemma_extract_low_top(mask: u32, raw: u32, n: nat, k: u32)
    requires
        n <= 32,
        rank(mask, n) <= k < 32,
    ensures
        !bit32(extract_low(mask, raw, n), k),
    decreases n,
{
    if n == 0 {
        lemma_single_bit(0, k);
    } else {
        let m = (n - 1) as nat;
        let i0 = m as u32;
        let rest = extract_low(mask, raw, m);
        lemma_extract_low_top(mask, raw, m, k);
        lemma_rank_bound(mask, m);
        if bit32(mask, i0) {
            let b = (raw >> i0) & 1;
            let p = rank(mask, m) as u32;
            lemma_single_bit(raw, i0);
            lemma_or_shifted_bit(rest, b, p, k);
        }
    }
}

/// In `extract_low(mask, raw, n)` the bit at the rank of a selected position
/// `i` below `n` is bit `i` of `raw`.
pub(crate) proof fn lemma_extract_low_selected(mask: u32, raw: u32, n: nat, i: u32)
    requires
        i < n <= 32,
        bit32(mask, i),
    ensures
        rank(mask, i as nat) < 32,
        bit32(extract_low(mask, raw, n), rank(mask, i as nat) as u32) == bit32(raw, i),
    decreases n,
{
    let m = (n - 1) as nat;
    let i0 = m as u32;
    let rest = extract_low(mask, raw, m);
    lemma_rank_bound(mask, m);
    lemma_rank_bound(mask, i as nat);
    let p = rank(mask, m) as u32;
    let q = rank(mask, i as nat) as u32;
    if i == i0 {
        let b = (raw >> i0) & 1;
        lemma_single_bit(raw, i0);
        lemma_extract_low_top(mask, raw, m, p);
        lemma_single_bit(rest, p);
        lemma_or_shifted_bit(rest, b, p, p);
    } else {
        lemma_extract_low_selected(mask, raw, m, i);
        if bit32(mask, i0) {
            let b = (raw >> i0) & 1;
            lemma_single_bit(raw, i0);
            lemma_rank_monotonic(mask, (i + 1) as nat, m);
            assert(q < p);
            lemma_or_shifted_bit(rest, b, p, q);
        }
    }
}

/// Gathers the bits of `raw` that `mask` selects, scanning from bit 0 upward,
/// and packs them from bit 0 of the result in the same order.
pub fn gather_bits(mask: u32, raw: u32) -> (r: u32)
    ensures
        r == extract_bits(mask, raw),
{
    let mut result: u32 = 0;
    let mut pos: u32 = 0;
    let mut i: u32 = 0;
    while i < 32
        invariant
            i <= 32,
            pos == rank(mask, i as nat),
            pos <= i,
            result == extract_low(mask, raw, i as nat),
        decreases 32 - i,
    {
        if (mask >> i) & 1 == 1 {
            let b: u32 = (raw >> i) & 1;
            result = result | (b << pos);
            pos = pos + 1;
        }
        i = i + 1;
    }
    result
}

/// Puts the low bits of `value` back at the positions that `mask` selects.
pub fn scatter_bits(mask: u32, value: u32) -> (r: u32)
    ensures
        r == deposit_bits(mask, value),
{
    let mut result: u32 = 0;
    let mut pos: u32 = 0;
    let mut i: u32 = 0;
    while i < 32
        invariant
            i <= 32,
            pos == rank(mask, i as nat),
            pos <= i,
            result == deposit_low(mask, value, i as nat),
        decreases 32 - i,
    {
        if (mask >> i) & 1 == 1 {
            let b: u32 = (value >> pos) & 1;
            result = result | (b << i);
            pos = pos + 1;
        }
        i = i + 1;
    }
    result
}

proof fn lemma_low_mask_step(raw: u32, mask: u32, rest: u32, i: u32, b: u32)
    by (bit_vector)
    requires
        i < 32,
        rest == raw & mask & (((1u64 << i) - 1) as u32),
        ((mask >> i) & 1 == 1) ==> b == (raw >> i) & 1,
    ensures
        ((mask >> i) & 1 == 1) ==> (rest | (b << i)) == raw & mask & (((1u64 << (i + 1) as u64)
            - 1) as u32),
        ((mask >> i) & 1 != 1) ==> rest == raw & mask & (((1u64 << (i + 1) as u64) - 1) as u32),
{
}

proof fn lemma_low_mask_ends(x: u32)
    by (bit_vector)
    ensures
        x & (((1u64 << 0) - 1) as u32) == 0,
        x & (((1u64 << 32) - 1) as u32) == x,
{
}

proof fn lemma_deposit_of_extract(mask: u32, raw: u32, n: nat)
    requires
        n <= 32,
    ensures
        deposit_low(mask, extract_bits(mask, raw), n) == raw & mask & (((1u64 << n as u64)
            - 1) as u32),
    decreases n,
{
    let field = extract_bits(mask, raw);
    if n == 0 {
        lemma_low_mask_ends(raw & mask);
    } else {
        let m = (n - 1) as nat;
        let i = m as u32;
        let rest = deposit_low(mask, field, m);
        lemma_deposit_of_extract(mask, raw, m);
        lemma_rank_bound(mask, m);
        let b = (field >> (rank(mask, m) as u32)) & 1;
        if bit32(mask, i) {
            lemma_extract_low_selected(mask, raw, 32, i);
            lemma_single_bit(field, rank(mask, m) as u32);
            lemma_single_bit(raw, i);
            assert(b == (raw >> i) & 1);
        }
        lemma_low_mask_step(raw, mask, rest, i, b);
    }
}

/// Extracting a field and putting it back at the same positions gives the
/// part of the word that the mask selects.
pub proof fn lemma_extract_then_deposit(mask: u32, raw: u32)
    ensures
        deposit_bits(mask, extract_bits(mask, raw)) == raw & mask,
{
    lemma_deposit_of_extract(mask, raw, 32);
    lemma_low_mask_ends(raw & mask);
}

/// In an extracted field, the bit at the rank of a selected position is that
/// position's bit of the word.
pub proof fn lemma_extract_bits_selected(mask: u32, raw: u32, i: u32)
    requires
        i < 32,
        bit32(mask, i),
    ensures
        rank(mask, i as nat) < 32,
        bit32(extract_bits(mask, raw), rank(mask, i as nat) as u32) == bit32(raw, i),
{
    lemma_extract_low_selected(mask, raw, 32, i);
}

/// An extracted field has no bit at or above the number of selected
/// positions.
pub proof fn lemma_extract_bits_top(mask: u32, raw: u32, k: u32)
    requires
        rank(mask, 32) <= k < 32,
    ensures
        !bit32(extract_bits(mask, raw), k),
{
    lemma_extract_low_top(mask, raw, 32, k);
}

/// Reads bit `n` of a byte.
pub(crate) fn get_bit(data: u8, n: u8) -> (r: bool)
    requires
        n < 8,
    ensures
        r == bit8(data, n),
{
    ((data >> n) & 1) == 1
}

} // verus!
