//! Bit-level helpers for the waker pages: a page packs one status bit per
//! slot into a 64-bit word.

use vstd::prelude::*;

verus! {

/// Number of slots per waker page.
pub const WAKER_BIT_LENGTH: usize = 64;

/// Base-two logarithm of the page width, for packing a slab index into a
/// `(page, offset)` pair.
pub const WAKER_BIT_LENGTH_SHIFT: usize = 6;

/// On every architecture Verus admits, the largest `usize` value is one
/// below a power of two no smaller than 64, so it leaves remainder 63
/// modulo the page width.
pub proof fn lemma_usize_max_mod_64()
    ensures
        usize::MAX as int % 64 == 63,
{
    assert(usize::MAX as int == 0xffff_ffff || usize::MAX as int == 0xffff_ffff_ffff_ffff);
}

/// Whether bit `b` of `m` is set.
pub open spec fn is_bit_set(m: u64, b: u64) -> bool {
    m & (1u64 << b) != 0u64
}

/// Setting bit `b` sets exactly that bit and leaves the others alone.
pub proof fn lemma_set_bit(m: u64, b: u64, i: u64)
    requires
        b < 64,
        i < 64,
    ensures
        is_bit_set(m | (1u64 << b), i) == (i == b || is_bit_set(m, i)),
{
    assert((m | (1u64 << b)) & (1u64 << i) != 0u64 <==> (i == b || m & (1u64 << i) != 0u64))
        by (bit_vector)
        requires
            b < 64,
            i < 64,
    ;
}

/// Clearing bit `b` clears exactly that bit and leaves the others alone.
pub proof fn lemma_clear_bit(m: u64, b: u64, i: u64)
    requires
        b < 64,
        i < 64,
    ensures
        is_bit_set(m & !(1u64 << b), i) == (i != b && is_bit_set(m, i)),
{
    assert((m & !(1u64 << b)) & (1u64 << i) != 0u64 <==> (i != b && m & (1u64 << i) != 0u64))
        by (bit_vector)
        requires
            b < 64,
            i < 64,
    ;
}

/// The zero word has no bit set.
pub proof fn lemma_no_bit_set_in_zero(i: u64)
    requires
        i < 64,
    ensures
        !is_bit_set(0u64, i),
{
    assert(0u64 & (1u64 << i) == 0u64) by (bit_vector);
}

/// Relies on `bit_iter::BitIter`: iterating a word yields the positions of
/// its set bits, in ascending order.
#[verifier::external_body]
pub(crate) fn set_bit_positions(mask: u64) -> (r: Vec<usize>)
    ensures
        forall|k: int|
            0 <= k < r@.len() ==> r@[k] < 64 && is_bit_set(mask, #[trigger] r@[k] as u64),
        forall|b: u64| b < 64 && is_bit_set(mask, b) ==> r@.contains(b as usize),
        forall|k1: int, k2: int| 0 <= k1 < k2 < r@.len() ==> r@[k1] < r@[k2],
{
    bit_iter::BitIter::from(mask).collect()
}

} // verus!
