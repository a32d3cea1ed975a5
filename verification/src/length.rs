//! Which lengths can be mapped twice, and why the others cannot.

use vstd::prelude::*;
use vstd::arithmetic::div_mod::{lemma_mod_breakdown, lemma_small_mod};
use vstd::arithmetic::power2::is_pow2;
use crate::error::{decimal, decimal_string, MagicBufferError};

verus! {

/// A length can be mapped twice when it is a power of two and a multiple of
/// the granularity at which the operating system maps memory.
pub open spec fn valid_len(len: int, min_len: int) -> bool {
    is_pow2(len) && len % min_len == 0
}

/// The rule that `len` breaks, if it breaks one: the first of "positive",
/// "power of two" and "multiple of `min_len`".
pub open spec fn rejection(len: int, min_len: int) -> Option<Seq<char>> {
    if len == 0 {
        Some("len must be greater than 0"@)
    } else if !is_pow2(len) {
        Some("len must be power of two"@)
    } else if len % min_len != 0 {
        Some("len must be page aligned, "@ + decimal(min_len as nat))
    } else {
        None
    }
}

/// A length is rejected exactly when it is not valid. A length below the
/// granularity is never valid.
pub proof fn lemma_rejection_iff_invalid(len: int, min_len: int)
    requires
        0 <= len,
    ensures
        rejection(len, min_len) is None <==> valid_len(len, min_len),
        len < min_len ==> rejection(len, min_len) is Some,
{
    reveal(is_pow2);
    if 0 < len < min_len {
        lemma_small_mod(len as nat, min_len as nat);
    }
}

proof fn lemma_clear_lowest_bit_step(x: usize)
    by (bit_vector)
    requires
        x >= 2,
    ensures
        (x & ((x - 1) as usize)) == 0 <==> (x % 2 == 0 && ((x / 2) & ((x / 2 - 1) as usize)) == 0),
{
}

/// Clearing the lowest set bit leaves nothing exactly when one bit is set.
pub proof fn lemma_single_bit_iff_pow2(x: usize)
    requires
        x > 0,
    ensures
        (x & ((x - 1) as usize)) == 0 <==> is_pow2(x as int),
    decreases x,
{
    reveal(is_pow2);
    if x == 1 {
        assert(1usize & 0usize == 0) by (bit_vector);
    } else {
        lemma_clear_lowest_bit_step(x);
        lemma_single_bit_iff_pow2(x / 2);
    }
}

proof fn lemma_mask_step(v: usize, len: usize)
    by (bit_vector)
    requires
        len >= 2,
        len % 2 == 0,
    ensures
        v & ((len - 1) as usize) == 2 * ((v / 2) & ((len / 2 - 1) as usize)) + v % 2,
{
}

/// Below a power of two, masking with its predecessor is the remainder.
pub proof fn lemma_mask_is_mod(v: usize, len: usize)
    requires
        is_pow2(len as int),
    ensures
        v & ((len - 1) as usize) == v % len,
        (v & ((len - 1) as usize)) < len,
    decreases len,
{
    reveal(is_pow2);
    if len == 1 {
        assert(v & 0usize == 0) by (bit_vector);
    } else {
        let half = (len / 2) as usize;
        lemma_mask_step(v, len);
        lemma_mask_is_mod((v / 2) as usize, half);
        lemma_mod_breakdown(v as int, 2, half as int);
    }
}

/// Whether exactly one bit of `len` is set.
pub fn is_power_of_two(len: usize) -> (r: bool)
    ensures
        r == is_pow2(len as int),
{
    if len == 0 {
        proof {
            reveal(is_pow2);
        }
        false
    } else {
        proof {
            lemma_single_bit_iff_pow2(len);
        }
        len & (len - 1) == 0
    }
}

/// Accepts the lengths that can be mapped twice at granularity `min_len`, and
/// names for any other the first rule that it breaks.
pub fn validate(len: usize, min_len: usize) -> (r: Result<(), MagicBufferError>)
    requires
        min_len > 0,
    ensures
        r is Ok <==> valid_len(len as int, min_len as int),
        match rejection(len as int, min_len as int) {
            None => r is Ok,
            Some(reason) => r matches Err(MagicBufferError::InvalidLen { msg }) && msg@ == reason,
        },
{
    proof {
        lemma_rejection_iff_invalid(len as int, min_len as int);
    }
    if len == 0 {
        return Err(MagicBufferError::InvalidLen { msg: String::from_str("len must be greater than 0") });
    }
    if !is_power_of_two(len) {
        return Err(MagicBufferError::InvalidLen { msg: String::from_str("len must be power of two") });
    }
    if len % min_len != 0 {
        let msg = String::from_str("len must be page aligned, ").concat(
            decimal_string(min_len).as_str(),
        );
        return Err(MagicBufferError::InvalidLen { msg });
    }
    Ok(())
}

} // verus!
