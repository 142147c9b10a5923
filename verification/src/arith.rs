//! Shared facts about the pro-rata division both time-based unlock formulas
//! use: `total * elapsed / duration` stays between 0 and `total`, and grows
//! with `elapsed`.
use vstd::prelude::*;

use vstd::arithmetic::div_mod::{
    lemma_div_is_ordered, lemma_div_multiples_vanish, lemma_div_pos_is_pos,
};
use vstd::arithmetic::mul::{lemma_mul_inequality, lemma_mul_is_commutative, lemma_mul_nonnegative};

verus! {

/// For `0 <= total` and `0 <= elapsed <= duration` with `duration > 0`, the
/// pro-rata share `total * elapsed / duration` lies between 0 and `total`.
pub proof fn lemma_pro_rata_bounds(total: int, elapsed: int, duration: int)
    requires
        0 <= total,
        0 <= elapsed,
        elapsed <= duration,
        0 < duration,
    ensures
        0 <= total * elapsed / duration,
        total * elapsed / duration <= total,
{
    lemma_mul_nonnegative(total, elapsed);
    lemma_div_pos_is_pos(total * elapsed, duration);
    lemma_mul_inequality(elapsed, duration, total);
    lemma_mul_is_commutative(total, elapsed);
    lemma_mul_is_commutative(total, duration);
    lemma_div_is_ordered(total * elapsed, total * duration, duration);
    lemma_div_multiples_vanish(total, duration);
}

/// For a fixed nonnegative `total` and positive `duration`, the pro-rata
/// share grows with the elapsed time.
pub proof fn lemma_pro_rata_monotonic(total: int, elapsed1: int, elapsed2: int, duration: int)
    requires
        0 <= total,
        elapsed1 <= elapsed2,
        0 < duration,
    ensures
        total * elapsed1 / duration <= total * elapsed2 / duration,
{
    lemma_mul_inequality(elapsed1, elapsed2, total);
    lemma_mul_is_commutative(total, elapsed1);
    lemma_mul_is_commutative(total, elapsed2);
    lemma_div_is_ordered(total * elapsed1, total * elapsed2, duration);
}

} // verus!
