use vstd::prelude::*;

use crate::duration::{whole_micros, whole_millis, whole_secs, EpochDuration};

verus! {

/// Whole `j * k`-units of `n`, counted in `k`-units, never exceed the whole
/// `j`-units of `n`.
proof fn lemma_coarser_units(n: nat, j: nat, k: nat)
    requires
        j > 0,
        k > 0,
    ensures
        (n / (j * k)) * k <= n / j,
{
    vstd::arithmetic::div_mod::lemma_div_denominator(n as int, j as int, k as int);
    vstd::arithmetic::div_mod::lemma_fundamental_div_mod((n / j) as int, k as int);
    vstd::arithmetic::div_mod::lemma_mod_pos_bound((n / j) as int, k as int);
    assert((n / (j * k)) * k == k * ((n / j) / k)) by (nonlinear_arith)
        requires
            n / (j * k) == (n / j) / k,
    ;
}

/// A clock reading in whole seconds, scaled to milliseconds, never exceeds a
/// reading in whole milliseconds taken at the same moment or later.
pub proof fn lemma_secs_within_later_millis(earlier: EpochDuration, later: EpochDuration)
    requires
        earlier.wf(),
        later.wf(),
        earlier@ <= later@,
    ensures
        whole_secs(earlier@) * 1000 <= whole_millis(later@),
{
    lemma_coarser_units(earlier@, 1_000_000, 1000);
    vstd::arithmetic::div_mod::lemma_div_is_ordered(earlier@ as int, later@ as int, 1_000_000);
}

/// A clock reading in nanoseconds, cut to whole milliseconds, never exceeds a
/// reading in whole milliseconds taken at the same moment or later.
pub proof fn lemma_nanos_within_later_millis(earlier: EpochDuration, later: EpochDuration)
    requires
        earlier.wf(),
        later.wf(),
        earlier@ <= later@,
    ensures
        earlier@ / 1_000_000 <= whole_millis(later@),
{
    vstd::arithmetic::div_mod::lemma_div_is_ordered(earlier@ as int, later@ as int, 1_000_000);
}

/// Of two clock readings where the second is not earlier, every unit gives
/// the second a value at least that of the first: truncation may make them
/// equal, never reverse them.
pub proof fn lemma_conversions_monotonic(first: EpochDuration, second: EpochDuration)
    requires
        first.wf(),
        second.wf(),
        first@ <= second@,
    ensures
        whole_secs(first@) <= whole_secs(second@),
        whole_millis(first@) <= whole_millis(second@),
        whole_micros(first@) <= whole_micros(second@),
        first@ <= second@,
{
    vstd::arithmetic::div_mod::lemma_div_is_ordered(first@ as int, second@ as int, 1_000_000_000);
    vstd::arithmetic::div_mod::lemma_div_is_ordered(first@ as int, second@ as int, 1_000_000);
    vstd::arithmetic::div_mod::lemma_div_is_ordered(first@ as int, second@ as int, 1000);
}

/// A single reading in whole milliseconds lies within the second that the
/// same reading gives in whole seconds.
pub proof fn lemma_millis_within_second(d: EpochDuration)
    requires
        d.wf(),
    ensures
        whole_secs(d@) * 1000 <= whole_millis(d@) < whole_secs(d@) * 1000 + 1000,
{
    let m = d@ / 1_000_000;
    vstd::arithmetic::div_mod::lemma_div_denominator(d@ as int, 1_000_000, 1000);
    vstd::arithmetic::div_mod::lemma_fundamental_div_mod(m as int, 1000);
    vstd::arithmetic::div_mod::lemma_mod_pos_bound(m as int, 1000);
}

} // verus!
