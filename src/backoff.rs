use std::ops::RangeInclusive;
use vstd::arithmetic::power2::{lemma_pow2_pos, lemma_pow2_unfold, pow2};
use vstd::prelude::*;

verus! {

/// Relies on `RangeInclusive::start`: it hands back the range's lower bound.
pub assume_specification<Idx>[ RangeInclusive::<Idx>::start ](r: &RangeInclusive<Idx>) -> (s: &Idx)
    ensures
        *s == r@.start,
;

/// Relies on `RangeInclusive::end`: it hands back the range's upper bound.
pub assume_specification<Idx>[ RangeInclusive::<Idx>::end ](r: &RangeInclusive<Idx>) -> (e: &Idx)
    ensures
        *e == r@.end,
;

/// The `k`-th interval handed out after a fresh start or a reset: the lower
/// bound doubled `k` times, capped at the upper bound.
pub open spec fn backoff_term(min: nat, max: nat, k: nat) -> nat {
    if min * pow2(k) < max {
        min * pow2(k)
    } else {
        max
    }
}

/// Each interval is the previous one doubled, capped at the upper bound.
pub proof fn lemma_backoff_term_step(min: nat, max: nat, k: nat)
    requires
        min <= max,
    ensures
        backoff_term(min, max, 0) == min,
        backoff_term(min, max, k + 1) == if 2 * backoff_term(min, max, k) < max {
            2 * backoff_term(min, max, k)
        } else {
            max
        },
        backoff_term(min, max, k) <= max,
{
    lemma_pow2_unfold(k + 1);
    lemma_pow2_pos(k);
    assert(pow2(0) == 1) by {
        vstd::arithmetic::power2::lemma2_to64();
    }
    assert(min * pow2(k + 1) == 2 * (min * pow2(k))) by (nonlinear_arith)
        requires
            pow2(k + 1) == 2 * pow2(k),
    ;
    assert(min * pow2(k) <= min * pow2(k + 1)) by (nonlinear_arith)
        requires
            pow2(k + 1) == 2 * pow2(k),
    ;
}

/// Once saturated, the interval stays at the upper bound.
pub proof fn lemma_backoff_saturated(min: nat, max: nat, k: nat, j: nat)
    requires
        min <= max,
        backoff_term(min, max, k) == max,
        k <= j,
    ensures
        backoff_term(min, max, j) == max,
    decreases j - k,
{
    if k < j {
        lemma_backoff_saturated(min, max, k, (j - 1) as nat);
        lemma_backoff_term_step(min, max, (j - 1) as nat);
    }
}

pub struct BackoffView {
    pub value: nat,
    pub min: nat,
    pub max: nat,
    /// Intervals handed out since construction or the last reset.
    pub calls: nat,
}

/// The state after one interval was handed out: the next one is doubled,
/// capped at the upper bound.
pub open spec fn advanced(v: BackoffView) -> BackoffView {
    BackoffView {
        value: if 2 * v.value < v.max {
            2 * v.value
        } else {
            v.max
        },
        calls: v.calls + 1,
        ..v
    }
}

/// Exponential retry interval generator, bounded by an inclusive range.
pub struct Backoff {
    value: u8,
    min: u8,
    max: u8,
    calls: Ghost<nat>,
}

impl View for Backoff {
    type V = BackoffView;

    closed spec fn view(&self) -> BackoffView {
        BackoffView {
            value: self.value as nat,
            min: self.min as nat,
            max: self.max as nat,
            calls: self.calls@,
        }
    }
}

impl Backoff {
    pub closed spec fn wf(&self) -> bool {
        &&& self.min <= self.max
        &&& self.value as nat == backoff_term(self.min as nat, self.max as nat, self.calls@)
    }

    pub fn new(range: RangeInclusive<u8>) -> (r: Self)
        requires
            range@.start <= range@.end,
        ensures
            r.wf(),
            r@.min == range@.start,
            r@.max == range@.end,
            r@.calls == 0,
            r@.value == range@.start,
    {
        let min = *range.start();
        let max = *range.end();
        proof {
            lemma_backoff_term_step(min as nat, max as nat, 0);
        }
        Backoff { value: min, min, max, calls: Ghost(0) }
    }

    /// Hands out the current interval and doubles the next one, up to the upper bound.
    pub fn next(&mut self) -> (r: u8)
        requires
            old(self).wf(),
        ensures
            final(self).wf(),
            r as nat == old(self)@.value,
            r as nat == backoff_term(old(self)@.min, old(self)@.max, old(self)@.calls),
            final(self)@ == advanced(old(self)@),
    {
        proof {
            lemma_backoff_term_step(self.min as nat, self.max as nat, self.calls@);
        }
        let old_value = self.value;
        let doubled: u16 = 2 * (old_value as u16);
        self.value = if doubled < self.max as u16 {
            doubled as u8
        } else {
            self.max
        };
        self.calls = Ghost(self.calls@ + 1);
        old_value
    }

    /// Starts the sequence over from the lower bound.
    pub fn reset(&mut self)
        requires
            old(self).wf(),
        ensures
            final(self).wf(),
            final(self)@.value == old(self)@.min,
            final(self)@.calls == 0,
            final(self)@.min == old(self)@.min,
            final(self)@.max == old(self)@.max,
    {
        proof {
            lemma_backoff_term_step(self.min as nat, self.max as nat, 0);
        }
        self.value = self.min;
        self.calls = Ghost(0);
    }
}

} // verus!
