//! The periodic timer of one worker.
//!
//! A ticker keeps a single deadline on a fixed grid of instants, one period
//! apart. Firing it moves the deadline to the first instant of the grid
//! that is still to come: however many periods a cycle overran, the ticks
//! that were due meanwhile count as one, and no backlog builds up.

use vstd::prelude::*;
use vstd::arithmetic::div_mod::{
    lemma_fundamental_div_mod,
    lemma_fundamental_div_mod_converse,
    lemma_mod_bound,
};
use vstd::arithmetic::mul::{lemma_mul_inequality, lemma_mul_is_commutative};
use crate::time::{Span, Timestamp};

verus! {

/// The deadline that follows a tick taken at `now`, where the tick was due
/// at `deadline` and the period is `period`: the first instant of the grid
/// after `now`, and at least one period after `deadline`.
pub open spec fn next_deadline(deadline: nat, period: nat, now: nat) -> nat
    recommends
        period > 0,
{
    if now < deadline {
        deadline + period
    } else {
        deadline + period * ((now - deadline) as nat / period + 1)
    }
}

/// What `next_deadline` amounts to for a tick that was not taken early: the
/// one instant of the grid that lies after `now` and no more than a period
/// after it.
pub proof fn lemma_next_deadline_is_first_on_grid(deadline: nat, period: nat, now: nat)
    requires
        period > 0,
        deadline <= now,
    ensures
        now < next_deadline(deadline, period, now) <= now + period,
        (next_deadline(deadline, period, now) - deadline) % (period as int) == 0,
        forall|k: nat| now < #[trigger] (deadline + k * period) <= now + period ==> deadline + k * period
            == next_deadline(deadline, period, now),
{
    let late: int = now - deadline;
    let p: int = period as int;
    let q: int = late / p;
    lemma_fundamental_div_mod(late, p);
    lemma_mod_bound(late, p);
    assert(p * (q + 1) == p * q + p) by (nonlinear_arith);
    assert(next_deadline(deadline, period, now) == deadline + p * (q + 1));
    lemma_mul_is_commutative(p, q + 1);
    lemma_fundamental_div_mod_converse(p * (q + 1), p, q + 1, 0);
    assert forall|k: nat| now < #[trigger] (deadline + k * period) <= now + period implies deadline
        + k * period == next_deadline(deadline, period, now) by {
        let ki: int = k as int;
        if ki <= q {
            lemma_mul_inequality(ki, q, p);
            lemma_mul_is_commutative(p, q);
            assert(false);
        }
        if ki >= q + 2 {
            lemma_mul_inequality(q + 2, ki, p);
            assert((q + 2) * p == p * q + 2 * p) by (nonlinear_arith);
            assert(false);
        }
        assert(ki == q + 1);
        lemma_mul_is_commutative(p, q + 1);
    }
}

/// The state of a ticker, as contracts see it: its period and the instant
/// at which its next tick is due.
pub struct TickerState {
    pub period: Span,
    pub deadline: Timestamp,
}

/// A periodic timer.
#[derive(Clone, Copy, Debug)]
pub struct Ticker {
    period: Span,
    deadline: Timestamp,
}

impl View for Ticker {
    type V = TickerState;

    closed spec fn view(&self) -> TickerState {
        TickerState { period: self.period, deadline: self.deadline }
    }
}

impl Ticker {
    /// A ticker ticks at a positive period.
    pub open spec fn wf(&self) -> bool {
        self@.period.nanos > 0
    }

    /// A ticker of the given period whose first tick is due at `start`, at
    /// once.
    pub fn new(period: Span, start: Timestamp) -> (ticker: Ticker)
        requires
            period.nanos > 0,
        ensures
            ticker.wf(),
            ticker@ == (TickerState { period, deadline: start }),
    {
        Ticker { period, deadline: start }
    }

    /// The period at which the ticker ticks.
    pub fn period(&self) -> (period: Span)
        ensures
            period == self@.period,
    {
        self.period
    }

    /// The instant at which the next tick is due.
    pub fn deadline(&self) -> (deadline: Timestamp)
        ensures
            deadline == self@.deadline,
    {
        self.deadline
    }

    /// Takes the tick at `now` and moves the deadline on. Returns the new
    /// deadline, or `None`, with the ticker unchanged, where the new
    /// deadline lies beyond what 64 bits can count.
    pub fn fire(&mut self, now: Timestamp) -> (next: Option<Timestamp>)
        requires
            old(self).wf(),
        ensures
            final(self).wf(),
            next.is_some() <==> next_deadline(
                old(self)@.deadline.nanos as nat,
                old(self)@.period.nanos as nat,
                now.nanos as nat,
            ) <= u64::MAX,
            next matches Some(at) ==> at.nanos == next_deadline(
                old(self)@.deadline.nanos as nat,
                old(self)@.period.nanos as nat,
                now.nanos as nat,
            ) && final(self)@ == (TickerState { period: old(self)@.period, deadline: at }),
            next.is_none() ==> final(self)@ == old(self)@,
    {
        let base: u64 = self.deadline.nanos;
        let period: u64 = self.period.nanos;
        let skipped: u64 = if now.nanos < base {
            0
        } else {
            (now.nanos - base) / period
        };
        proof {
            let steps: int = skipped + 1;
            assert(period * steps >= steps) by (nonlinear_arith)
                requires
                    period >= 1,
                    steps >= 0,
            ;
            assert(period * 1 == period) by (nonlinear_arith);
        }
        let steps: u64 = match skipped.checked_add(1) {
            Some(steps) => steps,
            None => {
                return None;
            },
        };
        let advance: u64 = match period.checked_mul(steps) {
            Some(advance) => advance,
            None => {
                return None;
            },
        };
        match base.checked_add(advance) {
            Some(nanos) => {
                let at = Timestamp { nanos };
                self.deadline = at;
                Some(at)
            },
            None => None,
        }
    }
}

} // verus!
