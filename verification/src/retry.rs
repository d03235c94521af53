//! Bounded retrying: how often the caller asks again for something a
//! window may not offer yet, and how long it waits in between.

use crate::property::WindowInfo;
use vstd::prelude::*;

verus! {

/// The time left for retrying and the pause between two tries, in
/// milliseconds.
#[derive(Clone, Copy, Debug, PartialEq, Eq, Structural)]
pub struct RetryBudget {
    pub remaining_ms: u32,
    pub interval_ms: u32,
}

/// The number of tries that a budget of `remaining` milliseconds with
/// pauses of `interval` milliseconds allows: one for every pause begun.
pub open spec fn tries(remaining: int, interval: int) -> int {
    if remaining <= 0 || interval <= 0 {
        0
    } else {
        (remaining + interval - 1) / interval
    }
}

impl RetryBudget {
    /// The pause is not zero, so that every failed try uses up time.
    pub open spec fn wf(self) -> bool {
        self.interval_ms > 0
    }

    /// The number of tries left.
    pub open spec fn tries_left(self) -> int {
        tries(self.remaining_ms as int, self.interval_ms as int)
    }

    /// A budget of `timeout_ms` with pauses of `interval_ms`. `None`
    /// where the pause is zero.
    pub fn new(timeout_ms: u32, interval_ms: u32) -> (budget: Option<Self>)
        ensures
            budget is Some <==> interval_ms > 0,
            budget matches Some(b) ==> b.remaining_ms == timeout_ms && b.interval_ms == interval_ms
                && b.wf(),
    {
        if interval_ms == 0 {
            None
        } else {
            Some(RetryBudget { remaining_ms: timeout_ms, interval_ms })
        }
    }

    /// The budget for reading the name of a window that has just been
    /// mapped: one second, a try every 100 milliseconds.
    pub fn for_display_name() -> (budget: Self)
        ensures
            budget.remaining_ms == 1000,
            budget.interval_ms == 100,
            budget.wf(),
            budget.tries_left() == 10,
    {
        RetryBudget { remaining_ms: 1000, interval_ms: 100 }
    }

    /// The budget for extracting the icon of a window: three seconds, a
    /// try every 100 milliseconds.
    pub fn for_icon() -> (budget: Self)
        ensures
            budget.remaining_ms == 3000,
            budget.interval_ms == 100,
            budget.wf(),
            budget.tries_left() == 30,
    {
        RetryBudget { remaining_ms: 3000, interval_ms: 100 }
    }

    /// Whether another try is allowed.
    pub fn can_try(&self) -> (allowed: bool)
        ensures
            allowed == (self.remaining_ms > 0),
            self.wf() ==> allowed == (self.tries_left() > 0),
    {
        proof {
            if self.wf() && self.remaining_ms > 0 {
                lemma_tries_step(self.remaining_ms as int, self.interval_ms as int);
            }
        }
        self.remaining_ms > 0
    }

    /// Records a failed try and gives the pause to make before the next
    /// one, in milliseconds. The pause is taken off the time left.
    pub fn failed(&mut self) -> (pause_ms: u32)
        ensures
            pause_ms == old(self).interval_ms,
            final(self).interval_ms == old(self).interval_ms,
            final(self).remaining_ms == if old(self).remaining_ms >= old(self).interval_ms {
                old(self).remaining_ms - old(self).interval_ms
            } else {
                0
            },
            old(self).wf() && old(self).remaining_ms > 0 ==> final(self).tries_left() == old(
                self,
            ).tries_left() - 1,
    {
        proof {
            if self.wf() && self.remaining_ms > 0 {
                lemma_tries_step(self.remaining_ms as int, self.interval_ms as int);
            }
        }
        if self.remaining_ms >= self.interval_ms {
            self.remaining_ms = self.remaining_ms - self.interval_ms;
        } else {
            self.remaining_ms = 0;
        }
        self.interval_ms
    }
}

/// What to do after asking for the name of a window.
#[derive(Debug, PartialEq, Eq)]
pub enum ProbeStep {
    /// Take this name.
    Accept(WindowInfo),
    /// Pause for so many milliseconds, then ask again.
    Wait(u32),
    /// The name could not be read and time is up: the window is gone.
    Vanished,
}

/// Whether a reading gives a name that is not empty.
pub open spec fn has_display_name(reading: Option<WindowInfo>) -> bool {
    reading matches Some(info) && info.info@.len() > 0
}

/// Decides what to do with the name just read for a window that gained
/// the focus; `reading` is `None` where the name could not be read. A
/// name that is not empty is taken at once. Otherwise the try counts as
/// failed; while time is left the caller pauses and asks again, and
/// when time is up an empty name is taken as it is.
pub fn probe_display_name(budget: &mut RetryBudget, reading: Option<WindowInfo>) -> (step:
    ProbeStep)
    ensures
        final(budget).interval_ms == old(budget).interval_ms,
        has_display_name(reading) ==> *final(budget) == *old(budget) && step == ProbeStep::Accept(
            reading.unwrap(),
        ),
        !has_display_name(reading) ==> {
            &&& final(budget).remaining_ms == if old(budget).remaining_ms >= old(
                budget,
            ).interval_ms {
                old(budget).remaining_ms - old(budget).interval_ms
            } else {
                0
            }
            &&& if final(budget).remaining_ms > 0 {
                step == ProbeStep::Wait(old(budget).interval_ms)
            } else {
                match reading {
                    Some(info) => step == ProbeStep::Accept(info),
                    None => step is Vanished,
                }
            }
        },
{
    let named = match &reading {
        Some(info) => info.info.as_str().unicode_len() > 0,
        None => false,
    };
    if named {
        return match reading {
            Some(info) => ProbeStep::Accept(info),
            None => ProbeStep::Vanished,
        };
    }
    let pause = budget.failed();
    if budget.can_try() {
        ProbeStep::Wait(pause)
    } else {
        match reading {
            Some(info) => ProbeStep::Accept(info),
            None => ProbeStep::Vanished,
        }
    }
}

/// A pause takes exactly one try off the tries left.
pub proof fn lemma_tries_step(remaining: int, interval: int)
    requires
        remaining > 0,
        interval > 0,
    ensures
        tries(remaining, interval) >= 1,
        tries(remaining, interval) == 1 + tries(
            if remaining >= interval {
                remaining - interval
            } else {
                0
            },
            interval,
        ),
{
    if remaining > interval {
        assert((remaining + interval - 1) / interval == 1 + (remaining - 1) / interval)
            by (nonlinear_arith)
            requires
                remaining > 0,
                interval > 0,
        ;
    } else {
        assert((remaining + interval - 1) / interval == 1) by (nonlinear_arith)
            requires
                0 < remaining <= interval,
        ;
    }
}

} // verus!
