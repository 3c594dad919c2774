//! Waiting: the end of a timed wait, and budgets for busy-waits.

use vstd::prelude::*;

verus! {

/// The counter value at which a wait of `ms` milliseconds ends, for a counter
/// that runs at `freq` ticks per second and stands at `count`:
/// `count + (freq / 1000) * ms`. There is none where that value does not fit
/// the counter.
pub fn wait_ms(ms: u64, freq: u64, count: u64) -> (until: Option<u64>)
    ensures
        until == (if count + (freq / 1000) * ms <= u64::MAX {
            Some((count + (freq / 1000) * ms) as u64)
        } else {
            None
        }),
{
    let per_ms = freq / 1000;
    match per_ms.checked_mul(ms) {
        Some(ticks) => count.checked_add(ticks),
        None => None,
    }
}

/// A busy-wait was given up because its budget of polls ran out.
#[derive(Debug, Clone, Copy)]
pub struct HardwareTimeout;

/// The polls that a busy-wait may still make: a number, or no limit.
pub struct Attempts {
    left: Option<u32>,
}

impl View for Attempts {
    type V = Option<u32>;

    closed spec fn view(&self) -> Option<u32> {
        self.left
    }
}

impl Attempts {
    /// A budget without limit: the wait ends only when the hardware says so.
    pub fn unbounded() -> (r: Self)
        ensures
            r@ == None::<u32>,
    {
        Attempts { left: None }
    }

    /// A budget of `polls` polls.
    pub fn at_most(polls: u32) -> (r: Self)
        ensures
            r@ == Some(polls),
    {
        Attempts { left: Some(polls) }
    }

    /// Takes one poll from the budget, or says that none is left.
    pub fn spend(&mut self) -> (r: Result<(), HardwareTimeout>)
        ensures
            match old(self)@ {
                None => r is Ok && final(self)@ == None::<u32>,
                Some(n) => if n == 0 {
                    r is Err && final(self)@ == Some(0u32)
                } else {
                    r is Ok && final(self)@ == Some((n - 1) as u32)
                },
            },
    {
        match self.left {
            None => Ok(()),
            Some(n) => {
                if n == 0 {
                    Err(HardwareTimeout)
                } else {
                    self.left = Some(n - 1);
                    Ok(())
                }
            },
        }
    }
}

} // verus!
