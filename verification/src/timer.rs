//! The timer kinds of the firmware's set-timer service.

use vstd::prelude::*;

verus! {

/// What a set-timer request does. The firmware reads the variants as
/// consecutive 32-bit values starting at zero, in the order declared here.
#[derive(Debug, Clone, Copy, PartialEq, Eq, Structural)]
pub enum EfiTimerDelay {
    TimerCancel,
    TimerPeriodic,
    TimerRelative,
}

impl EfiTimerDelay {
    /// The 32-bit value the firmware interface assigns to this variant.
    pub fn number(&self) -> (r: u32)
        ensures
            r == match *self {
                EfiTimerDelay::TimerCancel => 0u32,
                EfiTimerDelay::TimerPeriodic => 1u32,
                EfiTimerDelay::TimerRelative => 2u32,
            },
    {
        match *self {
            EfiTimerDelay::TimerCancel => 0,
            EfiTimerDelay::TimerPeriodic => 1,
            EfiTimerDelay::TimerRelative => 2,
        }
    }
}

} // verus!
