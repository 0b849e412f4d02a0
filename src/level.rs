use vstd::prelude::*;

verus! {

/// The logical level of a digital pin.
#[derive(Clone, Copy, Debug, PartialEq, Eq, Structural)]
pub enum Level {
    Low,
    High,
}

/// The level opposite to `l`.
pub open spec fn flip(l: Level) -> Level {
    match l {
        Level::Low => Level::High,
        Level::High => Level::Low,
    }
}

impl Level {
    /// The opposite level.
    pub fn toggled(self) -> (r: Level)
        ensures
            r == flip(self),
            r != self,
    {
        match self {
            Level::Low => Level::High,
            Level::High => Level::Low,
        }
    }

    /// Whether the level is `High`.
    pub fn is_high(self) -> (r: bool)
        ensures
            r == (self == Level::High),
    {
        match self {
            Level::Low => false,
            Level::High => true,
        }
    }
}

/// A control message from a producer task to the actuator.
#[derive(Clone, Copy, Debug, PartialEq, Eq, Structural)]
pub enum LedState {
    /// Advance the actuator by one step.
    Toggle,
}

} // verus!
