use vstd::prelude::*;

use crate::level::Level;

verus! {

/// Where a debouncer stands in its cycle.
#[derive(Clone, Copy, Debug, PartialEq, Eq, Structural)]
pub enum Phase {
    /// Waiting for the first sample of the pin.
    Idle,
    /// The pin read `before`; waiting for any edge.
    WaitingForEdge { before: Level },
    /// An edge came after the pin read `before`; waiting for the sample
    /// taken once the settle time has passed.
    Settling { before: Level },
}

/// What the caller reports back to a debouncer.
#[derive(Clone, Copy, Debug, PartialEq, Eq, Structural)]
pub enum PinEvent {
    /// The pin was read at this level.
    Sampled(Level),
    /// The pin went through an edge.
    Edge,
}

/// What a debouncer asks its caller to do next.
#[derive(Clone, Copy, Debug, PartialEq, Eq, Structural)]
pub enum DebounceAction {
    /// Read the pin now and report `PinEvent::Sampled`.
    Sample,
    /// Suspend until any edge on the pin, then report `PinEvent::Edge`.
    WaitForEdge,
    /// Suspend for this many milliseconds, then read the pin and report
    /// `PinEvent::Sampled`.
    SettleThenSample(u64),
    /// A level change is confirmed: the pin is now at this level.
    Confirmed(Level),
}

/// The action that a debouncer in `phase` waits to have performed.
pub open spec fn pending_action(phase: Phase, settle: u64) -> DebounceAction {
    match phase {
        Phase::Idle => DebounceAction::Sample,
        Phase::WaitingForEdge { .. } => DebounceAction::WaitForEdge,
        Phase::Settling { .. } => DebounceAction::SettleThenSample(settle),
    }
}

/// One transition: the next phase and the action asked of the caller.
/// An event that the phase does not wait for changes nothing and repeats the
/// pending action.
pub open spec fn debounce_step(phase: Phase, settle: u64, ev: PinEvent) -> (Phase, DebounceAction) {
    match (phase, ev) {
        (Phase::Idle, PinEvent::Sampled(l)) => (Phase::WaitingForEdge { before: l }, DebounceAction::WaitForEdge),
        (Phase::WaitingForEdge { before }, PinEvent::Edge) => (
            Phase::Settling { before },
            DebounceAction::SettleThenSample(settle),
        ),
        (Phase::Settling { before }, PinEvent::Sampled(l)) => if l != before {
            (Phase::Idle, DebounceAction::Confirmed(l))
        } else {
            (Phase::Idle, DebounceAction::Sample)
        },
        _ => (phase, pending_action(phase, settle)),
    }
}

/// Filters contact bounce out of a digital input: a level change is reported
/// only when the pin still differs from its earlier level once the settle time
/// after an edge has passed.
pub struct Debouncer {
    settle: u64,
    phase: Phase,
}

impl View for Debouncer {
    type V = (u64, Phase);

    closed spec fn view(&self) -> (u64, Phase) {
        (self.settle, self.phase)
    }
}

impl Debouncer {
    /// A debouncer with a settle time of `settle` milliseconds, waiting for its
    /// first sample.
    pub fn new(settle: u64) -> (r: Debouncer)
        ensures
            r@ == (settle, Phase::Idle),
    {
        Debouncer { settle, phase: Phase::Idle }
    }

    /// The settle time in milliseconds.
    pub fn settle(&self) -> (r: u64)
        ensures
            r == self@.0,
    {
        self.settle
    }

    /// The current phase.
    pub fn phase(&self) -> (r: Phase)
        ensures
            r == self@.1,
    {
        self.phase
    }

    /// The action the debouncer waits to have performed.
    pub fn pending(&self) -> (r: DebounceAction)
        ensures
            r == pending_action(self@.1, self@.0),
    {
        match self.phase {
            Phase::Idle => DebounceAction::Sample,
            Phase::WaitingForEdge { .. } => DebounceAction::WaitForEdge,
            Phase::Settling { .. } => DebounceAction::SettleThenSample(self.settle),
        }
    }

    /// Feeds the outcome of the last action and returns the next one. One
    /// cycle samples the level, waits for an edge, lets the pin settle and
    /// samples again: a second sample equal to the first was a bounce and
    /// starts the cycle over, a different one is confirmed.
    pub fn debounce(&mut self, ev: PinEvent) -> (r: DebounceAction)
        ensures
            final(self)@.0 == old(self)@.0,
            (final(self)@.1, r) == debounce_step(old(self)@.1, old(self)@.0, ev),
    {
        match (self.phase, ev) {
            (Phase::Idle, PinEvent::Sampled(l)) => {
                self.phase = Phase::WaitingForEdge { before: l };
                DebounceAction::WaitForEdge
            },
            (Phase::WaitingForEdge { before }, PinEvent::Edge) => {
                self.phase = Phase::Settling { before };
                DebounceAction::SettleThenSample(self.settle)
            },
            (Phase::Settling { before }, PinEvent::Sampled(l)) => {
                self.phase = Phase::Idle;
                if l != before {
                    DebounceAction::Confirmed(l)
                } else {
                    DebounceAction::Sample
                }
            },
            _ => self.pending(),
        }
    }
}

} // verus!
