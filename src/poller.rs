use vstd::prelude::*;

use crate::debouncer::{debounce_step, pending_action, DebounceAction, Debouncer, Phase, PinEvent};
use crate::level::{LedState, Level};
use crate::trace::{debounce_trace, lemma_trace_bounds, run_debounce};

verus! {

/// Where a button poller stands in its loop.
#[derive(Clone, Copy, Debug, PartialEq, Eq, Structural)]
pub enum PollerPhase {
    /// Debouncing until the button goes down.
    AwaitingPress,
    /// A press was confirmed; a toggle event is being sent.
    Sending,
    /// Debouncing until the button comes back up.
    AwaitingRelease,
    /// Waiting for the next tick of the poll period.
    AwaitingTick,
}

/// What the caller reports back to a poller.
#[derive(Clone, Copy, Debug, PartialEq, Eq, Structural)]
pub enum PollerEvent {
    /// The outcome of a pin action of the debouncer.
    Pin(PinEvent),
    /// The event was accepted by the channel.
    Sent,
    /// The poll period ticked.
    Tick,
}

/// What a poller asks its caller to do next.
#[derive(Clone, Copy, Debug, PartialEq, Eq, Structural)]
pub enum PollerAction {
    /// A pin action of the debouncer; never `DebounceAction::Confirmed`.
    Pin(DebounceAction),
    /// Send this event on the channel, waiting while it is full, then report
    /// `PollerEvent::Sent`.
    Send(LedState),
    /// Suspend until the next tick, then report `PollerEvent::Tick`.
    WaitTick,
}

/// The action that a poller waits to have performed.
pub open spec fn poller_pending(phase: PollerPhase, dphase: Phase, settle: u64) -> PollerAction {
    match phase {
        PollerPhase::AwaitingPress | PollerPhase::AwaitingRelease => PollerAction::Pin(pending_action(dphase, settle)),
        PollerPhase::Sending => PollerAction::Send(LedState::Toggle),
        PollerPhase::AwaitingTick => PollerAction::WaitTick,
    }
}

/// One transition of a poller whose debouncer stands in `dphase`: the next
/// poller phase, the next debouncer phase and the action asked of the caller.
/// A confirmed change while awaiting a press sends one toggle; one while
/// awaiting the release sends nothing and waits for the tick.
pub open spec fn poller_step(phase: PollerPhase, dphase: Phase, settle: u64, ev: PollerEvent) -> (PollerPhase, Phase, PollerAction) {
    match (phase, ev) {
        (PollerPhase::AwaitingPress, PollerEvent::Pin(pe)) => {
            let (dp, a) = debounce_step(dphase, settle, pe);
            if a is Confirmed {
                (PollerPhase::Sending, dp, PollerAction::Send(LedState::Toggle))
            } else {
                (PollerPhase::AwaitingPress, dp, PollerAction::Pin(a))
            }
        },
        (PollerPhase::Sending, PollerEvent::Sent) => (
            PollerPhase::AwaitingRelease,
            dphase,
            PollerAction::Pin(pending_action(dphase, settle)),
        ),
        (PollerPhase::AwaitingRelease, PollerEvent::Pin(pe)) => {
            let (dp, a) = debounce_step(dphase, settle, pe);
            if a is Confirmed {
                (PollerPhase::AwaitingTick, dp, PollerAction::WaitTick)
            } else {
                (PollerPhase::AwaitingRelease, dp, PollerAction::Pin(a))
            }
        },
        (PollerPhase::AwaitingTick, PollerEvent::Tick) => (
            PollerPhase::AwaitingPress,
            dphase,
            PollerAction::Pin(pending_action(dphase, settle)),
        ),
        _ => (phase, dphase, poller_pending(phase, dphase, settle)),
    }
}

/// Turns each debounced press and release of a button into one toggle event,
/// at most one press per poll period.
pub struct Poller {
    debouncer: Debouncer,
    phase: PollerPhase,
}

impl View for Poller {
    type V = (u64, Phase, PollerPhase);

    closed spec fn view(&self) -> (u64, Phase, PollerPhase) {
        (self.debouncer@.0, self.debouncer@.1, self.phase)
    }
}

impl Poller {
    /// A poller whose debouncer settles for `settle` milliseconds, awaiting a
    /// press.
    pub fn new(settle: u64) -> (r: Poller)
        ensures
            r@ == (settle, Phase::Idle, PollerPhase::AwaitingPress),
    {
        Poller { debouncer: Debouncer::new(settle), phase: PollerPhase::AwaitingPress }
    }

    /// The current phase of the loop.
    pub fn phase(&self) -> (r: PollerPhase)
        ensures
            r == self@.2,
    {
        self.phase
    }

    /// The action the poller waits to have performed.
    pub fn pending(&self) -> (r: PollerAction)
        ensures
            r == poller_pending(self@.2, self@.1, self@.0),
    {
        match self.phase {
            PollerPhase::AwaitingPress | PollerPhase::AwaitingRelease => PollerAction::Pin(self.debouncer.pending()),
            PollerPhase::Sending => PollerAction::Send(LedState::Toggle),
            PollerPhase::AwaitingTick => PollerAction::WaitTick,
        }
    }

    /// Feeds the outcome of the last action and returns the next one.
    pub fn step(&mut self, ev: PollerEvent) -> (r: PollerAction)
        ensures
            final(self)@.0 == old(self)@.0,
            (final(self)@.2, final(self)@.1, r) == poller_step(old(self)@.2, old(self)@.1, old(self)@.0, ev),
    {
        match (self.phase, ev) {
            (PollerPhase::AwaitingPress, PollerEvent::Pin(pe)) => {
                let a = self.debouncer.debounce(pe);
                match a {
                    DebounceAction::Confirmed(_) => {
                        self.phase = PollerPhase::Sending;
                        PollerAction::Send(LedState::Toggle)
                    },
                    _ => PollerAction::Pin(a),
                }
            },
            (PollerPhase::Sending, PollerEvent::Sent) => {
                self.phase = PollerPhase::AwaitingRelease;
                PollerAction::Pin(self.debouncer.pending())
            },
            (PollerPhase::AwaitingRelease, PollerEvent::Pin(pe)) => {
                let a = self.debouncer.debounce(pe);
                match a {
                    DebounceAction::Confirmed(_) => {
                        self.phase = PollerPhase::AwaitingTick;
                        PollerAction::WaitTick
                    },
                    _ => PollerAction::Pin(a),
                }
            },
            (PollerPhase::AwaitingTick, PollerEvent::Tick) => {
                self.phase = PollerPhase::AwaitingPress;
                PollerAction::Pin(self.debouncer.pending())
            },
            _ => self.pending(),
        }
    }
}

/// The first tick boundary after instant `v`, ticks falling on the
/// multiples of `period`.
pub open spec fn next_tick(v: int, period: nat) -> int {
    v - v % (period as int) + period
}

/// How many toggle events a poller started at instant `t` sends while the
/// recorded signal `s` lasts, with a poll period of `period` milliseconds.
pub open spec fn poller_sends(settle: nat, period: nat, s: Seq<Level>, t: int) -> nat
    decreases s.len() - t,
{
    if t < 0 || t >= s.len() || period == 0 {
        0
    } else {
        match debounce_trace(settle, s, t) {
            None => 0,
            Some((u, _)) => 1 + match debounce_trace(settle, s, u) {
                None => 0nat,
                Some((v, _)) => {
                    let w = next_tick(v, period);
                    if w >= s.len() || w <= t {
                        0nat
                    } else {
                        poller_sends(settle, period, s, w)
                    }
                },
            },
        }
    }
}

/// Runs the button poller over the recorded signal `s` (one level per
/// millisecond) from instant 0, and returns the events it sends before the
/// recording ends.
pub fn run_poller(settle: u64, period: usize, s: &Vec<Level>) -> (r: Vec<LedState>)
    requires
        period > 0,
    ensures
        r@.len() == poller_sends(settle as nat, period as nat, s@, 0),
        forall|i: int| 0 <= i < r@.len() ==> r@[i] == LedState::Toggle,
{
    let mut sent: Vec<LedState> = Vec::new();
    let mut t: usize = 0;
    loop
        invariant
            period > 0,
            t <= s.len(),
            sent@.len() + poller_sends(settle as nat, period as nat, s@, t as int) == poller_sends(
                settle as nat,
                period as nat,
                s@,
                0,
            ),
            forall|i: int| 0 <= i < sent@.len() ==> sent@[i] == LedState::Toggle,
        decreases s.len() - t,
    {
        if t >= s.len() {
            return sent;
        }
        proof {
            lemma_trace_bounds(settle as nat, s@, t as int);
        }
        let u = match run_debounce(settle, s, t) {
            Some((u, _)) => u,
            None => {
                return sent;
            },
        };
        sent.push(LedState::Toggle);
        proof {
            lemma_trace_bounds(settle as nat, s@, u as int);
        }
        let v = match run_debounce(settle, s, u) {
            Some((v, _)) => v,
            None => {
                return sent;
            },
        };
        let rem = v % period;
        proof {
            vstd::arithmetic::div_mod::lemma_mod_decreases(v as nat, period as nat);
            vstd::arithmetic::div_mod::lemma_mod_bound(v as int, period as int);
        }
        let base = v - rem;
        if period >= s.len() - base {
            return sent;
        }
        let w = base + period;
        t = w;
    }
}

} // verus!
