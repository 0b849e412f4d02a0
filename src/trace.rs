use vstd::prelude::*;

use crate::debouncer::{DebounceAction, Debouncer, Phase, PinEvent};
use crate::level::Level;

verus! {

/// The first instant after `t` at which the signal `s` (one level per
/// millisecond) differs from the instant before, if any.
pub open spec fn next_edge(s: Seq<Level>, t: int) -> Option<int>
    decreases s.len() - t,
{
    if t < 0 || t + 1 >= s.len() {
        None
    } else if s[t + 1] != s[t] {
        Some(t + 1)
    } else {
        next_edge(s, t + 1)
    }
}

/// What a debouncer started at instant `t` on the recorded signal `s` reports:
/// the instant and level of the first confirmed change, or `None` when the
/// recording ends while it still waits.
pub open spec fn debounce_trace(settle: nat, s: Seq<Level>, t: int) -> Option<(int, Level)>
    decreases s.len() - t,
{
    if t < 0 || t >= s.len() {
        None
    } else {
        match next_edge(s, t) {
            None => None,
            Some(e) => {
                let u = e + settle;
                if u >= s.len() || u <= t {
                    None
                } else if s[u] != s[t] {
                    Some((u, s[u]))
                } else {
                    debounce_trace(settle, s, u)
                }
            },
        }
    }
}

proof fn lemma_next_edge_after(s: Seq<Level>, t: int)
    ensures
        next_edge(s, t) matches Some(e) ==> t < e < s.len() && s[e] != s[e - 1],
    decreases s.len() - t,
{
    if 0 <= t && t + 1 < s.len() && s[t + 1] == s[t] {
        lemma_next_edge_after(s, t + 1);
    }
}

/// A confirmed change lies after the instant the debouncer started and within
/// the recording.
pub proof fn lemma_trace_bounds(settle: nat, s: Seq<Level>, t: int)
    ensures
        debounce_trace(settle, s, t) matches Some((u, _)) ==> t < u < s.len(),
    decreases s.len() - t,
{
    if 0 <= t < s.len() {
        lemma_next_edge_after(s, t);
        if let Some(e) = next_edge(s, t) {
            let u = e + settle;
            if u < s.len() && u > t && s[u] == s[t] {
                lemma_trace_bounds(settle, s, u);
            }
        }
    }
}

proof fn lemma_no_edge_when_constant(s: Seq<Level>, t: int)
    requires
        0 <= t,
        forall|k: int| t <= k < s.len() ==> s[k] == s[t],
    ensures
        next_edge(s, t) is None,
    decreases s.len() - t,
{
    if t + 1 < s.len() {
        lemma_no_edge_when_constant(s, t + 1);
    }
}

proof fn lemma_edge_after_run(s: Seq<Level>, t: int, e: int)
    requires
        0 <= t < e < s.len(),
        forall|k: int| t <= k < e ==> s[k] == s[t],
        s[e] != s[t],
    ensures
        next_edge(s, t) == Some(e),
    decreases e - t,
{
    if t + 1 < e {
        lemma_edge_after_run(s, t + 1, e);
    }
}

/// Drives a fresh debouncer over the recorded signal `s` from instant `start`,
/// performing each action it asks for on the recording, and returns the
/// instant and level of the change it confirms.
pub fn run_debounce(settle: u64, s: &Vec<Level>, start: usize) -> (r: Option<(usize, Level)>)
    ensures
        match r {
            Some((u, l)) => debounce_trace(settle as nat, s@, start as int) == Some((u as int, l)),
            None => debounce_trace(settle as nat, s@, start as int) is None,
        },
{
    let mut db = Debouncer::new(settle);
    let mut t: usize = start;
    if t >= s.len() {
        return None;
    }
    loop
        invariant
            t < s.len(),
            db@ == (settle, Phase::Idle),
            debounce_trace(settle as nat, s@, start as int) == debounce_trace(settle as nat, s@, t as int),
        decreases s.len() - t,
    {
        let l1 = s[t];
        let a1 = db.debounce(PinEvent::Sampled(l1));
        assert(a1 == DebounceAction::WaitForEdge);
        let mut k: usize = t + 1;
        while k < s.len() && s[k] == s[k - 1]
            invariant
                t < k <= s.len(),
                next_edge(s@, t as int) == next_edge(s@, k - 1),
            decreases s.len() - k,
        {
            k = k + 1;
        }
        if k >= s.len() {
            return None;
        }
        proof {
            lemma_next_edge_after(s@, t as int);
        }
        let a2 = db.debounce(PinEvent::Edge);
        let wait = match a2 {
            DebounceAction::SettleThenSample(w) => w,
            _ => settle,
        };
        assert(wait == settle);
        if wait >= (s.len() - k) as u64 {
            return None;
        }
        let u: usize = k + wait as usize;
        let l2 = s[u];
        let a3 = db.debounce(PinEvent::Sampled(l2));
        match a3 {
            DebounceAction::Confirmed(l) => {
                return Some((u, l));
            },
            _ => {},
        }
        t = u;
    }
}

/// Stability: when every edge after instant `t` falls within one settle
/// time of the first, so that the signal holds `f` from `settle` after that
/// first edge on, a debouncer started at `t` reports no glitch: it confirms
/// `f` at that instant or goes on waiting. It confirms `f` whenever `f`
/// differs from the level at `t` and the recording reaches that instant.
pub proof fn debounce_ignores_short_bounces(settle: nat, s: Seq<Level>, t: int, e: int, f: Level)
    requires
        0 <= t < s.len(),
        next_edge(s, t) == Some(e),
        forall|k: int| e + settle <= k < s.len() ==> s[k] == f,
    ensures
        debounce_trace(settle, s, t) is None || debounce_trace(settle, s, t) == Some((e + settle, f)),
        f != s[t] && e + settle < s.len() ==> debounce_trace(settle, s, t) == Some((e + settle, f)),
{
    lemma_next_edge_after(s, t);
    let u = e + settle;
    if u < s.len() && s[u] == s[t] {
        lemma_no_edge_when_constant(s, u);
        assert(debounce_trace(settle, s, u) is None);
    }
}

/// Liveness: a signal that changes once, at `e`, and then holds its new level
/// for at least the settle time is confirmed at that new level after one edge
/// wait and one settle time.
pub proof fn debounce_confirms_single_change(settle: nat, s: Seq<Level>, t: int, e: int)
    requires
        0 <= t < e,
        e + settle < s.len(),
        forall|k: int| t <= k < e ==> s[k] == s[t],
        forall|k: int| e <= k < s.len() ==> s[k] == s[e],
        s[e] != s[t],
    ensures
        debounce_trace(settle, s, t) == Some((e + settle, s[e])),
{
    lemma_edge_after_run(s, t, e);
    debounce_ignores_short_bounces(settle, s, t, e, s[e]);
}

} // verus!
