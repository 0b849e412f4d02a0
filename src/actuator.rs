use vstd::prelude::*;

use crate::level::{flip, LedState, Level};

verus! {

/// `k` outputs of which only the one at `i` is lit.
pub open spec fn lit_only(k: nat, i: int) -> Seq<Level> {
    Seq::new(k, |j: int| if j == i { Level::High } else { Level::Low })
}

/// The index and output levels after one toggle event: the lit segment moves
/// one place on, wrapping around.
pub open spec fn rotate_step(index: int, outs: Seq<Level>) -> (int, Seq<Level>) {
    let next = if index + 1 == outs.len() { 0 } else { index + 1 };
    let dimmed = outs.update(index, flip(outs[index]));
    (next, dimmed.update(next, flip(dimmed[next])))
}

/// The index and output levels after `m` toggle events.
pub open spec fn rotate_n(index: int, outs: Seq<Level>, m: nat) -> (int, Seq<Level>)
    decreases m,
{
    if m == 0 {
        (index, outs)
    } else {
        let (i, o) = rotate_n(index, outs, (m - 1) as nat);
        rotate_step(i, o)
    }
}

/// A ring of outputs of which one is lit; each toggle event moves the lit
/// output one place on.
pub struct Rotator {
    index: usize,
    outputs: Vec<Level>,
}

impl View for Rotator {
    type V = (int, Seq<Level>);

    closed spec fn view(&self) -> (int, Seq<Level>) {
        (self.index as int, self.outputs@)
    }
}

impl Rotator {
    /// At least one output, and the index names one of them.
    pub open spec fn wf(&self) -> bool {
        self@.1.len() > 0 && 0 <= self@.0 < self@.1.len()
    }

    /// A ring of `k` outputs with the first one lit.
    pub fn new(k: usize) -> (r: Rotator)
        requires
            k > 0,
        ensures
            r.wf(),
            r@ == (0int, lit_only(k as nat, 0)),
    {
        let mut outputs: Vec<Level> = Vec::new();
        let mut j: usize = 0;
        while j < k
            invariant
                j <= k,
                outputs@ == lit_only(j as nat, 0),
            decreases k - j,
        {
            outputs.push(if j == 0 { Level::High } else { Level::Low });
            j = j + 1;
            assert(outputs@ =~= lit_only(j as nat, 0));
        }
        Rotator { index: 0, outputs }
    }

    /// The index of the lit output.
    pub fn index(&self) -> (r: usize)
        ensures
            r == self@.0,
    {
        self.index
    }

    /// The level of output `i`.
    pub fn output(&self, i: usize) -> (r: Level)
        requires
            i < self@.1.len(),
        ensures
            r == self@.1[i as int],
    {
        self.outputs[i]
    }

    /// The number of outputs.
    pub fn len(&self) -> (r: usize)
        ensures
            r == self@.1.len(),
    {
        self.outputs.len()
    }

    /// Applies one event: the output at the index is flipped, the index moves
    /// on modulo the number of outputs, and the output at the new index is
    /// flipped. Returns the two indices, in that order, for the caller to
    /// flip the physical outputs.
    pub fn on_event(&mut self, e: LedState) -> (r: (usize, usize))
        requires
            old(self).wf(),
        ensures
            final(self).wf(),
            final(self)@ == rotate_step(old(self)@.0, old(self)@.1),
            r == (old(self)@.0 as usize, final(self)@.0 as usize),
    {
        match e {
            LedState::Toggle => {
                let prev = self.index;
                let n = self.outputs.len();
                let l = self.outputs[prev].toggled();
                self.outputs.set(prev, l);
                let mut next = prev + 1;
                if next == n {
                    next = 0;
                }
                let m = self.outputs[next].toggled();
                self.outputs.set(next, m);
                self.index = next;
                (prev, next)
            },
        }
    }
}

/// Rotation: starting from a ring of `k` outputs with the first lit, after
/// `m` toggle events exactly the output at `m mod k` is lit and the index
/// stands there.
pub proof fn rotation_after_events(k: nat, m: nat)
    requires
        k > 0,
    ensures
        rotate_n(0, lit_only(k, 0), m) == ((m % k) as int, lit_only(k, (m % k) as int)),
    decreases m,
{
    if m == 0 {
        vstd::arithmetic::div_mod::lemma_small_mod(0, k);
    } else {
        rotation_after_events(k, (m - 1) as nat);
        let i = ((m - 1) as nat % k) as int;
        let outs = lit_only(k, i);
        vstd::arithmetic::div_mod::lemma_mod_bound((m - 1) as int, k as int);
        vstd::arithmetic::div_mod::lemma_add_mod_noop((m - 1) as int, 1, k as int);
        if k == 1 {
            vstd::arithmetic::div_mod::lemma_mod_bound(m as int, 1);
        } else {
            vstd::arithmetic::div_mod::lemma_small_mod(1, k);
        }
        if i + 1 == k {
            vstd::arithmetic::div_mod::lemma_mod_self_0(k as int);
        } else {
            vstd::arithmetic::div_mod::lemma_small_mod((i + 1) as nat, k);
        }
        let (ni, no) = rotate_step(i, outs);
        assert(ni == (m % k) as int);
        assert(no =~= lit_only(k, ni));
    }
}

/// A single output flipped on every tick.
pub struct Blinker {
    level: Level,
}

impl View for Blinker {
    type V = Level;

    closed spec fn view(&self) -> Level {
        self.level
    }
}

impl Blinker {
    /// An output starting at `initial`.
    pub fn new(initial: Level) -> (r: Blinker)
        ensures
            r@ == initial,
    {
        Blinker { level: initial }
    }

    /// The current level.
    pub fn level(&self) -> (r: Level)
        ensures
            r == self@,
    {
        self.level
    }

    /// One tick: the output flips and its new level is returned.
    pub fn tick(&mut self) -> (r: Level)
        ensures
            r == flip(old(self)@),
            final(self)@ == r,
    {
        self.level = self.level.toggled();
        self.level
    }
}

} // verus!
