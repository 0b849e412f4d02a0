use vstd::prelude::*;

use crate::level::LedState;
use embassy_sync::blocking_mutex::raw::NoopRawMutex;
use embassy_sync::channel::Channel;
use embassy_sync::channel::TryReceiveError;
use embassy_sync::channel::TrySendError;

verus! {

/// Number of events the channel buffers before a send must wait.
pub const CAPACITY: usize = 64;

/// An embassy channel of control events; Verus sees only its contents,
/// through `queued`.
#[verifier::external_body]
pub struct RawQueue {
    chan: Channel<NoopRawMutex, LedState, 64>,
}

/// The events buffered in an embassy channel, oldest first.
pub uninterp spec fn queued(c: RawQueue) -> Seq<LedState>;

/// Relies on `Channel::new`: a new channel buffers nothing.
#[verifier::external_body]
fn channel_new() -> (r: RawQueue)
    ensures
        queued(r) == Seq::<LedState>::empty(),
{
    RawQueue { chan: Channel::new() }
}

/// Relies on `Channel::try_send`: the message is pushed at the back of the
/// queue when fewer than the capacity are buffered, and handed back otherwise.
#[verifier::external_body]
fn channel_try_send(c: &mut RawQueue, e: LedState) -> (sent: bool)
    ensures
        sent == (queued(*old(c)).len() < 64),
        sent ==> queued(*final(c)) == queued(*old(c)).push(e),
        !sent ==> queued(*final(c)) == queued(*old(c)),
{
    match c.chan.try_send(e) {
        Ok(()) => true,
        Err(TrySendError::Full(_)) => false,
    }
}

/// Relies on `Channel::try_receive`: the oldest buffered message is removed and
/// returned, or an error comes back when nothing is buffered.
#[verifier::external_body]
fn channel_try_receive(c: &mut RawQueue) -> (r: Option<LedState>)
    ensures
        queued(*old(c)).len() == 0 ==> r is None && queued(*final(c)) == queued(*old(c)),
        queued(*old(c)).len() > 0 ==> r == Some(queued(*old(c))[0]) && queued(*final(c)) == queued(*old(c)).drop_first(),
{
    match c.chan.try_receive() {
        Ok(m) => Some(m),
        Err(TryReceiveError::Empty) => None,
    }
}

/// Relies on `Channel::len`: the number of buffered messages.
#[verifier::external_body]
fn channel_len(c: &RawQueue) -> (r: usize)
    ensures
        r == queued(*c).len(),
{
    c.chan.len()
}

/// The queue after sending `e` on a channel holding `q`, or `None` when the
/// channel is full and the sender has to wait.
pub open spec fn after_send(q: Seq<LedState>, e: LedState) -> Option<Seq<LedState>> {
    if q.len() < CAPACITY {
        Some(q.push(e))
    } else {
        None
    }
}

/// The event received and the remaining queue, or `None` when the channel is
/// empty and the receiver has to wait.
pub open spec fn after_receive(q: Seq<LedState>) -> Option<(LedState, Seq<LedState>)> {
    if q.len() > 0 {
        Some((q[0], q.drop_first()))
    } else {
        None
    }
}

/// The queue after sending each of `es` in turn, or `None` when one of the
/// sends would have to wait.
pub open spec fn after_sends(q: Seq<LedState>, es: Seq<LedState>) -> Option<Seq<LedState>>
    decreases es.len(),
{
    if es.len() == 0 {
        Some(q)
    } else {
        match after_send(q, es[0]) {
            Some(q2) => after_sends(q2, es.drop_first()),
            None => None,
        }
    }
}

/// The events taken by `n` receives in turn and the queue left, or `None`
/// when one of the receives would have to wait.
pub open spec fn after_receives(q: Seq<LedState>, n: nat) -> Option<(Seq<LedState>, Seq<LedState>)>
    decreases n,
{
    if n == 0 {
        Some((Seq::empty(), q))
    } else {
        match after_receive(q) {
            Some((e, q2)) => match after_receives(q2, (n - 1) as nat) {
                Some((got, rest)) => Some((seq![e] + got, rest)),
                None => None,
            },
            None => None,
        }
    }
}

proof fn lemma_sends_append(q: Seq<LedState>, es: Seq<LedState>)
    requires
        q.len() + es.len() <= CAPACITY,
    ensures
        after_sends(q, es) == Some(q + es),
    decreases es.len(),
{
    if es.len() > 0 {
        lemma_sends_append(q.push(es[0]), es.drop_first());
        assert(q.push(es[0]) + es.drop_first() =~= q + es);
    } else {
        assert(q + es =~= q);
    }
}

proof fn lemma_receives_prefix(q: Seq<LedState>, n: nat)
    requires
        n <= q.len(),
    ensures
        after_receives(q, n) == Some((q.take(n as int), q.skip(n as int))),
    decreases n,
{
    if n > 0 {
        lemma_receives_prefix(q.drop_first(), (n - 1) as nat);
        assert(seq![q[0]] + q.drop_first().take(n - 1) =~= q.take(n as int));
        assert(q.drop_first().skip(n - 1) =~= q.skip(n as int));
    } else {
        assert(q.take(0) =~= Seq::<LedState>::empty());
        assert(q.skip(0) =~= q);
    }
}

/// First in, first out: on an empty channel, any run of at most `CAPACITY`
/// sends completes without waiting, and as many receives then return the
/// same events in the order they were sent, leaving the channel empty.
pub proof fn channel_fifo(es: Seq<LedState>)
    requires
        es.len() <= CAPACITY,
    ensures
        after_sends(Seq::empty(), es) == Some(es),
        after_receives(es, es.len()) == Some((es, Seq::<LedState>::empty())),
{
    lemma_sends_append(Seq::empty(), es);
    assert(Seq::<LedState>::empty() + es =~= es);
    lemma_receives_prefix(es, es.len());
    assert(es.take(es.len() as int) =~= es);
    assert(es.skip(es.len() as int) =~= Seq::<LedState>::empty());
}

/// A send on a full channel waits and leaves it unchanged; once one event
/// has been received, the same send completes.
pub proof fn channel_full_send_waits(q: Seq<LedState>, e: LedState)
    requires
        q.len() == CAPACITY,
    ensures
        after_send(q, e) is None,
        match after_receive(q) {
            Some((_, rest)) => after_send(rest, e) == Some(rest.push(e)),
            None => false,
        },
{
}

/// A bounded first-in first-out queue of control events shared by producer
/// tasks and one consumer task.
pub struct EventChannel {
    inner: RawQueue,
}

impl View for EventChannel {
    type V = Seq<LedState>;

    closed spec fn view(&self) -> Seq<LedState> {
        queued(self.inner)
    }
}

impl EventChannel {
    /// The channel never buffers more than its capacity.
    pub closed spec fn wf(&self) -> bool {
        queued(self.inner).len() <= CAPACITY
    }

    /// An empty channel.
    pub fn new() -> (r: EventChannel)
        ensures
            r.wf(),
            r@ == Seq::<LedState>::empty(),
    {
        EventChannel { inner: channel_new() }
    }

    /// Attempts to enqueue `e`. On a full channel the event comes back in
    /// `Err` and the channel is unchanged: the sender must wait for a receive
    /// and offer it again.
    pub fn try_send(&mut self, e: LedState) -> (r: Result<(), LedState>)
        requires
            old(self).wf(),
        ensures
            final(self).wf(),
            match after_send(old(self)@, e) {
                Some(q) => r is Ok && final(self)@ == q,
                None => r == Err::<(), LedState>(e) && final(self)@ == old(self)@,
            },
    {
        if channel_try_send(&mut self.inner, e) {
            Ok(())
        } else {
            Err(e)
        }
    }

    /// Dequeues the oldest event, or returns `None` (the receiver must wait)
    /// when the channel is empty.
    pub fn try_receive(&mut self) -> (r: Option<LedState>)
        requires
            old(self).wf(),
        ensures
            final(self).wf(),
            match after_receive(old(self)@) {
                Some((e, q)) => r == Some(e) && final(self)@ == q,
                None => r is None && final(self)@ == old(self)@,
            },
    {
        channel_try_receive(&mut self.inner)
    }

    /// The number of buffered events.
    pub fn len(&self) -> (r: usize)
        ensures
            r == self@.len(),
    {
        channel_len(&self.inner)
    }

    /// Whether a send would have to wait.
    pub fn is_full(&self) -> (r: bool)
        requires
            self.wf(),
        ensures
            r == (self@.len() == CAPACITY),
    {
        self.len() == CAPACITY
    }

    /// Whether a receive would have to wait.
    pub fn is_empty(&self) -> (r: bool)
        ensures
            r == (self@.len() == 0),
    {
        self.len() == 0
    }

    /// The fixed capacity of the channel.
    pub fn capacity(&self) -> (r: usize)
        ensures
            r == CAPACITY,
    {
        CAPACITY
    }
}

} // verus!
