//! The bounded queue that carries touch batches from the sampler to the
//! main loop, and the sampler's publishing decision.

use vstd::prelude::*;
use crate::touch::TouchPoint;

verus! {

/// Capacity of the touch queue.
pub const TOUCH_QUEUE_CAPACITY: usize = 3;
/// Pause between two polls of the touch controller, in milliseconds.
pub const POLL_INTERVAL_MS: u64 = 20;
/// Pause after a batch was published, so that one press is sampled once.
pub const COOLDOWN_MS: u64 = 150;

/// A bounded FIFO of touch batches over a crossbeam channel. It holds both
/// ends of the channel, so what is queued is exactly what was published
/// through it and not yet drained.
#[verifier::external_body]
pub struct TouchQueue {
    sender: crossbeam_channel::Sender<Vec<TouchPoint>>,
    receiver: crossbeam_channel::Receiver<Vec<TouchPoint>>,
}

/// The batches in the queue, oldest first.
pub uninterp spec fn queued_batches(q: TouchQueue) -> Seq<Seq<TouchPoint>>;

/// The capacity that the queue was made with.
pub uninterp spec fn queue_bound(q: TouchQueue) -> nat;

/// The queue after publishing `b`, or `None` when it is full.
pub open spec fn after_publish(
    pending: Seq<Seq<TouchPoint>>,
    cap: nat,
    b: Seq<TouchPoint>,
) -> Option<Seq<Seq<TouchPoint>>> {
    if pending.len() < cap {
        Some(pending.push(b))
    } else {
        None
    }
}

/// The queue after publishing each of `bs` in turn, or `None` if one of
/// them found it full.
pub open spec fn after_publish_all(
    pending: Seq<Seq<TouchPoint>>,
    cap: nat,
    bs: Seq<Seq<TouchPoint>>,
) -> Option<Seq<Seq<TouchPoint>>>
    decreases bs.len(),
{
    if bs.len() == 0 {
        Some(pending)
    } else {
        match after_publish_all(pending, cap, bs.drop_last()) {
            Some(p) => after_publish(p, cap, bs.last()),
            None => None,
        }
    }
}

/// The batches that `n` drains hand out, in order.
pub open spec fn drained(pending: Seq<Seq<TouchPoint>>, n: nat) -> Seq<Seq<TouchPoint>>
    decreases n,
{
    if n == 0 || pending.len() == 0 {
        Seq::empty()
    } else {
        seq![pending[0]] + drained(pending.drop_first(), (n - 1) as nat)
    }
}

/// Relies on `crossbeam_channel::bounded`: a channel of positive capacity
/// starts empty. Capacities whose lap counter would overflow panic.
#[verifier::external_body]
fn channel_bounded(capacity: usize) -> (q: TouchQueue)
    requires
        0 < capacity <= usize::MAX / 4,
    ensures
        queued_batches(q) == Seq::<Seq<TouchPoint>>::empty(),
        queue_bound(q) == capacity,
{
    let (sender, receiver) = crossbeam_channel::bounded(capacity);
    TouchQueue { sender, receiver }
}

/// Relies on `crossbeam_channel::Sender::try_send`: the message is queued
/// when there is room, and handed back in `Full` otherwise. The receiver is
/// held by the queue, so the channel is never disconnected.
#[verifier::external_body]
fn channel_try_send(q: &mut TouchQueue, batch: Vec<TouchPoint>) -> (r: Result<(), Vec<TouchPoint>>)
    ensures
        queue_bound(*final(q)) == queue_bound(*old(q)),
        match after_publish(queued_batches(*old(q)), queue_bound(*old(q)), batch@) {
            Some(p) => r is Ok && queued_batches(*final(q)) == p,
            None => r matches Err(b) && b@ == batch@ && queued_batches(*final(q))
                == queued_batches(*old(q)),
        },
{
    match q.sender.try_send(batch) {
        Ok(()) => Ok(()),
        Err(e) => Err(e.into_inner()),
    }
}

/// Relies on `crossbeam_channel::Receiver::try_recv`: the oldest message is
/// taken when there is one, and `Empty` is returned otherwise.
#[verifier::external_body]
fn channel_try_recv(q: &mut TouchQueue) -> (r: Option<Vec<TouchPoint>>)
    ensures
        queue_bound(*final(q)) == queue_bound(*old(q)),
        queued_batches(*old(q)).len() == 0 ==> r.is_none() && queued_batches(*final(q))
            == queued_batches(*old(q)),
        queued_batches(*old(q)).len() > 0 ==> (r matches Some(b) && b@ == queued_batches(
            *old(q),
        )[0] && queued_batches(*final(q)) == queued_batches(*old(q)).drop_first()),
{
    q.receiver.try_recv().ok()
}

/// Relies on `crossbeam_channel::Receiver::len`: the number of queued
/// messages.
#[verifier::external_body]
fn channel_len(q: &TouchQueue) -> (n: usize)
    ensures
        n == queued_batches(*q).len(),
{
    q.receiver.len()
}

impl TouchQueue {
    /// An empty queue holding at most `capacity` batches.
    pub fn with_capacity(capacity: usize) -> (q: TouchQueue)
        requires
            0 < capacity <= usize::MAX / 4,
        ensures
            queued_batches(q).len() == 0,
            queue_bound(q) == capacity,
    {
        channel_bounded(capacity)
    }

    /// Publishes a batch if there is room; a full queue hands the batch back
    /// unchanged, and the publisher waits for the consumer to drain one.
    pub fn publish(&mut self, batch: Vec<TouchPoint>) -> (r: Result<(), Vec<TouchPoint>>)
        ensures
            queue_bound(*final(self)) == queue_bound(*old(self)),
            queued_batches(*old(self)).len() < queue_bound(*old(self)) ==> r is Ok
                && queued_batches(*final(self)) == queued_batches(*old(self)).push(batch@),
            queued_batches(*old(self)).len() >= queue_bound(*old(self)) ==> (r matches Err(b)
                && b@ == batch@ && queued_batches(*final(self)) == queued_batches(*old(self))),
    {
        channel_try_send(self, batch)
    }

    /// Takes the oldest batch without waiting; `None` when the queue is
    /// empty.
    pub fn drain(&mut self) -> (r: Option<Vec<TouchPoint>>)
        ensures
            queue_bound(*final(self)) == queue_bound(*old(self)),
            queued_batches(*old(self)).len() == 0 ==> r.is_none() && queued_batches(*final(self))
                == queued_batches(*old(self)),
            queued_batches(*old(self)).len() > 0 ==> (r matches Some(b) && b@ == queued_batches(
                *old(self),
            )[0] && queued_batches(*final(self)) == queued_batches(*old(self)).drop_first()),
    {
        channel_try_recv(self)
    }

    /// Number of batches waiting.
    pub fn len(&self) -> (n: usize)
        ensures
            n == queued_batches(*self).len(),
    {
        channel_len(self)
    }
}

/// What the sampler does after a poll.
#[derive(Debug, Clone, PartialEq, Eq)]
pub enum SampleOutcome {
    /// Nothing was touched: poll again after the poll interval.
    Idle,
    /// The batch was published: pause for the cooldown before polling again.
    Published,
    /// The queue was full: the batch is handed back to be published again
    /// once the consumer has drained one.
    Held(Vec<TouchPoint>),
}

/// Publishes a non-empty batch of touches; empty batches are not published.
pub fn publish_touches(queue: &mut TouchQueue, touches: Vec<TouchPoint>) -> (r: SampleOutcome)
    ensures
        queue_bound(*final(queue)) == queue_bound(*old(queue)),
        touches@.len() == 0 ==> r == SampleOutcome::Idle && queued_batches(*final(queue))
            == queued_batches(*old(queue)),
        touches@.len() > 0 && queued_batches(*old(queue)).len() < queue_bound(*old(queue)) ==> r
            == SampleOutcome::Published && queued_batches(*final(queue)) == queued_batches(
            *old(queue),
        ).push(touches@),
        touches@.len() > 0 && queued_batches(*old(queue)).len() >= queue_bound(*old(queue)) ==> (r
            matches SampleOutcome::Held(b) && b@ == touches@ && queued_batches(*final(queue))
            == queued_batches(*old(queue))),
{
    if touches.len() == 0 {
        return SampleOutcome::Idle;
    }
    match queue.publish(touches) {
        Ok(()) => SampleOutcome::Published,
        Err(b) => SampleOutcome::Held(b),
    }
}

/// Milliseconds that the sampler pauses after an outcome.
pub fn pause_after(outcome: &SampleOutcome) -> (ms: u64)
    ensures
        outcome is Published ==> ms == COOLDOWN_MS,
        !(outcome is Published) ==> ms == POLL_INTERVAL_MS,
{
    match outcome {
        SampleOutcome::Published => COOLDOWN_MS,
        _ => POLL_INTERVAL_MS,
    }
}

proof fn lemma_publish_all_fits(cap: nat, bs: Seq<Seq<TouchPoint>>)
    requires
        bs.len() <= cap,
    ensures
        after_publish_all(Seq::empty(), cap, bs) == Some(bs),
    decreases bs.len(),
{
    if bs.len() > 0 {
        lemma_publish_all_fits(cap, bs.drop_last());
        assert(bs.drop_last().push(bs.last()) =~= bs);
    }
}

proof fn lemma_drained_all(pending: Seq<Seq<TouchPoint>>)
    ensures
        drained(pending, pending.len()) == pending,
    decreases pending.len(),
{
    if pending.len() > 0 {
        lemma_drained_all(pending.drop_first());
        assert(seq![pending[0]] + pending.drop_first() =~= pending);
    }
}

/// Into an empty queue of capacity `cap`, publishing `cap` batches accepts
/// every one of them; one more is refused until a drain makes room;
/// draining `cap` times hands the batches back in the order published.
pub proof fn lemma_fifo_without_loss(cap: nat, bs: Seq<Seq<TouchPoint>>, extra: Seq<TouchPoint>)
    requires
        bs.len() == cap,
    ensures
        after_publish_all(Seq::empty(), cap, bs) == Some(bs),
        after_publish(bs, cap, extra).is_none(),
        cap > 0 ==> after_publish(bs.drop_first(), cap, extra) == Some(bs.drop_first().push(extra)),
        drained(bs, cap) == bs,
{
    lemma_publish_all_fits(cap, bs);
    lemma_drained_all(bs);
}

} // verus!
