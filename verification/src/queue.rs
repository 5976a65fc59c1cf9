//! The bounded in-process message queue between the event dispatcher and the
//! message processor. It is backed by a bounded first-in-first-out channel of
//! an outside crate; both endpoints live in one value here, so the channel is
//! never closed while the queue exists, and draining is an explicit
//! non-suspending "take everything buffered now" operation.

use crate::QueuedMessage;
use vstd::prelude::*;

verus! {

/// A bounded queue of inbound guild messages.
#[verifier::external_body]
pub struct MessageQueue {
    tx: tokio::sync::mpsc::Sender<QueuedMessage>,
    rx: tokio::sync::mpsc::Receiver<QueuedMessage>,
}

/// The messages buffered in `q`, oldest first.
pub uninterp spec fn queue_contents(q: MessageQueue) -> Seq<QueuedMessage>;

/// The fixed capacity `q` was created with.
pub uninterp spec fn queue_capacity(q: MessageQueue) -> nat;

/// The error an enqueue on a full queue returns; the refused message comes
/// back with it.
pub struct QueueFull(pub QueuedMessage);

impl MessageQueue {
    /// Relies on tokio::sync::mpsc::channel: creates a bounded channel with
    /// the given buffer capacity and an empty buffer. It panics on a zero
    /// capacity, and on one above the permit maximum of the semaphore behind
    /// it, `usize::MAX >> 3`; the precondition rules both out.
    #[verifier::external_body]
    fn raw_new(capacity: usize) -> (q: MessageQueue)
        requires
            1 <= capacity <= usize::MAX >> 3,
        ensures
            queue_contents(q) == Seq::<QueuedMessage>::empty(),
            queue_capacity(q) == capacity,
    {
        let (tx, rx) = tokio::sync::mpsc::channel(capacity);
        MessageQueue { tx, rx }
    }

    /// Relies on tokio::sync::mpsc::Sender::try_send: without waiting, it
    /// buffers the message when the buffer is below capacity and returns it
    /// in the Full error otherwise; messages arrive in send order. Closed
    /// cannot occur: the receiving half lives in the same value.
    #[verifier::external_body]
    fn raw_try_send(&mut self, m: QueuedMessage) -> (r: Result<(), QueuedMessage>)
        ensures
            queue_capacity(*final (self)) == queue_capacity(*old(self)),
            match r {
                Ok(()) => queue_contents(*old(self)).len() < queue_capacity(*old(self))
                    && queue_contents(*final (self)) == queue_contents(*old(self)).push(m),
                Err(back) => queue_contents(*old(self)).len() == queue_capacity(*old(self))
                    && queue_contents(*final (self)) == queue_contents(*old(self)) && back == m,
            },
    {
        match self.tx.try_send(m) {
            Ok(()) => Ok(()),
            Err(tokio::sync::mpsc::error::TrySendError::Full(back)) => Err(back),
            Err(tokio::sync::mpsc::error::TrySendError::Closed(back)) => Err(back),
        }
    }

    /// Relies on tokio::sync::mpsc::Receiver::try_recv: without waiting, it
    /// takes the oldest buffered message, or reports an empty buffer.
    /// Disconnected cannot occur: the sending half lives in the same value.
    #[verifier::external_body]
    fn raw_try_recv(&mut self) -> (r: Option<QueuedMessage>)
        ensures
            queue_capacity(*final (self)) == queue_capacity(*old(self)),
            match r {
                Some(m) => queue_contents(*old(self)).len() > 0 && m == queue_contents(
                    *old(self),
                ).first() && queue_contents(*final (self)) == queue_contents(
                    *old(self),
                ).drop_first(),
                None => queue_contents(*old(self)).len() == 0 && queue_contents(*final (self))
                    == queue_contents(*old(self)),
            },
    {
        self.rx.try_recv().ok()
    }

    /// An empty queue that buffers at most `capacity` messages. The capacity
    /// must be at least one and no more than the backing channel's permit
    /// maximum, `usize::MAX >> 3`.
    pub fn new(capacity: usize) -> (q: MessageQueue)
        requires
            1 <= capacity <= usize::MAX >> 3,
        ensures
            queue_contents(q) == Seq::<QueuedMessage>::empty(),
            queue_capacity(q) == capacity,
    {
        MessageQueue::raw_new(capacity)
    }

    /// Appends `m` to the queue when it is below capacity; a full queue
    /// refuses and returns the message unchanged.
    pub fn try_enqueue(&mut self, m: QueuedMessage) -> (r: Result<(), QueueFull>)
        ensures
            queue_capacity(*final (self)) == queue_capacity(*old(self)),
            match r {
                Ok(()) => queue_contents(*old(self)).len() < queue_capacity(*old(self))
                    && queue_contents(*final (self)) == queue_contents(*old(self)).push(m),
                Err(back) => queue_contents(*old(self)).len() == queue_capacity(*old(self))
                    && queue_contents(*final (self)) == queue_contents(*old(self)) && back.0 == m,
            },
    {
        match self.raw_try_send(m) {
            Ok(()) => Ok(()),
            Err(back) => Err(QueueFull(back)),
        }
    }

    /// Takes every message buffered at call time, oldest first, and leaves
    /// the queue empty. It never waits for new messages: the drain hands out
    /// exactly what was buffered, each message once.
    pub fn drain_all(&mut self) -> (drained: Vec<QueuedMessage>)
        ensures
            queue_capacity(*final (self)) == queue_capacity(*old(self)),
            drained@ == queue_contents(*old(self)),
            queue_contents(*final (self)) == Seq::<QueuedMessage>::empty(),
    {
        let mut out: Vec<QueuedMessage> = Vec::new();
        let mut done = false;
        while !done
            invariant
                queue_capacity(*self) == queue_capacity(*old(self)),
                out@ + queue_contents(*self) == queue_contents(*old(self)),
                done ==> queue_contents(*self).len() == 0,
            decreases queue_contents(*self).len() + if done {
                0int
            } else {
                1int
            },
        {
            let ghost prev = queue_contents(*self);
            match self.raw_try_recv() {
                Some(m) => {
                    proof {
                        assert(out@.push(m) + queue_contents(*self) =~= out@ + prev);
                    }
                    out.push(m);
                },
                None => {
                    done = true;
                },
            }
        }
        proof {
            assert(out@ + queue_contents(*self) =~= out@);
        }
        out
    }
}

/// Law: at-most-once delivery. [`MessageQueue::drain_all`] takes the queue by
/// exclusive reference, so two drains can never overlap, and it leaves the
/// queue empty: of two successive drains, the second returns only what was
/// enqueued after the first, so no buffered message reaches more than one
/// drain call.
pub proof fn lemma_at_most_once_delivery(
    buffered: Seq<QueuedMessage>,
    first_drain: Seq<QueuedMessage>,
    left_after_first: Seq<QueuedMessage>,
    enqueued_between: Seq<QueuedMessage>,
    second_drain: Seq<QueuedMessage>,
)
    requires
        first_drain == buffered,
        left_after_first == Seq::<QueuedMessage>::empty(),
        second_drain == left_after_first + enqueued_between,
    ensures
        second_drain == enqueued_between,
        first_drain + second_drain == buffered + enqueued_between,
{
    assert(left_after_first + enqueued_between =~= enqueued_between);
}

} // verus!
