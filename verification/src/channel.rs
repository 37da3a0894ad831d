//! The bounded first-in-first-out handoff channel between the two stages.
//!
//! Its capacity is the backpressure window: a send on a full channel is
//! refused (the reader suspends), so the reader can never run more than
//! `capacity` blocks ahead of the writer — see [`lemma_backpressure`].
//! Blocks come out in exactly the order they went in.

use vstd::prelude::*;
use crate::block::Block;

verus! {

/// What a non-blocking send did.
pub enum SendOutcome {
    /// The block was queued.
    Accepted,
    /// The channel was at capacity; the block comes back to the caller.
    Full(Block),
}

/// What a non-blocking receive found.
pub enum RecvOutcome {
    /// The oldest queued block.
    Data(Block),
    /// Nothing queued, sender still attached: retry later.
    Empty,
    /// Nothing queued and the sender is gone: no block will ever arrive.
    Disconnected,
}

/// A bounded queue of [`Block`]s with single-sender, single-receiver use.
pub struct BoundedChannel {
    queue: Vec<Block>,
    capacity: usize,
    sender_closed: bool,
    sent: Ghost<nat>,
    received: Ghost<nat>,
}

impl BoundedChannel {
    /// The queued payloads, oldest first.
    pub closed spec fn contents(&self) -> Seq<Seq<u8>> {
        self.queue@.map(|i: int, b: Block| b@)
    }

    /// The backpressure window the channel was created with.
    pub closed spec fn bound(&self) -> nat {
        self.capacity as nat
    }

    /// Whether the sending side has hung up.
    pub closed spec fn is_sender_closed(&self) -> bool {
        self.sender_closed
    }

    /// How many blocks have ever been accepted by a send.
    pub closed spec fn blocks_sent(&self) -> nat {
        self.sent@
    }

    /// How many blocks have ever been handed out by a receive.
    pub closed spec fn blocks_received(&self) -> nat {
        self.received@
    }

    /// Channel well-formedness: the queue never exceeds the window, and the
    /// send/receive counters account for exactly the blocks still queued.
    pub closed spec fn wf(&self) -> bool {
        &&& self.capacity >= 1
        &&& self.queue@.len() <= self.capacity
        &&& self.sent@ == self.received@ + self.queue@.len()
    }

    /// A fresh channel with window `capacity`.
    pub fn new(capacity: usize) -> (c: Self)
        requires
            capacity >= 1,
        ensures
            c.wf(),
            c.contents() == Seq::<Seq<u8>>::empty(),
            c.bound() == capacity,
            !c.is_sender_closed(),
            c.blocks_sent() == 0,
            c.blocks_received() == 0,
    {
        let c = BoundedChannel {
            queue: Vec::new(),
            capacity,
            sender_closed: false,
            sent: Ghost(0),
            received: Ghost(0),
        };
        proof {
            assert(c.contents() =~= Seq::<Seq<u8>>::empty());
        }
        c
    }

    /// Queues `b` unless the channel is at capacity; a refused block comes
    /// back unchanged, so that the caller can retry after the writer drains.
    pub fn try_send(&mut self, b: Block) -> (r: SendOutcome)
        requires
            old(self).wf(),
            !old(self).is_sender_closed(),
        ensures
            final(self).wf(),
            final(self).bound() == old(self).bound(),
            final(self).is_sender_closed() == old(self).is_sender_closed(),
            final(self).blocks_received() == old(self).blocks_received(),
            old(self).contents().len() < old(self).bound() ==> {
                &&& r is Accepted
                &&& final(self).contents() == old(self).contents().push(b@)
                &&& final(self).blocks_sent() == old(self).blocks_sent() + 1
            },
            old(self).contents().len() >= old(self).bound() ==> {
                &&& r matches SendOutcome::Full(rb) && rb@ == b@
                &&& final(self).contents() == old(self).contents()
                &&& final(self).blocks_sent() == old(self).blocks_sent()
            },
    {
        if self.queue.len() < self.capacity {
            let ghost pre = self.queue@;
            self.queue.push(b);
            self.sent = Ghost(self.sent@ + 1);
            proof {
                assert(self.queue@ =~= pre.push(b));
                assert(self.contents() =~= old(self).contents().push(b@));
            }
            SendOutcome::Accepted
        } else {
            SendOutcome::Full(b)
        }
    }

    /// Hands out the oldest queued block; on an empty queue, reports whether
    /// the sender is still attached.
    pub fn try_recv(&mut self) -> (r: RecvOutcome)
        requires
            old(self).wf(),
        ensures
            final(self).wf(),
            final(self).bound() == old(self).bound(),
            final(self).is_sender_closed() == old(self).is_sender_closed(),
            final(self).blocks_sent() == old(self).blocks_sent(),
            old(self).contents().len() > 0 ==> {
                &&& r matches RecvOutcome::Data(b) && b@ == old(self).contents()[0]
                &&& final(self).contents() == old(self).contents().subrange(
                    1,
                    old(self).contents().len() as int,
                )
                &&& final(self).blocks_received() == old(self).blocks_received() + 1
            },
            old(self).contents().len() == 0 ==> {
                &&& final(self).contents() == old(self).contents()
                &&& final(self).blocks_received() == old(self).blocks_received()
                &&& (old(self).is_sender_closed() ==> r is Disconnected)
                &&& (!old(self).is_sender_closed() ==> r is Empty)
            },
    {
        if self.queue.len() > 0 {
            let ghost pre = self.queue@;
            let b = self.queue.remove(0);
            self.received = Ghost(self.received@ + 1);
            proof {
                assert(self.queue@ =~= pre.subrange(1, pre.len() as int));
                assert(self.contents() =~= old(self).contents().subrange(
                    1,
                    old(self).contents().len() as int,
                ));
            }
            RecvOutcome::Data(b)
        } else if self.sender_closed {
            RecvOutcome::Disconnected
        } else {
            RecvOutcome::Empty
        }
    }

    /// The sender hangs up.  A drained channel whose sender is closed
    /// reports `Disconnected` to the receiver.
    pub fn close_sender(&mut self)
        requires
            old(self).wf(),
        ensures
            final(self).wf(),
            final(self).bound() == old(self).bound(),
            final(self).contents() == old(self).contents(),
            final(self).blocks_sent() == old(self).blocks_sent(),
            final(self).blocks_received() == old(self).blocks_received(),
            final(self).is_sender_closed(),
    {
        self.sender_closed = true;
    }

    /// Whether a send would be refused right now.
    pub fn is_full(&self) -> (r: bool)
        ensures
            r == (self.contents().len() >= self.bound()),
    {
        self.queue.len() >= self.capacity
    }

    /// The window, as created.
    pub fn capacity(&self) -> (n: usize)
        ensures
            n == self.bound(),
    {
        self.capacity
    }
}

/// Backpressure law: on any well-formed channel the reader's accepted sends
/// never run more than the window ahead of the writer's receives, because a
/// send on a full queue is refused until the writer drains.
pub proof fn lemma_backpressure(c: &BoundedChannel)
    requires
        c.wf(),
    ensures
        c.blocks_sent() <= c.blocks_received() + c.bound(),
{
}

} // verus!
