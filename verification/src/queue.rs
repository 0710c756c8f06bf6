//! FIFO work queue of item identifiers awaiting a refresh.

use std::collections::VecDeque;
use vstd::prelude::*;

use crate::listing::Id;

verus! {

/// Queue of identifiers in arrival order. The same identifier may stand in
/// it several times. Its view is the sequence from head to tail.
pub struct SharedQueue {
    items: VecDeque<Id>,
}

impl View for SharedQueue {
    type V = Seq<Id>;

    closed spec fn view(&self) -> Seq<Id> {
        self.items@
    }
}

impl SharedQueue {
    /// An empty queue.
    pub fn new() -> (q: SharedQueue)
        ensures
            q@ == Seq::<Id>::empty(),
    {
        SharedQueue { items: VecDeque::new() }
    }

    /// Number of identifiers waiting.
    pub fn len(&self) -> (n: usize)
        ensures
            n == self@.len(),
    {
        self.items.len()
    }

    /// Whether nothing is waiting.
    pub fn is_empty(&self) -> (b: bool)
        ensures
            b == (self@.len() == 0),
    {
        self.items.len() == 0
    }

    /// Appends one identifier at the tail.
    pub fn push(&mut self, id: Id)
        ensures
            final(self)@ == old(self)@.push(id),
            final(self)@ == queue_after(old(self)@, QueueOp::Fill(seq![id])),
    {
        self.items.push_back(id);
        assert(old(self)@.push(id) =~= old(self)@ + seq![id]);
    }

    /// Removes and returns the head. On an empty queue returns `None` and
    /// leaves the queue as it was.
    pub fn pop(&mut self) -> (head: Option<Id>)
        ensures
            head == front_of(old(self)@),
            final(self)@ == rest_of(old(self)@),
            final(self)@ == queue_after(old(self)@, QueueOp::Take),
            old(self)@.len() == 0 ==> head is None && final(self)@ == old(self)@,
    {
        let head = self.items.pop_front();
        proof {
            if old(self)@.len() > 0 {
                assert(final(self)@ =~= old(self)@.drop_first());
            }
        }
        head
    }

    /// Appends every identifier of `ids` at the tail, in the order given.
    pub fn push_all(&mut self, ids: &Vec<Id>)
        ensures
            final(self)@ == old(self)@ + ids@,
            final(self)@ == queue_after(old(self)@, QueueOp::Fill(ids@)),
    {
        let mut i: usize = 0;
        while i < ids.len()
            invariant
                i <= ids.len(),
                self@ == old(self)@ + ids@.take(i as int),
            decreases ids.len() - i,
        {
            self.items.push_back(ids[i]);
            assert(ids@.take(i as int).push(ids@[i as int]) =~= ids@.take(i + 1));
            assert(self@ =~= old(self)@ + ids@.take(i + 1));
            i += 1;
        }
        assert(ids@.take(ids.len() as int) =~= ids@);
    }
}

/// What a pop returns on a queue holding `q`: its head, if it has one.
pub open spec fn front_of(q: Seq<Id>) -> Option<Id> {
    if q.len() == 0 {
        None
    } else {
        Some(q[0])
    }
}

/// What a pop leaves of a queue holding `q`: all but the head; an empty
/// queue stays empty.
pub open spec fn rest_of(q: Seq<Id>) -> Seq<Id> {
    if q.len() == 0 {
        q
    } else {
        q.drop_first()
    }
}

/// One operation on the queue, as the lock around it serialises them.
pub enum QueueOp {
    /// The producer appends these identifiers at the tail, in this order.
    Fill(Seq<Id>),
    /// The consumer takes the head, if there is one.
    Take,
}

/// The queue after one operation.
pub open spec fn queue_after(q: Seq<Id>, op: QueueOp) -> Seq<Id> {
    match op {
        QueueOp::Fill(ids) => q + ids,
        QueueOp::Take => rest_of(q),
    }
}

/// The queue after a sequence of operations, applied from the first to the
/// last.
pub open spec fn queue_after_all(q: Seq<Id>, ops: Seq<QueueOp>) -> Seq<Id>
    decreases ops.len(),
{
    if ops.len() == 0 {
        q
    } else {
        queue_after(queue_after_all(q, ops.drop_last()), ops.last())
    }
}

/// Everything that a sequence of operations appended, in the order appended.
pub open spec fn filled(ops: Seq<QueueOp>) -> Seq<Id>
    decreases ops.len(),
{
    if ops.len() == 0 {
        Seq::empty()
    } else {
        match ops.last() {
            QueueOp::Fill(ids) => filled(ops.drop_last()) + ids,
            QueueOp::Take => filled(ops.drop_last()),
        }
    }
}

/// Everything that the takes of a sequence of operations handed out, in the
/// order handed out. A take on an empty queue hands out nothing.
pub open spec fn taken(q: Seq<Id>, ops: Seq<QueueOp>) -> Seq<Id>
    decreases ops.len(),
{
    if ops.len() == 0 {
        Seq::empty()
    } else {
        match ops.last() {
            QueueOp::Fill(ids) => taken(q, ops.drop_last()),
            QueueOp::Take => match front_of(queue_after_all(q, ops.drop_last())) {
                Some(id) => taken(q, ops.drop_last()).push(id),
                None => taken(q, ops.drop_last()),
            },
        }
    }
}

/// Nothing is lost and nothing is duplicated: however fills and takes are
/// interleaved, what the queue held at the start followed by what was
/// appended is what was handed out followed by what is still waiting.
pub proof fn law_nothing_lost_or_duplicated(q: Seq<Id>, ops: Seq<QueueOp>)
    ensures
        q + filled(ops) == taken(q, ops) + queue_after_all(q, ops),
    decreases ops.len(),
{
    if ops.len() == 0 {
        assert(q + filled(ops) =~= taken(q, ops) + queue_after_all(q, ops));
    } else {
        let before = ops.drop_last();
        let waiting = queue_after_all(q, before);
        law_nothing_lost_or_duplicated(q, before);
        match ops.last() {
            QueueOp::Fill(ids) => {
                assert(q + (filled(before) + ids) =~= (q + filled(before)) + ids);
                assert((taken(q, before) + waiting) + ids =~= taken(q, before) + (waiting + ids));
            },
            QueueOp::Take => {
                if waiting.len() > 0 {
                    assert(taken(q, before).push(waiting[0]) + waiting.drop_first() =~= taken(
                        q,
                        before,
                    ) + waiting);
                }
            },
        }
    }
}

/// First in, first out: a queue that holds `ids` hands them out in that
/// order, whatever fills and takes follow, and what is appended later comes
/// out after them in the order appended. The `k`-th take that hands
/// something out hands out the `k`-th identifier in order of arrival.
pub proof fn law_fifo(ids: Seq<Id>, ops: Seq<QueueOp>)
    ensures
        taken(ids, ops).len() <= ids.len() + filled(ops).len(),
        taken(ids, ops) == (ids + filled(ops)).take(taken(ids, ops).len() as int),
        forall|k: int|
            0 <= k < taken(ids, ops).len() ==> #[trigger] taken(ids, ops)[k] == (ids + filled(
                ops,
            ))[k],
        forall|k: int|
            0 <= k < taken(ids, ops).len() && k < ids.len() ==> #[trigger] taken(ids, ops)[k]
                == ids[k],
{
    law_nothing_lost_or_duplicated(ids, ops);
    let all = ids + filled(ops);
    let out = taken(ids, ops);
    assert(all.len() == out.len() + queue_after_all(ids, ops).len());
    assert(out =~= all.take(out.len() as int));
    assert forall|k: int| 0 <= k < out.len() && k < ids.len() implies #[trigger] out[k]
        == ids[k] by {
        assert(out[k] == all.take(out.len() as int)[k]);
    }
}

/// A take on an empty queue hands out nothing and leaves the queue empty.
pub proof fn law_take_on_empty(q: Seq<Id>)
    requires
        q.len() == 0,
    ensures
        front_of(q) is None,
        rest_of(q) == q,
        queue_after(q, QueueOp::Take) == q,
{
}

} // verus!
