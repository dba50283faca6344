//! The queue of work for the bridge thread: any thread puts work in, the
//! bridge thread takes it out, and what went in first comes out first.
use std::collections::VecDeque;
use vstd::prelude::*;

verus! {

/// A queue as a value: what waits in it, oldest first, and whether it still
/// takes work.
pub struct QueueModel<T> {
    pub pending: Seq<T>,
    pub closed: bool,
}

/// What a take from the queue gives.
#[derive(Debug)]
pub enum Taken<T> {
    /// The oldest piece of work.
    Work(T),
    /// Nothing yet: more may come.
    Empty,
    /// Nothing ever again: the queue is closed and has been emptied.
    Closed,
}

/// The queue after `item` was submitted: at the back, unless the queue is
/// closed.
pub open spec fn submitted<T>(queue: QueueModel<T>, item: T) -> QueueModel<T> {
    if queue.closed {
        queue
    } else {
        QueueModel { pending: queue.pending.push(item), closed: false }
    }
}

/// What a take gives: the oldest piece of work while there is one.
pub open spec fn taken<T>(queue: QueueModel<T>) -> Taken<T> {
    if queue.pending.len() > 0 {
        Taken::Work(queue.pending[0])
    } else if queue.closed {
        Taken::Closed
    } else {
        Taken::Empty
    }
}

/// The queue after a take.
pub open spec fn after_take<T>(queue: QueueModel<T>) -> QueueModel<T> {
    if queue.pending.len() > 0 {
        QueueModel { pending: queue.pending.drop_first(), closed: queue.closed }
    } else {
        queue
    }
}

/// The queue after it was closed: what waits in it stays.
pub open spec fn closed<T>(queue: QueueModel<T>) -> QueueModel<T> {
    QueueModel { pending: queue.pending, closed: true }
}

/// The queue of work for the bridge thread.
#[derive(Debug)]
pub struct WorkQueue<T> {
    items: VecDeque<T>,
    closed: bool,
}

impl<T> WorkQueue<T> {
    /// The queue as a value.
    pub closed spec fn view(&self) -> QueueModel<T> {
        QueueModel { pending: self.items@, closed: self.closed }
    }

    /// An empty queue that takes work.
    pub fn new() -> (queue: WorkQueue<T>)
        ensures
            queue@ == (QueueModel::<T> { pending: Seq::empty(), closed: false }),
    {
        WorkQueue { items: VecDeque::new(), closed: false }
    }

    /// Puts `item` at the back of the queue. A closed queue takes nothing:
    /// it hands `item` back.
    pub fn submit(&mut self, item: T) -> (refused: Option<T>)
        ensures
            final(self)@ == submitted(old(self)@, item),
            refused == (if old(self)@.closed {
                Some(item)
            } else {
                None::<T>
            }),
    {
        if self.closed {
            Some(item)
        } else {
            self.items.push_back(item);
            None
        }
    }

    /// Takes the oldest piece of work out of the queue, if there is one.
    /// A closed queue still hands out what waits in it; only when that is
    /// gone does it say that it is closed.
    pub fn take(&mut self) -> (work: Taken<T>)
        ensures
            work == taken(old(self)@),
            final(self)@ == after_take(old(self)@),
    {
        match self.items.pop_front() {
            Some(item) => {
                assert(self.items@ =~= old(self).items@.drop_first());
                Taken::Work(item)
            },
            None => {
                if self.closed {
                    Taken::Closed
                } else {
                    Taken::Empty
                }
            },
        }
    }

    /// Closes the queue: no more work is taken in.
    pub fn close(&mut self)
        ensures
            final(self)@ == closed(old(self)@),
    {
        self.closed = true;
    }

    /// How many pieces of work wait in the queue.
    pub fn len(&self) -> (count: usize)
        ensures
            count == self@.pending.len(),
    {
        proof {
            vstd::std_specs::vecdeque::axiom_spec_len(&self.items);
        }
        self.items.len()
    }
}

/// What is done to a queue.
pub enum QueueOp<T> {
    Submit(T),
    Take,
    Close,
}

/// A queue with its past: all that it took in and all that it handed out,
/// each in order.
pub struct QueueHistory<T> {
    pub queue: QueueModel<T>,
    pub accepted: Seq<T>,
    pub handed_out: Seq<T>,
}

/// The history after one more operation.
pub open spec fn apply<T>(history: QueueHistory<T>, op: QueueOp<T>) -> QueueHistory<T> {
    match op {
        QueueOp::Submit(item) => QueueHistory {
            queue: submitted(history.queue, item),
            accepted: if history.queue.closed {
                history.accepted
            } else {
                history.accepted.push(item)
            },
            handed_out: history.handed_out,
        },
        QueueOp::Take => QueueHistory {
            queue: after_take(history.queue),
            accepted: history.accepted,
            handed_out: match taken(history.queue) {
                Taken::Work(item) => history.handed_out.push(item),
                _ => history.handed_out,
            },
        },
        QueueOp::Close => QueueHistory {
            queue: closed(history.queue),
            accepted: history.accepted,
            handed_out: history.handed_out,
        },
    }
}

/// The history of a new queue after the operations `ops` in that order.
pub open spec fn history_of<T>(ops: Seq<QueueOp<T>>) -> QueueHistory<T>
    decreases ops.len(),
{
    if ops.len() == 0 {
        QueueHistory {
            queue: QueueModel { pending: Seq::empty(), closed: false },
            accepted: Seq::empty(),
            handed_out: Seq::empty(),
        }
    } else {
        apply(history_of(ops.drop_last()), ops.last())
    }
}

/// Work leaves the queue in the order in which it entered, whatever is
/// done to the queue and in whatever order: at every moment, what was
/// handed out so far followed by what still waits is exactly what was taken
/// in so far. Nothing is lost, nothing comes twice, nothing overtakes.
pub proof fn lemma_first_in_first_out<T>(ops: Seq<QueueOp<T>>)
    ensures
        ({
            let history = history_of(ops);
            history.handed_out + history.queue.pending == history.accepted
        }),
        history_of(ops).handed_out.is_prefix_of(history_of(ops).accepted),
    decreases ops.len(),
{
    if ops.len() > 0 {
        lemma_first_in_first_out(ops.drop_last());
        let before = history_of(ops.drop_last());
        let after = history_of(ops);
        match ops.last() {
            QueueOp::Submit(item) => {
                if !before.queue.closed {
                    assert(after.handed_out + after.queue.pending =~= (before.handed_out
                        + before.queue.pending).push(item));
                }
            },
            QueueOp::Take => {
                if before.queue.pending.len() > 0 {
                    assert(after.handed_out + after.queue.pending =~= before.handed_out
                        + before.queue.pending);
                }
            },
            QueueOp::Close => {},
        }
    }
    let history = history_of(ops);
    assert(history.handed_out + history.queue.pending =~= history.accepted);
    assert(history.accepted.subrange(0, history.handed_out.len() as int) =~= history.handed_out);
}

/// A closed queue hands out all that waits in it before it says that it is
/// closed, and once closed it takes nothing in.
pub proof fn lemma_closed_queue_drains<T>(queue: QueueModel<T>, item: T)
    requires
        queue.closed,
    ensures
        taken(queue) is Closed <==> queue.pending.len() == 0,
        submitted(queue, item) == queue,
        after_take(queue).closed,
{
}

} // verus!
