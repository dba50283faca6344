//! The bridge as one thing: the state of its thread and the queue that
//! leads to it, behind one lock of the embedding program.
//!
//! Any thread submits work; the bridge thread polls. What the thread is
//! told to run is what was submitted, in that order, and a bridge that was
//! closed runs all that it had accepted before its thread ends.
use crate::bridge::{
    count, lifecycle, lemma_bridge_step, ran, step_model, BridgeCommand, BridgeEvent, BridgeState,
    CommandKind,
};
use crate::queue::{after_take, closed, submitted, taken, QueueModel, Taken, WorkQueue};
use vstd::prelude::*;

verus! {

/// The bridge as a value.
pub struct BridgeModel<T> {
    /// Where the bridge thread is in its life.
    pub state: BridgeState,
    /// The work that waits for it.
    pub queue: QueueModel<T>,
}

/// What the bridge thread gets when it looks for work.
#[derive(Debug)]
pub enum Poll<T> {
    /// Nothing yet: the thread waits until work is submitted or the bridge
    /// is closed, and polls again.
    Wait,
    /// What to do now; nothing if the thread does not serve.
    Do(Vec<BridgeCommand<T>>),
}

/// The bridge after the thread has looked for work, and what the thread is
/// told; `None` where it has to wait.
///
/// A thread that serves takes the oldest piece of work, if there is one,
/// and is told to run it; where there is none and the bridge is closed, it
/// is told to end. A thread that does not serve is told nothing.
pub open spec fn poll_model<T>(bridge: BridgeModel<T>) -> (
    BridgeModel<T>,
    Option<Seq<BridgeCommand<T>>>,
) {
    if bridge.state is Serving {
        match taken(bridge.queue) {
            Taken::Work(work) => {
                let next = step_model(bridge.state, BridgeEvent::WorkReceived(work));
                (BridgeModel { state: next.0, queue: after_take(bridge.queue) }, Some(next.1))
            },
            Taken::Closed => {
                let next = step_model(bridge.state, BridgeEvent::<T>::QueueClosed);
                (BridgeModel { state: next.0, queue: bridge.queue }, Some(next.1))
            },
            Taken::Empty => (bridge, None),
        }
    } else {
        (bridge, Some(Seq::empty()))
    }
}

/// Whether an event tells how a step of setting up went: the events that
/// the bridge thread reports itself. Work comes to it through the queue.
pub open spec fn is_setup<T>(event: BridgeEvent<T>) -> bool {
    !(event is WorkReceived) && !(event is QueueClosed)
}

/// The state and the commands that follow from what the bridge thread
/// reports of itself.
pub open spec fn report_model<T>(state: BridgeState, event: BridgeEvent<T>) -> (
    BridgeState,
    Seq<BridgeCommand<T>>,
) {
    if is_setup(event) {
        step_model(state, event)
    } else {
        (state, Seq::empty())
    }
}

/// The bridge: the state of its thread and the queue that leads to it.
#[derive(Debug)]
pub struct Bridge<T> {
    state: BridgeState,
    queue: WorkQueue<T>,
}

impl<T> Bridge<T> {
    /// The bridge as a value.
    pub closed spec fn view(&self) -> BridgeModel<T> {
        BridgeModel { state: self.state, queue: self.queue@ }
    }

    /// A bridge whose thread has not begun, with an empty queue that takes
    /// work.
    pub fn new() -> (bridge: Bridge<T>)
        ensures
            bridge@ == (BridgeModel::<T> {
                state: BridgeState::Created,
                queue: QueueModel { pending: Seq::empty(), closed: false },
            }),
    {
        Bridge { state: BridgeState::Created, queue: WorkQueue::new() }
    }

    /// Where the bridge thread is in its life.
    pub fn state(&self) -> (state: BridgeState)
        ensures
            state == self@.state,
    {
        self.state
    }

    /// Tells the bridge how a step of setting up went, and gets what the
    /// thread does next. The queue is not touched. Work reaches the thread
    /// through the queue alone: an event that brings work, or says that the
    /// queue is closed, is not taken from outside and changes nothing.
    pub fn advance(&mut self, event: BridgeEvent<T>) -> (commands: Vec<BridgeCommand<T>>)
        ensures
            final(self)@.state == report_model(old(self)@.state, event).0,
            commands@ == report_model(old(self)@.state, event).1,
            final(self)@.queue == old(self)@.queue,
    {
        match event {
            BridgeEvent::WorkReceived(_) => Vec::new(),
            BridgeEvent::QueueClosed => Vec::new(),
            report => {
                let (state, commands) = self.state.step(report);
                self.state = state;
                commands
            },
        }
    }

    /// Submits a piece of work: it goes to the back of the queue. A closed
    /// bridge takes no work and hands it back.
    pub fn submit(&mut self, item: T) -> (refused: Option<T>)
        ensures
            final(self)@.queue == submitted(old(self)@.queue, item),
            final(self)@.state == old(self)@.state,
            refused == (if old(self)@.queue.closed {
                Some(item)
            } else {
                None::<T>
            }),
    {
        self.queue.submit(item)
    }

    /// Closes the bridge: it takes no more work, and its thread ends once
    /// it has run what waits.
    pub fn close(&mut self)
        ensures
            final(self)@.queue == closed(old(self)@.queue),
            final(self)@.state == old(self)@.state,
    {
        self.queue.close();
    }

    /// Looks for work on behalf of the bridge thread.
    pub fn poll(&mut self) -> (poll: Poll<T>)
        ensures
            final(self)@ == poll_model(old(self)@).0,
            match poll {
                Poll::Wait => poll_model(old(self)@).1 is None,
                Poll::Do(commands) => poll_model(old(self)@).1 == Some(commands@),
            },
    {
        match self.state {
            BridgeState::Serving => match self.queue.take() {
                Taken::Work(work) => {
                    let (state, commands) = self.state.step(BridgeEvent::WorkReceived(work));
                    self.state = state;
                    Poll::Do(commands)
                },
                Taken::Closed => {
                    let (state, commands) = self.state.step(BridgeEvent::QueueClosed);
                    self.state = state;
                    Poll::Do(commands)
                },
                Taken::Empty => Poll::Wait,
            },
            _ => Poll::Do(Vec::new()),
        }
    }
}

/// What is done to a bridge, by whom it may be.
pub enum BridgeOp<T> {
    /// The bridge thread reports what its last call brought.
    Report(BridgeEvent<T>),
    /// Some thread submits a piece of work.
    Submit(T),
    /// The owner closes the bridge.
    Close,
    /// The bridge thread looks for work.
    Poll,
}

/// A bridge with its past: all the work it accepted, and all that its
/// thread was told to do, each in order.
pub struct BridgeHistory<T> {
    pub bridge: BridgeModel<T>,
    pub accepted: Seq<T>,
    pub commands: Seq<BridgeCommand<T>>,
}

/// The history after one more operation.
pub open spec fn apply<T>(history: BridgeHistory<T>, op: BridgeOp<T>) -> BridgeHistory<T> {
    match op {
        BridgeOp::Report(event) => {
            let next = report_model(history.bridge.state, event);
            BridgeHistory {
                bridge: BridgeModel { state: next.0, queue: history.bridge.queue },
                accepted: history.accepted,
                commands: history.commands + next.1,
            }
        },
        BridgeOp::Submit(item) => BridgeHistory {
            bridge: BridgeModel {
                state: history.bridge.state,
                queue: submitted(history.bridge.queue, item),
            },
            accepted: if history.bridge.queue.closed {
                history.accepted
            } else {
                history.accepted.push(item)
            },
            commands: history.commands,
        },
        BridgeOp::Close => BridgeHistory {
            bridge: BridgeModel {
                state: history.bridge.state,
                queue: closed(history.bridge.queue),
            },
            accepted: history.accepted,
            commands: history.commands,
        },
        BridgeOp::Poll => {
            let next = poll_model(history.bridge);
            BridgeHistory {
                bridge: next.0,
                accepted: history.accepted,
                commands: match next.1 {
                    Some(commands) => history.commands + commands,
                    None => history.commands,
                },
            }
        },
    }
}

/// The history of a new bridge after the operations `ops` in that order.
pub open spec fn history_of<T>(ops: Seq<BridgeOp<T>>) -> BridgeHistory<T>
    decreases ops.len(),
{
    if ops.len() == 0 {
        BridgeHistory {
            bridge: BridgeModel {
                state: BridgeState::Created,
                queue: QueueModel { pending: Seq::empty(), closed: false },
            },
            accepted: Seq::empty(),
            commands: Seq::empty(),
        }
    } else {
        apply(history_of(ops.drop_last()), ops.last())
    }
}

/// What holds of a history at every moment.
pub open spec fn serialized<T>(history: BridgeHistory<T>) -> bool {
    &&& ran(history.commands) + history.bridge.queue.pending == history.accepted
    &&& lifecycle(history.bridge.state, history.commands)
    &&& history.bridge.state is Stopped && count(history.commands, CommandKind::ReportReady) == 1
        ==> history.bridge.queue.closed && history.bridge.queue.pending.len() == 0
}

/// However submissions, polls and the closing of the bridge fall between
/// each other, the work that the bridge thread is told to run is the work
/// that was accepted, in the order in which it was accepted: what has run
/// followed by what waits is what was accepted. And a bridge that has
/// served and whose thread has ended has run all that it accepted.
pub proof fn lemma_bridge_serializes<T>(ops: Seq<BridgeOp<T>>)
    ensures
        serialized(history_of(ops)),
        ran(history_of(ops).commands).is_prefix_of(history_of(ops).accepted),
        history_of(ops).bridge.state is Stopped && count(
            history_of(ops).commands,
            CommandKind::ReportReady,
        ) == 1 ==> ran(history_of(ops).commands) == history_of(ops).accepted,
    decreases ops.len(),
{
    let now = history_of(ops);
    if ops.len() == 0 {
        assert(ran(now.commands) + now.bridge.queue.pending =~= now.accepted);
    } else {
        let earlier = ops.drop_last();
        lemma_bridge_serializes(earlier);
        let before = history_of(earlier);
        match ops.last() {
            BridgeOp::Report(event) => {
                if is_setup(event) {
                    lemma_bridge_step(before.bridge.state, before.commands, event);
                } else {
                    assert(now.commands =~= before.commands);
                }
            },
            BridgeOp::Submit(item) => {
                if !before.bridge.queue.closed {
                    assert(ran(now.commands) + now.bridge.queue.pending =~= (ran(before.commands)
                        + before.bridge.queue.pending).push(item));
                }
            },
            BridgeOp::Close => {},
            BridgeOp::Poll => {
                if before.bridge.state is Serving {
                    match taken(before.bridge.queue) {
                        Taken::Work(work) => {
                            lemma_bridge_step(
                                before.bridge.state,
                                before.commands,
                                BridgeEvent::WorkReceived(work),
                            );
                            assert(ran(now.commands) + now.bridge.queue.pending =~= ran(
                                before.commands,
                            ) + before.bridge.queue.pending);
                        },
                        Taken::Closed => {
                            lemma_bridge_step(
                                before.bridge.state,
                                before.commands,
                                BridgeEvent::<T>::QueueClosed,
                            );
                        },
                        Taken::Empty => {},
                    }
                } else {
                    assert(now.commands =~= before.commands);
                }
            },
        }
    }
    assert(ran(now.commands) + now.bridge.queue.pending =~= now.accepted);
    assert(now.accepted.subrange(0, ran(now.commands).len() as int) =~= ran(now.commands));
    if now.bridge.state is Stopped && count(now.commands, CommandKind::ReportReady) == 1 {
        assert(ran(now.commands) =~= now.accepted);
    }
}

} // verus!
