//! The bookkeeping of the command dispatcher: how large the shared queue is,
//! which phase of its life the pool is in, whether a command is still taken,
//! and what a caller is told when its reply slot closes.
//!
//! The queue, the connections and the worker tasks belong to the runtime.
//! What is decided about them is decided here.

use crate::protocol::Error;
use vstd::prelude::*;

verus! {

/// The number of commands that may wait in the shared queue. A submitter
/// that finds the queue this full is held back until a worker takes a
/// command out.
pub const QUEUE_CAPACITY: usize = 100;

/// The phases in the life of a dispatcher, in the order in which they come.
#[derive(Debug, Clone, Copy, PartialEq, Eq, Structural)]
pub enum Phase {
    /// The endpoints are connected, the queue is empty, no worker runs yet.
    Created,
    /// The workers take commands from the queue.
    Running,
    /// The queue takes no new command; the workers finish what is in it.
    Draining,
    /// Every worker has been joined and its result has been collected.
    Shutdown,
}

impl Phase {
    /// The place of the phase in the order of a dispatcher's life.
    pub open spec fn rank(self) -> nat {
        match self {
            Phase::Created => 0,
            Phase::Running => 1,
            Phase::Draining => 2,
            Phase::Shutdown => 3,
        }
    }
}

/// A dispatcher as specifications see it.
pub struct DispatcherView {
    /// The phase that the dispatcher is in.
    pub phase: Phase,
    /// The size of the pool, fixed when the dispatcher is made.
    pub workers: nat,
    /// How the workers that were joined so far ended, in the order of joining.
    pub exits: Seq<Result<(), Error>>,
}

impl DispatcherView {
    /// What holds of every dispatcher: results are collected while draining
    /// and not before, no more of them than there are workers, and the
    /// dispatcher is shut down exactly when none is missing any more.
    pub open spec fn wf(self) -> bool {
        match self.phase {
            Phase::Created | Phase::Running => self.exits.len() == 0,
            Phase::Draining => self.exits.len() < self.workers,
            Phase::Shutdown => self.exits.len() == self.workers,
        }
    }

    /// The dispatcher after its workers were started.
    pub open spec fn started(self) -> DispatcherView {
        if self.phase == Phase::Created {
            DispatcherView { phase: Phase::Running, ..self }
        } else {
            self
        }
    }

    /// The dispatcher after its queue was closed to new commands. A pool
    /// without workers has nobody to wait for.
    pub open spec fn drained(self) -> DispatcherView {
        if self.phase == Phase::Running {
            DispatcherView {
                phase: if self.workers == 0 {
                    Phase::Shutdown
                } else {
                    Phase::Draining
                },
                ..self
            }
        } else {
            self
        }
    }

    /// The dispatcher after one more worker was joined and ended with `exit`.
    pub open spec fn joined(self, exit: Result<(), Error>) -> DispatcherView {
        if self.phase == Phase::Draining {
            DispatcherView {
                phase: if self.exits.len() + 1 == self.workers {
                    Phase::Shutdown
                } else {
                    Phase::Draining
                },
                exits: self.exits.push(exit),
                ..self
            }
        } else {
            self
        }
    }

    /// Whether a command that is submitted now is taken.
    pub open spec fn admits(self) -> bool {
        self.phase == Phase::Running
    }
}

/// The life of one pool of workers around one shared queue.
#[derive(Debug)]
pub struct Dispatcher {
    phase: Phase,
    workers: usize,
    exits: Vec<Result<(), Error>>,
}

impl View for Dispatcher {
    type V = DispatcherView;

    closed spec fn view(&self) -> DispatcherView {
        DispatcherView { phase: self.phase, workers: self.workers as nat, exits: self.exits@ }
    }
}

impl Dispatcher {
    /// A dispatcher for a pool of `workers` endpoints. It is made once every
    /// one of them is connected; nothing runs yet and nothing was collected.
    pub fn new(workers: usize) -> (dispatcher: Dispatcher)
        ensures
            dispatcher@ == (DispatcherView {
                phase: Phase::Created,
                workers: workers as nat,
                exits: Seq::empty(),
            }),
    {
        Dispatcher { phase: Phase::Created, workers, exits: Vec::new() }
    }

    /// The phase that the dispatcher is in.
    pub fn phase(&self) -> (phase: Phase)
        ensures
            phase == self@.phase,
    {
        self.phase
    }

    /// The size of the pool.
    pub fn workers(&self) -> (workers: usize)
        ensures
            workers == self@.workers,
    {
        self.workers
    }

    /// How the workers that were joined so far ended.
    pub fn exits(&self) -> (exits: &Vec<Result<(), Error>>)
        ensures
            exits@ == self@.exits,
    {
        &self.exits
    }

    /// Records that the workers run. Returns whether this changed the phase:
    /// a dispatcher starts once, from `Created`.
    pub fn start(&mut self) -> (changed: bool)
        ensures
            final(self)@ == old(self)@.started(),
            changed == (old(self)@.phase == Phase::Created),
    {
        match self.phase {
            Phase::Created => {
                self.phase = Phase::Running;
                true
            },
            _ => false,
        }
    }

    /// Decides on a submission: a command is taken while the workers run,
    /// and refused as `QueueClosed` in every other phase.
    pub fn submit(&self) -> (admitted: Result<(), Error>)
        ensures
            admitted == if self@.admits() {
                Ok::<(), Error>(())
            } else {
                Err::<(), Error>(Error::QueueClosed)
            },
    {
        match self.phase {
            Phase::Running => Ok(()),
            _ => Err(Error::QueueClosed),
        }
    }

    /// Closes the queue to new commands. Returns whether this changed the
    /// phase: only a running dispatcher can be drained.
    pub fn drain(&mut self) -> (changed: bool)
        ensures
            final(self)@ == old(self)@.drained(),
            changed == (old(self)@.phase == Phase::Running),
    {
        match self.phase {
            Phase::Running => {
                if self.workers == 0 {
                    self.phase = Phase::Shutdown;
                } else {
                    self.phase = Phase::Draining;
                }
                true
            },
            _ => false,
        }
    }

    /// Collects the result of a worker that was joined. Returns whether the
    /// result was taken: results are collected while draining, one for each
    /// worker, and the last of them shuts the dispatcher down.
    pub fn joined(&mut self, exit: Result<(), Error>) -> (changed: bool)
        ensures
            final(self)@ == old(self)@.joined(exit),
            changed == (old(self)@.phase == Phase::Draining),
    {
        match self.phase {
            Phase::Draining => {
                self.exits.push(exit);
                if self.exits.len() == self.workers {
                    self.phase = Phase::Shutdown;
                }
                true
            },
            _ => false,
        }
    }
}

/// What the caller of a query is told once waiting on its reply slot has
/// ended: the value that the worker put there, or `QueueClosed` where the
/// slot was closed without one because the worker's endpoint had died.
pub fn reply_or_closed<T>(received: Option<T>) -> (outcome: Result<T, Error>)
    ensures
        outcome == match received {
            Some(value) => Ok::<T, Error>(value),
            None => Err::<T, Error>(Error::QueueClosed),
        },
{
    match received {
        Some(value) => Ok(value),
        None => Err(Error::QueueClosed),
    }
}

/// No step of a dispatcher's life goes back: the phase after a step never
/// comes before the phase in front of it, and the size of the pool stays.
pub proof fn lemma_phases_advance(dispatcher: DispatcherView, exit: Result<(), Error>)
    requires
        dispatcher.wf(),
    ensures
        dispatcher.started().wf(),
        dispatcher.drained().wf(),
        dispatcher.joined(exit).wf(),
        dispatcher.phase.rank() <= dispatcher.started().phase.rank(),
        dispatcher.phase.rank() <= dispatcher.drained().phase.rank(),
        dispatcher.phase.rank() <= dispatcher.joined(exit).phase.rank(),
        dispatcher.started().workers == dispatcher.workers,
        dispatcher.drained().workers == dispatcher.workers,
        dispatcher.joined(exit).workers == dispatcher.workers,
{
}

/// `Shutdown` is final: no step changes a dispatcher that is shut down, and
/// it takes no command.
pub proof fn lemma_shutdown_is_final(dispatcher: DispatcherView, exit: Result<(), Error>)
    requires
        dispatcher.phase == Phase::Shutdown,
    ensures
        dispatcher.started() == dispatcher,
        dispatcher.drained() == dispatcher,
        dispatcher.joined(exit) == dispatcher,
        !dispatcher.admits(),
{
}

/// Results are not discarded: joining a worker while draining appends its
/// result to the ones collected before, which stay as they were.
pub proof fn lemma_results_are_kept(dispatcher: DispatcherView, exit: Result<(), Error>)
    requires
        dispatcher.phase == Phase::Draining,
    ensures
        dispatcher.joined(exit).exits == dispatcher.exits.push(exit),
        dispatcher.started().exits == dispatcher.exits,
        dispatcher.drained().exits == dispatcher.exits,
{
}

} // verus!
