//! The pool of connection supervisors: one per connection, started
//! together and waited for after shutdown.

use crate::bot::shard::{ShardStatus, Supervisor, SupervisorView};
use crate::id::ShardId;
use crate::kernel::Kernel;
use crate::text::{decimal, push_decimal};
use vstd::prelude::*;
use vstd::string::*;

verus! {

/// The supervisors of all connections, counted.
#[derive(Debug)]
pub struct Pool {
    total: usize,
    running: usize,
}

/// What a `Pool` stands for.
pub struct PoolView {
    /// Number of supervisors that were started.
    pub total: nat,
    /// Number of supervisors that have not finished.
    pub running: nat,
}

impl PoolView {
    /// Number of supervisors that have finished.
    pub open spec fn finished(self) -> nat {
        (self.total - self.running) as nat
    }

    /// The line that reports how far the wait has come.
    pub open spec fn progress(self) -> Seq<char> {
        "Waiting for "@ + decimal(self.finished()) + "/"@ + decimal(self.total)
            + " shards(s) to finish"@
    }
}

impl View for Pool {
    type V = PoolView;

    closed spec fn view(&self) -> PoolView {
        PoolView { total: self.total as nat, running: self.running as nat }
    }
}

/// What the pool does next while it waits for its supervisors.
#[derive(Debug, Clone, Copy, PartialEq, Eq)]
pub enum Wait {
    /// The shutdown signal is not set: keep waiting for it.
    ForShutdown,
    /// Log the progress and wait for the next supervisor to finish.
    ForSupervisor,
    /// Log the progress and return: no supervisor is left.
    Over,
}

/// The supervisor that a connection starts with: it runs, and no handler
/// is at work.
pub open spec fn new_supervisor(shard_id: ShardId) -> SupervisorView {
    SupervisorView { shard_id, status: ShardStatus::Running, handlers: 0, tearing_down: false }
}

/// Starts the pool: one supervisor for each of the connections `shards`,
/// in their order, all of them running.
pub fn start(shards: &Vec<ShardId>) -> (started: (Pool, Vec<Supervisor>))
    ensures
        started.0@ == (PoolView { total: shards@.len(), running: shards@.len() }),
        started.1@.len() == shards@.len(),
        forall|i: int|
            0 <= i < shards@.len() ==> (#[trigger] started.1@[i])@ == new_supervisor(shards@[i]),
{
    let mut supervisors: Vec<Supervisor> = Vec::new();
    let mut at: usize = 0;
    while at < shards.len()
        invariant
            at <= shards.len(),
            supervisors@.len() == at,
            forall|i: int|
                0 <= i < at ==> (#[trigger] supervisors@[i])@ == new_supervisor(shards@[i]),
        decreases shards.len() - at,
    {
        supervisors.push(Supervisor::new(shards[at]));
        at += 1;
    }
    (Pool { total: shards.len(), running: shards.len() }, supervisors)
}

impl Pool {
    #[verifier::type_invariant]
    spec fn counted(self) -> bool {
        self.running <= self.total
    }

    /// Number of supervisors that were started.
    pub fn total_shards(&self) -> (total: usize)
        ensures
            total == self@.total,
    {
        self.total
    }

    /// Number of supervisors that have not finished.
    pub fn running_shards(&self) -> (running: usize)
        ensures
            running == self@.running,
            running <= self@.total,
    {
        proof {
            use_type_invariant(self);
        }
        self.running
    }

    /// Number of supervisors that have finished.
    pub fn finished_shards(&self) -> (finished: usize)
        ensures
            finished == self@.finished(),
            finished + self@.running == self@.total,
    {
        proof {
            use_type_invariant(self);
        }
        self.total - self.running
    }

    /// The line that reports how far the wait has come: how many of the
    /// supervisors have finished.
    pub fn progress_line(&self) -> (line: String)
        ensures
            line@ == self@.progress(),
    {
        let mut line = "Waiting for ".to_owned();
        push_decimal(&mut line, self.finished_shards() as u64);
        line.append("/");
        push_decimal(&mut line, self.total as u64);
        line.append(" shards(s) to finish");
        line
    }

    /// What the pool does next. It waits for the shutdown signal first, and
    /// then for its supervisors, one by one and for as long as it takes,
    /// until none is left.
    pub fn wait(&self, kernel: &Kernel) -> (wait: Wait)
        ensures
            wait == if !kernel@.is_shutdown() {
                Wait::ForShutdown
            } else if self@.running > 0 {
                Wait::ForSupervisor
            } else {
                Wait::Over
            },
    {
        if !kernel.is_shutdown() {
            Wait::ForShutdown
        } else if self.running > 0 {
            Wait::ForSupervisor
        } else {
            Wait::Over
        }
    }

    /// Takes the next supervisor that has finished out of the pool, if one
    /// is left, and says whether one was.
    pub fn join_next(&mut self) -> (joined: bool)
        ensures
            joined == (old(self)@.running > 0),
            final(self)@ == if joined {
                PoolView { running: (old(self)@.running - 1) as nat, ..old(self)@ }
            } else {
                old(self)@
            },
    {
        proof {
            use_type_invariant(&*self);
        }
        if self.running > 0 {
            self.running = self.running - 1;
            true
        } else {
            false
        }
    }
}

} // verus!
