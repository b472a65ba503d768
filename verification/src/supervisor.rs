//! The supervisor: one worker per enabled server entry, a single
//! shutdown path, and no restarts at this level.
//!
//! Task count is fixed at startup from the configuration.  Workers are
//! fully independent; the supervisor only spawns them, reaps the ones
//! that terminate on their own (a fatal setup error — logged, never
//! respawned), and tears all of them down on the interrupt signal.

use vstd::prelude::*;

use crate::config::Config;
use crate::config::ServerConfig;
use crate::worker::Error;

verus! {

/// The enabled entries of `servers`, in configuration order.
pub open spec fn spec_enabled(servers: Seq<ServerConfig>) -> Seq<ServerConfig>
    decreases servers.len(),
{
    if servers.len() == 0 {
        Seq::empty()
    } else if servers.last().enabled {
        spec_enabled(servers.drop_last()).push(servers.last())
    } else {
        spec_enabled(servers.drop_last())
    }
}

/// How many entries of `servers` are enabled.
pub open spec fn spec_enabled_count(servers: Seq<ServerConfig>) -> nat
    decreases servers.len(),
{
    if servers.len() == 0 {
        0
    } else {
        spec_enabled_count(servers.drop_last()) + if servers.last().enabled {
            1nat
        } else {
            0nat
        }
    }
}

/// A set of entries with k enabled members plans exactly k workers.
pub proof fn lemma_one_worker_per_enabled_entry(servers: Seq<ServerConfig>)
    ensures
        spec_enabled(servers).len() == spec_enabled_count(servers),
    decreases servers.len(),
{
    if servers.len() > 0 {
        lemma_one_worker_per_enabled_entry(servers.drop_last());
    }
}

/// The workers to start: the enabled entries, in configuration order.
pub fn plan_workers(config: &Config) -> (plan: Vec<ServerConfig>)
    ensures
        plan@ == spec_enabled(config.servers@),
{
    let mut plan: Vec<ServerConfig> = Vec::new();
    let mut k: usize = 0;
    proof {
        assert(config.servers@.take(0) =~= Seq::<ServerConfig>::empty());
    }
    while k < config.servers.len()
        invariant
            k <= config.servers@.len(),
            plan@ == spec_enabled(config.servers@.take(k as int)),
        decreases config.servers@.len() - k,
    {
        if config.servers[k].enabled {
            plan.push(config.servers[k].duplicate());
        }
        k = k + 1;
        proof {
            assert(config.servers@.take(k as int).drop_last() =~= config.servers@.take(
                k as int - 1,
            ));
            assert(config.servers@.take(k as int).last() == config.servers@[k as int - 1]);
        }
    }
    proof {
        assert(config.servers@.take(config.servers@.len() as int) =~= config.servers@);
    }
    plan
}

/// How a worker's lifetime ended, as the supervisor records it: a worker
/// finishes normally only when cancelled; anything else is a fatal setup
/// error that is logged and never retried at this level.
#[derive(Clone, Debug)]
pub enum WorkerOutcome {
    /// Cooperative cancellation — the only normal termination.
    Cancelled,
    /// Unrecoverable misconfiguration found before any session opened.
    Fatal(Error),
}

/// The supervisor's record of one spawned worker task.
#[derive(Clone, Debug)]
pub struct WorkerHandle {
    /// The entry this worker serves.
    pub config: ServerConfig,
    /// The worker task has neither exited nor been aborted.
    pub running: bool,
    /// The worker's session handle has been shut down (or dropped with
    /// equivalent effect).
    pub session_shut_down: bool,
}

/// How many of the workers still hold a live session handle.
pub open spec fn spec_live_handles(workers: Seq<WorkerHandle>) -> nat
    decreases workers.len(),
{
    if workers.len() == 0 {
        0
    } else {
        spec_live_handles(workers.drop_last()) + if workers.last().session_shut_down {
            0nat
        } else {
            1nat
        }
    }
}

/// Once every worker's session handle is shut down, no live handle is
/// left behind.
pub proof fn lemma_no_live_handle_leaks(workers: Seq<WorkerHandle>)
    requires
        forall|i: int| 0 <= i < workers.len() ==> (#[trigger] workers[i]).session_shut_down,
    ensures
        spec_live_handles(workers) == 0,
    decreases workers.len(),
{
    if workers.len() > 0 {
        lemma_no_live_handle_leaks(workers.drop_last());
    }
}

/// Owner of the worker tasks and of the single shutdown path.
#[derive(Clone, Debug)]
pub struct Supervisor {
    pub workers: Vec<WorkerHandle>,
}

impl Supervisor {
    /// The spawn plan realized: exactly one running worker per enabled
    /// entry, in configuration order, each with a live session handle.
    pub fn new(config: &Config) -> (s: Self)
        ensures
            s.workers@.len() == spec_enabled(config.servers@).len(),
            s.workers@.len() == spec_enabled_count(config.servers@),
            forall|i: int|
                0 <= i < s.workers@.len() ==> {
                    &&& (#[trigger] s.workers@[i]).config == spec_enabled(config.servers@)[i]
                    &&& s.workers@[i].running
                    &&& !s.workers@[i].session_shut_down
                },
    {
        proof {
            lemma_one_worker_per_enabled_entry(config.servers@);
        }
        let plan = plan_workers(config);
        let mut workers: Vec<WorkerHandle> = Vec::new();
        let mut k: usize = 0;
        while k < plan.len()
            invariant
                k <= plan@.len(),
                workers@.len() == k,
                forall|i: int|
                    0 <= i < k ==> {
                        &&& (#[trigger] workers@[i]).config == plan@[i]
                        &&& workers@[i].running
                        &&& !workers@[i].session_shut_down
                    },
            decreases plan@.len() - k,
        {
            workers.push(
                WorkerHandle {
                    config: plan[k].duplicate(),
                    running: true,
                    session_shut_down: false,
                },
            );
            k = k + 1;
        }
        Supervisor { workers }
    }

    /// How many worker tasks are still running.
    pub fn running_count(&self) -> (n: usize)
        ensures
            n == spec_running_count(self.workers@),
    {
        let mut n: usize = 0;
        let mut k: usize = 0;
        proof {
            assert(self.workers@.take(0) =~= Seq::<WorkerHandle>::empty());
        }
        while k < self.workers.len()
            invariant
                k <= self.workers@.len(),
                n <= k,
                n == spec_running_count(self.workers@.take(k as int)),
            decreases self.workers@.len() - k,
        {
            if self.workers[k].running {
                n = n + 1;
            }
            k = k + 1;
            proof {
                assert(self.workers@.take(k as int).drop_last() =~= self.workers@.take(
                    k as int - 1,
                ));
                assert(self.workers@.take(k as int).last() == self.workers@[k as int - 1]);
            }
        }
        proof {
            assert(self.workers@.take(self.workers@.len() as int) =~= self.workers@);
        }
        n
    }

    /// How many workers still hold a live session handle.
    pub fn live_handles(&self) -> (n: usize)
        ensures
            n == spec_live_handles(self.workers@),
    {
        let mut n: usize = 0;
        let mut k: usize = 0;
        proof {
            assert(self.workers@.take(0) =~= Seq::<WorkerHandle>::empty());
        }
        while k < self.workers.len()
            invariant
                k <= self.workers@.len(),
                n <= k,
                n == spec_live_handles(self.workers@.take(k as int)),
            decreases self.workers@.len() - k,
        {
            if !self.workers[k].session_shut_down {
                n = n + 1;
            }
            k = k + 1;
            proof {
                assert(self.workers@.take(k as int).drop_last() =~= self.workers@.take(
                    k as int - 1,
                ));
                assert(self.workers@.take(k as int).last() == self.workers@[k as int - 1]);
            }
        }
        proof {
            assert(self.workers@.take(self.workers@.len() as int) =~= self.workers@);
        }
        n
    }

    /// The interrupt path: cancel every outstanding worker and shut every
    /// session handle down.  This is the only normal termination path of
    /// the whole process, and it leaks no live handle.
    pub fn cancel_all(&mut self)
        ensures
            final(self).workers@.len() == old(self).workers@.len(),
            forall|i: int|
                0 <= i < old(self).workers@.len() ==> {
                    &&& !(#[trigger] final(self).workers@[i]).running
                    &&& final(self).workers@[i].session_shut_down
                    &&& final(self).workers@[i].config == old(self).workers@[i].config
                },
            spec_live_handles(final(self).workers@) == 0,
    {
        let mut done: Vec<WorkerHandle> = Vec::new();
        let mut k: usize = 0;
        while k < self.workers.len()
            invariant
                self.workers@ == old(self).workers@,
                k <= self.workers@.len(),
                done@.len() == k,
                forall|i: int|
                    0 <= i < k ==> {
                        &&& !(#[trigger] done@[i]).running
                        &&& done@[i].session_shut_down
                        &&& done@[i].config == self.workers@[i].config
                    },
            decreases self.workers@.len() - k,
        {
            done.push(
                WorkerHandle {
                    config: self.workers[k].config.duplicate(),
                    running: false,
                    session_shut_down: true,
                },
            );
            k = k + 1;
        }
        self.workers = done;
        proof {
            lemma_no_live_handle_leaks(self.workers@);
        }
    }

    /// A worker task terminated on its own.  The supervisor records it
    /// and logs the outcome; it never respawns the worker — session-level
    /// retries live inside the worker, and supervisor-level termination
    /// is reserved for fatal setup errors.  Every other worker is left
    /// untouched.
    pub fn on_worker_exit(&mut self, k: usize, outcome: &WorkerOutcome)
        requires
            k < old(self).workers@.len(),
        ensures
            final(self).workers@.len() == old(self).workers@.len(),
            !final(self).workers@[k as int].running,
            final(self).workers@[k as int].session_shut_down,
            final(self).workers@[k as int].config == old(self).workers@[k as int].config,
            forall|i: int|
                0 <= i < old(self).workers@.len() && i != k ==> #[trigger] final(self).workers@[i]
                    == old(self).workers@[i],
    {
        let record = WorkerHandle {
            config: self.workers[k].config.duplicate(),
            running: false,
            session_shut_down: true,
        };
        self.workers.set(k, record);
    }
}

/// How many of the workers' tasks are still running.
pub open spec fn spec_running_count(workers: Seq<WorkerHandle>) -> nat
    decreases workers.len(),
{
    if workers.len() == 0 {
        0
    } else {
        spec_running_count(workers.drop_last()) + if workers.last().running {
            1nat
        } else {
            0nat
        }
    }
}

} // verus!
