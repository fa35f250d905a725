//! The orchestrator's decisions: how many workers are spawned, when the
//! module goes out, the order of joins, and how the run ends.

use vstd::prelude::*;

verus! {

/// How joining one worker went.
#[derive(Clone, Copy, Debug, PartialEq, Eq, Structural)]
pub enum JoinOutcome {
    Succeeded,
    /// The worker returned an error.
    Failed,
    /// The worker's thread panicked.
    Panicked,
}

#[derive(Clone, Copy, Debug, PartialEq, Eq, Structural)]
pub enum RunError {
    /// No worker was alive to receive the module.
    NoWorkers,
    /// Worker `i` returned an error.
    WorkerFailed(usize),
    /// Worker `i`'s thread panicked.
    WorkerPanicked(usize),
}

/// The state of one run.
#[derive(Clone, Copy, Debug, PartialEq, Eq, Structural)]
pub struct Orchestrator {
    /// The replica count.
    pub requested: usize,
    /// Workers `0..spawned` are running.
    pub spawned: usize,
    /// A spawn failed, or the module went out: no more spawns.
    pub spawning_stopped: bool,
    pub published: bool,
    /// Workers `0..joined` have been joined.
    pub joined: usize,
    pub first_error: Option<RunError>,
}

pub open spec fn wf(o: Orchestrator) -> bool {
    &&& o.spawned <= o.requested
    &&& o.joined <= o.spawned
    &&& o.published ==> o.spawning_stopped && o.spawned > 0
    &&& !o.published ==> o.joined == 0 && o.first_error is None
}

pub open spec fn spec_next_spawn(o: Orchestrator) -> Option<usize> {
    if !o.spawning_stopped && o.spawned < o.requested {
        Some(o.spawned)
    } else {
        None
    }
}

pub open spec fn spec_next_join(o: Orchestrator) -> Option<usize> {
    if o.published && o.joined < o.spawned {
        Some(o.joined)
    } else {
        None
    }
}

/// The error of a join outcome of worker `i`.
pub open spec fn outcome_error(i: usize, r: JoinOutcome) -> Option<RunError> {
    match r {
        JoinOutcome::Succeeded => None,
        JoinOutcome::Failed => Some(RunError::WorkerFailed(i)),
        JoinOutcome::Panicked => Some(RunError::WorkerPanicked(i)),
    }
}

impl Orchestrator {
    /// A run of `requested` replicas, before any spawn.
    pub fn new(requested: usize) -> (r: Orchestrator)
        ensures
            wf(r),
            r == (Orchestrator {
                requested,
                spawned: 0,
                spawning_stopped: false,
                published: false,
                joined: 0,
                first_error: None,
            }),
    {
        Orchestrator {
            requested,
            spawned: 0,
            spawning_stopped: false,
            published: false,
            joined: 0,
            first_error: None,
        }
    }

    /// The index of the worker to spawn next, if any: spawning goes by
    /// index and stops at the first failure.
    pub fn next_spawn(&self) -> (r: Option<usize>)
        ensures
            r == spec_next_spawn(*self),
    {
        if !self.spawning_stopped && self.spawned < self.requested {
            Some(self.spawned)
        } else {
            None
        }
    }

    /// Records whether spawning the worker that `next_spawn` named worked.
    pub fn record_spawn(&mut self, ok: bool)
        requires
            wf(*old(self)),
            spec_next_spawn(*old(self)) is Some,
        ensures
            wf(*final(self)),
            *final(self) == (if ok {
                Orchestrator { spawned: (old(self).spawned + 1) as usize, ..*old(self) }
            } else {
                Orchestrator { spawning_stopped: true, ..*old(self) }
            }),
    {
        if ok {
            self.spawned = self.spawned + 1;
        } else {
            self.spawning_stopped = true;
        }
    }

    /// Sends the module out, once all spawns are done; fails where no
    /// worker is alive to take it.
    pub fn publish(&mut self) -> (r: Result<usize, RunError>)
        requires
            wf(*old(self)),
            !old(self).published,
        ensures
            wf(*final(self)),
            old(self).spawned == 0 ==> r == Err::<usize, RunError>(RunError::NoWorkers)
                && *final(self) == *old(self),
            old(self).spawned > 0 ==> r == Ok::<usize, RunError>(old(self).spawned),
            old(self).spawned > 0 ==> *final(self) == (Orchestrator {
                published: true,
                spawning_stopped: true,
                ..*old(self)
            }),
    {
        if self.spawned == 0 {
            return Err(RunError::NoWorkers);
        }
        self.published = true;
        self.spawning_stopped = true;
        Ok(self.spawned)
    }

    /// The index of the worker to join next, if any: joins go by index,
    /// after publication.
    pub fn next_join(&self) -> (r: Option<usize>)
        ensures
            r == spec_next_join(*self),
    {
        if self.published && self.joined < self.spawned {
            Some(self.joined)
        } else {
            None
        }
    }

    /// Records how joining the worker that `next_join` named went; the
    /// first error is kept.
    pub fn record_join(&mut self, r: JoinOutcome)
        requires
            wf(*old(self)),
            spec_next_join(*old(self)) is Some,
        ensures
            wf(*final(self)),
            *final(self) == (Orchestrator {
                joined: (old(self).joined + 1) as usize,
                first_error: if old(self).first_error is Some {
                    old(self).first_error
                } else {
                    outcome_error(old(self).joined, r)
                },
                ..*old(self)
            }),
    {
        let i = self.joined;
        self.joined = i + 1;
        if self.first_error.is_none() {
            self.first_error = match r {
                JoinOutcome::Succeeded => None,
                JoinOutcome::Failed => Some(RunError::WorkerFailed(i)),
                JoinOutcome::Panicked => Some(RunError::WorkerPanicked(i)),
            };
        }
    }

    /// How the run ended: `None` while workers remain to be joined, then
    /// the first error, or success.
    pub fn outcome(&self) -> (r: Option<Result<(), RunError>>)
        ensures
            r == (if self.published && self.joined == self.spawned {
                Some(
                    match self.first_error {
                        Some(e) => Err(e),
                        None => Ok(()),
                    },
                )
            } else {
                None::<Result<(), RunError>>
            }),
    {
        if self.published && self.joined == self.spawned {
            Some(
                match self.first_error {
                    Some(e) => Err(e),
                    None => Ok(()),
                },
            )
        } else {
            None
        }
    }
}

/// Spawning stops at the first failure: where spawns `0..k` worked and
/// spawn `k` failed, exactly workers `0..k` run and none is spawned after.
pub proof fn lemma_spawn_failure_stops(o: Orchestrator, k: usize)
    requires
        wf(o),
        spec_next_spawn(o) == Some(k),
    ensures
        ({
            let o2 = Orchestrator { spawning_stopped: true, ..o };
            wf(o2) && o2.spawned == k && spec_next_spawn(o2) is None
        }),
{
}

} // verus!
