use vstd::prelude::*;

use crate::error::ProvisionError;
use crate::model::{copy_strings, Level};

verus! {

/// Work queued after a bulk delete: remove what depended on the deleted ids.
#[derive(Clone, Debug)]
pub struct CleanupTask {
    pub id: String,
    pub level: Level,
    /// The ids that were asked to be deleted.
    pub ids: Vec<String>,
}

/// Where a remove run stands.
#[derive(Clone, Copy, Debug, PartialEq, Eq, Structural)]
pub enum RemovePhase {
    Deleting,
    Reloading,
    Enqueuing,
    Finished,
}

impl RemovePhase {
    pub open spec fn rank(self) -> nat {
        match self {
            RemovePhase::Deleting => 0,
            RemovePhase::Reloading => 1,
            RemovePhase::Enqueuing => 2,
            RemovePhase::Finished => 3,
        }
    }
}

/// The next outside operation a remove run asks for.
#[derive(Debug)]
pub enum RemoveAction {
    /// Delete, in one batch, every entity of `level` whose id is in `ids`.
    DeleteMany { level: Level, ids: Vec<String> },
    /// Rebuild the whole cache of `level` from the repository.
    ReloadCache(Level),
    /// Queue a cleanup task.
    Enqueue(CleanupTask),
    /// The run is over with this count of deleted entities.
    Finish(Result<u64, ProvisionError>),
}

/// What came back from the operation asked for last.
#[derive(Debug)]
pub enum RemoveEvent {
    Deleted(u64),
    Completed,
    Failed,
}

/// One call of `remove`.
#[derive(Debug)]
pub struct RemoveRun {
    pub level: Level,
    pub ids: Vec<String>,
    /// Id of the cleanup task, should one be queued.
    pub task_id: String,
    pub deleted: u64,
    pub phase: RemovePhase,
}

impl RemoveRun {
    pub open spec fn wf(&self) -> bool {
        &&& self.ids@.len() > 0 || self.phase == RemovePhase::Finished
        &&& (self.phase == RemovePhase::Reloading || self.phase == RemovePhase::Enqueuing
            ==> self.deleted > 0)
    }
}

/// One step of a remove run: from run `s`, on event `e`, to run `t`,
/// asking for `a`.
pub open spec fn remove_step(s: RemoveRun, e: RemoveEvent, t: RemoveRun, a: RemoveAction) -> bool {
    match s.phase {
        RemovePhase::Deleting => match e {
            RemoveEvent::Deleted(k) => if k == 0 {
                t == RemoveRun { phase: RemovePhase::Finished, ..s } && a == RemoveAction::Finish(
                    Ok(0),
                )
            } else {
                t == RemoveRun { phase: RemovePhase::Reloading, deleted: k, ..s } && a
                    == RemoveAction::ReloadCache(s.level)
            },
            _ => t == RemoveRun { phase: RemovePhase::Finished, ..s } && a == RemoveAction::Finish(
                Err(ProvisionError::PersistenceFailure),
            ),
        },
        RemovePhase::Reloading => match e {
            RemoveEvent::Completed => {
                &&& t == RemoveRun { phase: RemovePhase::Enqueuing, ..s }
                &&& a matches RemoveAction::Enqueue(task) && task.id@ == s.task_id@ && task.level
                    == s.level && task.ids@ == s.ids@
            },
            _ => t == RemoveRun { phase: RemovePhase::Finished, ..s } && a == RemoveAction::Finish(
                Err(ProvisionError::CacheSyncFailure),
            ),
        },
        RemovePhase::Enqueuing => match e {
            RemoveEvent::Completed => t == RemoveRun { phase: RemovePhase::Finished, ..s } && a
                == RemoveAction::Finish(Ok(s.deleted)),
            _ => t == RemoveRun { phase: RemovePhase::Finished, ..s } && a == RemoveAction::Finish(
                Err(ProvisionError::CleanupQueueFailure),
            ),
        },
        RemovePhase::Finished => false,
    }
}

impl RemoveRun {
    /// Starts a remove run over `ids`. With no ids the run is over at once,
    /// having deleted nothing and asked for nothing.
    pub fn start(level: Level, ids: Vec<String>, task_id: String) -> (r: (RemoveRun, RemoveAction))
        ensures
            r.0.wf(),
            r.0.level == level,
            r.0.ids == ids,
            r.0.task_id == task_id,
            r.0.deleted == 0,
            ids@.len() == 0 ==> r.0.phase == RemovePhase::Finished && r.1 == RemoveAction::Finish(
                Ok(0),
            ),
            ids@.len() > 0 ==> r.0.phase == RemovePhase::Deleting,
            ids@.len() > 0 ==> (r.1 matches RemoveAction::DeleteMany { level: l, ids: v } && l
                == level && v@ == ids@),
    {
        if ids.len() == 0 {
            (
                RemoveRun { level, ids, task_id, deleted: 0, phase: RemovePhase::Finished },
                RemoveAction::Finish(Ok(0)),
            )
        } else {
            let batch = copy_strings(&ids);
            (
                RemoveRun { level, ids, task_id, deleted: 0, phase: RemovePhase::Deleting },
                RemoveAction::DeleteMany { level, ids: batch },
            )
        }
    }

    /// Takes the result of the last operation and names the next one.
    pub fn step(&mut self, e: RemoveEvent) -> (a: RemoveAction)
        requires
            old(self).wf(),
            old(self).phase != RemovePhase::Finished,
        ensures
            final(self).wf(),
            remove_step(*old(self), e, *final(self), a),
    {
        match self.phase {
            RemovePhase::Deleting => match e {
                RemoveEvent::Deleted(k) => {
                    if k == 0 {
                        self.phase = RemovePhase::Finished;
                        RemoveAction::Finish(Ok(0))
                    } else {
                        self.deleted = k;
                        self.phase = RemovePhase::Reloading;
                        RemoveAction::ReloadCache(self.level)
                    }
                },
                _ => {
                    self.phase = RemovePhase::Finished;
                    RemoveAction::Finish(Err(ProvisionError::PersistenceFailure))
                },
            },
            RemovePhase::Reloading => match e {
                RemoveEvent::Completed => {
                    self.phase = RemovePhase::Enqueuing;
                    RemoveAction::Enqueue(
                        CleanupTask {
                            id: self.task_id.clone(),
                            level: self.level,
                            ids: copy_strings(&self.ids),
                        },
                    )
                },
                _ => {
                    self.phase = RemovePhase::Finished;
                    RemoveAction::Finish(Err(ProvisionError::CacheSyncFailure))
                },
            },
            RemovePhase::Enqueuing => {
                self.phase = RemovePhase::Finished;
                match e {
                    RemoveEvent::Completed => RemoveAction::Finish(Ok(self.deleted)),
                    _ => RemoveAction::Finish(Err(ProvisionError::CleanupQueueFailure)),
                }
            },
            RemovePhase::Finished => RemoveAction::Finish(Ok(0)),
        }
    }
}

/// A delete that matched nothing ends the run with 0: no cache reload, no
/// cleanup task.
pub proof fn lemma_nothing_deleted(s: RemoveRun, t: RemoveRun, a: RemoveAction)
    requires
        s.wf(),
        s.phase == RemovePhase::Deleting,
        remove_step(s, RemoveEvent::Deleted(0), t, a),
    ensures
        a == RemoveAction::Finish(Ok(0)),
        t.phase == RemovePhase::Finished,
{
}

/// A delete that matched `k > 0` rows, followed by successful outside
/// operations, asks for one full reload of the level's cache, then for one
/// cleanup task over exactly the requested ids, and reports `k`.
pub proof fn lemma_deleted_some(
    s0: RemoveRun,
    k: u64,
    s1: RemoveRun,
    a1: RemoveAction,
    s2: RemoveRun,
    a2: RemoveAction,
    s3: RemoveRun,
    a3: RemoveAction,
)
    requires
        s0.wf(),
        s0.phase == RemovePhase::Deleting,
        k > 0,
        remove_step(s0, RemoveEvent::Deleted(k), s1, a1),
        remove_step(s1, RemoveEvent::Completed, s2, a2),
        remove_step(s2, RemoveEvent::Completed, s3, a3),
    ensures
        a1 == RemoveAction::ReloadCache(s0.level),
        a2 matches RemoveAction::Enqueue(task) && task.ids@ == s0.ids@ && task.level == s0.level,
        a3 == RemoveAction::Finish(Ok(k)),
        s3.phase == RemovePhase::Finished,
{
}

/// A remove run asks for a cache reload and for a cleanup task at most once
/// each: only from one phase, which the run then leaves for good.
pub proof fn lemma_single_reload_and_task(s: RemoveRun, e: RemoveEvent, t: RemoveRun, a: RemoveAction)
    requires
        s.wf(),
        s.phase != RemovePhase::Finished,
        remove_step(s, e, t, a),
    ensures
        a is ReloadCache ==> s.phase == RemovePhase::Deleting && t.phase
            == RemovePhase::Reloading,
        a is Enqueue ==> s.phase == RemovePhase::Reloading && t.phase == RemovePhase::Enqueuing,
        a is ReloadCache ==> t.deleted > 0,
        t.phase.rank() > s.phase.rank(),
{
}

} // verus!
