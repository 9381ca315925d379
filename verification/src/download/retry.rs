//! The attempts at one file: a failed attempt disables its mirror for this
//! file, and the fifth failure is final.

use vstd::prelude::*;
use crate::download::mirror::{
    canonical_origin,
    is_mirrored,
    listed,
    rewritten,
    Mirror,
    MirrorPool,
    MirrorUsage,
};
use crate::download::model::{DownloadTask, DownloadType};
use crate::text::{lemma_views_push, views};

verus! {

/// How many attempts one file gets.
pub open spec fn max_attempts() -> u32 {
    5
}

/// What has been tried for one file so far.
#[derive(Debug)]
pub struct Attempts {
    /// How many attempts have been started.
    pub tried: u32,
    /// The mirrors that have failed for this file.
    pub disabled_mirrors: Vec<String>,
}

/// How to go on after an attempt.
#[derive(Clone, Copy, Debug, PartialEq, Eq, Structural)]
pub enum AfterAttempt {
    /// The file is there.
    Done,
    /// Another attempt is due.
    Retry,
    /// The last attempt has failed: the error of this attempt is the
    /// outcome of the file.
    GiveUp,
}

impl Attempts {
    /// Nothing has been tried.
    pub fn new() -> (r: Attempts)
        ensures
            r.tried == 0,
            r.disabled_mirrors@.len() == 0,
    {
        Attempts { tried: 0, disabled_mirrors: Vec::new() }
    }

    /// Starts the next attempt: the task goes to the least loaded mirror of
    /// its kind that has not failed for it, or keeps its own URL where none
    /// is left or its kind has no mirrors.
    pub fn begin(&mut self, task: &DownloadTask, mirror_usage: &mut MirrorUsage) -> (r: (
        DownloadTask,
        Option<Mirror>,
    ))
        ensures
            final(self).tried == (if old(self).tried < u32::MAX {
                (old(self).tried + 1) as u32
            } else {
                u32::MAX
            }),
            final(self).disabled_mirrors == old(self).disabled_mirrors,
            r.0 == (DownloadTask { url: r.0.url, ..*task }),
            match r.1 {
                Some(mirror) => {
                    let pool = old(mirror_usage).pool(task.kind);
                    &&& is_mirrored(task.kind)
                    &&& pool.least_loaded(
                        views(old(self).disabled_mirrors@),
                        mirror.index as int,
                    )
                    &&& mirror.url@ == pool.mirrors@[mirror.index as int].url@
                    &&& !listed(views(old(self).disabled_mirrors@), mirror.url@)
                    &&& r.0.url@ == rewritten(task.url@, canonical_origin(task.kind), mirror.url@)
                    &&& final(mirror_usage).pool(task.kind).urls() == pool.urls()
                    &&& final(mirror_usage).pool(task.kind).loads() == pool.loads_after_acquire(
                        mirror.index as int,
                    )
                    &&& task.kind == DownloadType::Libraries ==> final(mirror_usage).assets
                        == old(mirror_usage).assets
                    &&& task.kind == DownloadType::Assets ==> final(mirror_usage).libraries
                        == old(mirror_usage).libraries
                },
                None => {
                    &&& r.0.url == task.url
                    &&& *final(mirror_usage) == *old(mirror_usage)
                    &&& is_mirrored(task.kind) ==> forall|j: int|
                        !old(mirror_usage).pool(task.kind).eligible(
                            views(old(self).disabled_mirrors@),
                            j,
                        )
                },
            },
    {
        if self.tried < u32::MAX {
            self.tried = self.tried + 1;
        }
        let copy = task.clone();
        match copy.assignment_mirror(mirror_usage, &self.disabled_mirrors) {
            Some((assigned, mirror)) => (assigned, Some(mirror)),
            None => (task.clone(), None),
        }
    }

    /// Ends an attempt. The mirror, if one served it, counts one transfer
    /// less. After a success the file is done. After a failure the mirror is
    /// disabled for this file, and another attempt is due unless five have
    /// been made.
    pub fn finish(
        &mut self,
        kind: DownloadType,
        mirror_usage: &mut MirrorUsage,
        mirror: Option<Mirror>,
        succeeded: bool,
    ) -> (r: AfterAttempt)
        ensures
            final(self).tried == old(self).tried,
            r == (if succeeded {
                AfterAttempt::Done
            } else if old(self).tried >= max_attempts() {
                AfterAttempt::GiveUp
            } else {
                AfterAttempt::Retry
            }),
            views(final(self).disabled_mirrors@) == (match mirror {
                Some(m) => if succeeded {
                    views(old(self).disabled_mirrors@)
                } else {
                    views(old(self).disabled_mirrors@).push(m.url@)
                },
                None => views(old(self).disabled_mirrors@),
            }),
            match mirror {
                Some(m) => if is_mirrored(kind) {
                    let pool = old(mirror_usage).pool(kind);
                    &&& final(mirror_usage).pool(kind).urls() == pool.urls()
                    &&& final(mirror_usage).pool(kind).loads() == pool.loads_after_release(
                        m.index as int,
                    )
                    &&& kind == DownloadType::Libraries ==> final(mirror_usage).assets == old(
                        mirror_usage,
                    ).assets
                    &&& kind == DownloadType::Assets ==> final(mirror_usage).libraries == old(
                        mirror_usage,
                    ).libraries
                } else {
                    *final(mirror_usage) == *old(mirror_usage)
                },
                None => *final(mirror_usage) == *old(mirror_usage),
            },
    {
        match mirror {
            Some(m) => {
                mirror_usage.release(kind, &m);
                if !succeeded {
                    proof {
                        lemma_views_push(self.disabled_mirrors@, m.url);
                    }
                    self.disabled_mirrors.push(m.url);
                }
            },
            None => {},
        }
        if succeeded {
            AfterAttempt::Done
        } else if self.tried >= 5 {
            AfterAttempt::GiveUp
        } else {
            AfterAttempt::Retry
        }
    }
}

/// An attempt that a mirror served leaves every counter as it was: the
/// transfer that was counted at the start is taken off at the end. `before`
/// is a pool at the start of the attempt and `index` the mirror that was
/// picked from it, whose counter has room for one more.
pub proof fn lemma_attempt_restores_counters(before: MirrorPool, during: MirrorPool, after: MirrorPool, index: int)
    requires
        0 <= index < before.mirrors@.len(),
        before.mirrors@[index].in_flight < u64::MAX,
        during.urls() == before.urls(),
        during.loads() == before.loads_after_acquire(index),
        after.urls() == during.urls(),
        after.loads() == during.loads_after_release(index),
    ensures
        after.urls() == before.urls(),
        after.loads() == before.loads(),
{
    assert(during.loads().len() == during.mirrors@.len());
    assert(before.loads().len() == before.mirrors@.len());
    assert(before.loads_after_acquire(index).len() == before.loads().len());
    assert(during.mirrors@.len() == before.mirrors@.len());
    assert(during.loads()[index] == during.mirrors@[index].in_flight);
    assert(before.loads()[index] == before.mirrors@[index].in_flight);
    assert(after.loads() =~= before.loads());
}

/// A mirror that has failed for a file is not picked for it again.
pub proof fn lemma_failed_mirror_is_skipped(
    usage: MirrorUsage,
    kind: DownloadType,
    disabled: Seq<Seq<char>>,
    failed: Seq<char>,
    next: int,
)
    requires
        usage.pool(kind).least_loaded(disabled.push(failed), next),
    ensures
        usage.pool(kind).mirrors@[next].url@ != failed,
{
    let list = disabled.push(failed);
    assert(list[list.len() - 1] == failed);
}

} // verus!
