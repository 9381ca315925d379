//! The progress of a run of the download engine.

use vstd::prelude::*;

verus! {

/// The phases of a bulk download.
#[derive(Clone, Copy, Debug, PartialEq, Eq, Structural)]
pub enum Step {
    VerifyExistingFiles,
    DownloadFiles,
}

/// The jobs of an install that progress is reported for.
#[derive(Clone, Copy, Debug, PartialEq, Eq, Structural)]
pub enum Task {
    Chore,
    PrepareInstallGame,
    DownloadFiles,
    VerifyExistingFiles,
    InstallJava,
    InstallModLoader,
}

/// How far a run has come. Callers take a snapshot whenever they like.
#[derive(Clone, Copy, Debug, PartialEq, Eq, Structural)]
pub struct Progress {
    pub completed: u64,
    pub total: u64,
    pub step: Step,
    /// The bytes received within the rolling window.
    pub speed: u64,
}

/// The report that a step of an install has failed.
#[derive(Clone, Copy, Debug, PartialEq, Eq, Structural)]
pub struct ProgressError {
    pub step: usize,
}

/// `n` plus `by`, stopping at the largest number.
pub open spec fn capped_sum(n: u64, by: u64) -> u64 {
    if n as int + by as int > u64::MAX {
        u64::MAX
    } else {
        (n + by) as u64
    }
}

impl Default for Progress {
    fn default() -> (r: Progress)
        ensures
            r == (Progress { completed: 0, total: 0, step: Step::DownloadFiles, speed: 0 }),
    {
        Progress { completed: 0, total: 0, step: Step::DownloadFiles, speed: 0 }
    }
}

impl Progress {
    /// The progress of a run that has not started.
    pub fn new() -> (r: Progress)
        ensures
            r == (Progress { completed: 0, total: 0, step: Step::DownloadFiles, speed: 0 }),
    {
        Progress { completed: 0, total: 0, step: Step::DownloadFiles, speed: 0 }
    }

    /// Sets the three counters back to zero; the step stays.
    pub fn reset(&mut self)
        ensures
            *final(self) == (Progress { completed: 0, total: 0, speed: 0, step: old(self).step }),
    {
        self.completed = 0;
        self.total = 0;
        self.speed = 0;
    }

    /// The snapshot to hand to whoever listens.
    pub fn send(&self) -> (r: Progress)
        ensures
            r == *self,
    {
        *self
    }

    /// Enters the phase that checks the files already on disk: the total
    /// stays at zero while it lasts.
    pub fn begin_verification(&mut self)
        ensures
            *final(self) == (Progress {
                step: Step::VerifyExistingFiles,
                total: 0,
                ..*old(self)
            }),
    {
        self.step = Step::VerifyExistingFiles;
        self.total = 0;
    }

    /// Enters the phase that fetches `count` files.
    pub fn begin_download(&mut self, count: u64)
        ensures
            *final(self) == (Progress {
                step: Step::DownloadFiles,
                completed: 0,
                total: count,
                ..*old(self)
            }),
    {
        self.completed = 0;
        self.total = count;
        self.step = Step::DownloadFiles;
    }

    /// Counts `amount` more: files in a bulk run, bytes in the download of
    /// a single file.
    pub fn advance(&mut self, amount: u64)
        ensures
            *final(self) == (Progress {
                completed: capped_sum(old(self).completed, amount),
                ..*old(self)
            }),
    {
        self.completed = if self.completed > u64::MAX - amount {
            u64::MAX
        } else {
            self.completed + amount
        };
    }

    /// Starts the download of a single file: the counters are reset, and
    /// the total is the length that the server announces, if it does.
    pub fn begin_single(&mut self, content_length: Option<u64>)
        ensures
            *final(self) == (Progress {
                completed: 0,
                speed: 0,
                total: match content_length {
                    Some(length) => length,
                    None => 0,
                },
                step: old(self).step,
            }),
    {
        self.reset();
        if let Some(length) = content_length {
            self.total = length;
        }
    }

    /// Ends the download of a single file: all of it counts as completed.
    pub fn finish_single(&mut self)
        ensures
            *final(self) == (Progress { completed: old(self).total, ..*old(self) }),
    {
        self.completed = self.total;
    }

    /// Takes over the speed that the sampler has measured.
    pub fn set_speed(&mut self, speed: u64)
        ensures
            *final(self) == (Progress { speed, ..*old(self) }),
    {
        self.speed = speed;
    }
}

impl ProgressError {
    /// The report to hand to whoever listens.
    pub fn send(step: usize) -> (r: ProgressError)
        ensures
            r.step == step,
    {
        ProgressError { step }
    }
}

} // verus!
