//! What a bulk download does before the first transfer starts.

use vstd::prelude::*;
use crate::download::model::{
    classified,
    filter_existing_and_verified_files,
    kept,
    DownloadTask,
    DownloadType,
};
use crate::download::task::{Progress, Step};
use crate::error::Error;
use crate::outside::url_host;

verus! {

/// Every task is classified: its kind is known, or its URL can be parsed.
pub open spec fn all_classifiable(tasks: Seq<DownloadTask>) -> bool {
    forall|i: int|
        0 <= i < tasks.len() ==> (#[trigger] tasks[i]).kind != DownloadType::Unknown || url_host(
            tasks[i].url@,
        ) is Some
}

/// A task after classification by the host of its own URL.
pub open spec fn classified_by_url(task: DownloadTask) -> DownloadTask {
    if task.kind != DownloadType::Unknown {
        task
    } else {
        match url_host(task.url@) {
            Some(host) => classified(task, host),
            None => task,
        }
    }
}

/// The tasks of a bulk download that are left to fetch, each with its kind
/// settled, and the progress at the start of the transfers: the step is
/// the download, nothing is completed, and the total is the number of
/// tasks that are left.
///
/// `needed` tells for each task whether its file has to be fetched; a task
/// without a flag is fetched. Fails
/// where a task that is left has an unknown kind and a URL that cannot be
/// parsed.
pub fn plan_downloads(tasks: &Vec<DownloadTask>, needed: &Vec<bool>, progress: &mut Progress) -> (r:
    Result<Vec<DownloadTask>, Error>)
    ensures
        match r {
            Ok(planned) => {
                let left = kept(tasks@, needed@);
                &&& all_classifiable(left)
                &&& planned@.len() == left.len()
                &&& forall|i: int|
                    0 <= i < left.len() ==> (#[trigger] planned@[i]) == classified_by_url(left[i])
                &&& *final(progress) == (Progress {
                    step: Step::DownloadFiles,
                    completed: 0,
                    total: left.len() as u64,
                    ..*old(progress)
                })
            },
            Err(e) => e is UrlParse && !all_classifiable(kept(tasks@, needed@)) && *final(progress)
                == *old(progress),
        },
{
    let left = filter_existing_and_verified_files(tasks, needed);
    let mut planned: Vec<DownloadTask> = Vec::new();
    let mut i: usize = 0;
    while i < left.len()
        invariant
            i <= left.len(),
            left@ == kept(tasks@, needed@),
            planned@.len() == i,
            *progress == *old(progress),
            forall|j: int|
                0 <= j < i ==> (#[trigger] left@[j]).kind != DownloadType::Unknown || url_host(
                    left@[j].url@,
                ) is Some,
            forall|j: int| 0 <= j < i ==> (#[trigger] planned@[j]) == classified_by_url(left@[j]),
        decreases left.len() - i,
    {
        match left[i].classify() {
            Ok(task) => {
                planned.push(task);
            },
            Err(e) => {
                proof {
                    let bad = left@[i as int];
                    assert(!(bad.kind != DownloadType::Unknown || url_host(bad.url@) is Some));
                }
                return Err(e);
            },
        }
        i += 1;
    }
    progress.begin_download(planned.len() as u64);
    Ok(planned)
}

} // verus!
