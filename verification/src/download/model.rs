//! Download tasks and their checksums.

use vstd::prelude::*;
use crate::error::Error;
use crate::outside::{
    parse_url_host,
    sha1_hex,
    sha1_hex_digest,
    sha256_hex,
    sha256_hex_digest,
    url_error_text,
    url_host,
};
use crate::text::{lower_seq, str_eq, to_ascii_lowercase};

verus! {

/// What kind of file a task fetches. The kind decides which mirrors may
/// serve it.
#[derive(Clone, Copy, Debug, PartialEq, Eq, Structural)]
pub enum DownloadType {
    VersionInfo,
    Assets,
    Libraries,
    MojangJava,
    AuthlibInjector,
    Unknown,
}

/// The digest that a file is expected to have, in hexadecimal digits.
#[derive(Debug)]
pub enum Checksum {
    Sha1(String),
    Sha256(String),
    Unchecked,
}

impl Clone for Checksum {
    fn clone(&self) -> (r: Checksum)
        ensures
            r == *self,
    {
        match self {
            Checksum::Sha1(h) => Checksum::Sha1(h.clone()),
            Checksum::Sha256(h) => Checksum::Sha256(h.clone()),
            Checksum::Unchecked => Checksum::Unchecked,
        }
    }
}

/// One file to fetch: where from, where to, and what it must hash to.
#[derive(Debug)]
pub struct DownloadTask {
    pub url: String,
    /// The path of the target file.
    pub file: String,
    pub size_bytes: Option<u64>,
    pub checksum: Checksum,
    /// The `type` of the download.
    pub kind: DownloadType,
}

impl Clone for DownloadTask {
    fn clone(&self) -> (r: DownloadTask)
        ensures
            r == *self,
    {
        DownloadTask {
            url: self.url.clone(),
            file: self.file.clone(),
            size_bytes: self.size_bytes,
            checksum: self.checksum.clone(),
            kind: self.kind,
        }
    }
}

/// An expected digest over plain values.
pub enum ChecksumSpec {
    Sha1(Seq<char>),
    Sha256(Seq<char>),
    Unchecked,
}

impl View for Checksum {
    type V = ChecksumSpec;

    open spec fn view(&self) -> ChecksumSpec {
        match *self {
            Checksum::Sha1(h) => ChecksumSpec::Sha1(h@),
            Checksum::Sha256(h) => ChecksumSpec::Sha256(h@),
            Checksum::Unchecked => ChecksumSpec::Unchecked,
        }
    }
}

/// A download task over plain values.
pub struct TaskSpec {
    pub url: Seq<char>,
    pub file: Seq<char>,
    pub size_bytes: Option<u64>,
    pub checksum: ChecksumSpec,
    pub kind: DownloadType,
}

impl View for DownloadTask {
    type V = TaskSpec;

    open spec fn view(&self) -> TaskSpec {
        TaskSpec {
            url: self.url@,
            file: self.file@,
            size_bytes: self.size_bytes,
            checksum: self.checksum@,
            kind: self.kind,
        }
    }
}

/// The plain values of a list of tasks.
pub open spec fn task_specs(tasks: Seq<DownloadTask>) -> Seq<TaskSpec> {
    Seq::new(tasks.len(), |i: int| tasks[i]@)
}

/// The kind of file that a host serves: assets and libraries have their
/// canonical hosts; any other host, or none, tells nothing.
pub open spec fn kind_of_host(host: Option<Seq<char>>) -> DownloadType {
    match host {
        Some(h) => if h == "resources.download.minecraft.net"@ {
            DownloadType::Assets
        } else if h == "libraries.minecraft.net"@ {
            DownloadType::Libraries
        } else {
            DownloadType::Unknown
        },
        None => DownloadType::Unknown,
    }
}

/// A task after classification by the host of its URL: a task whose kind is
/// known keeps it.
pub open spec fn classified(task: DownloadTask, host: Option<Seq<char>>) -> DownloadTask {
    if task.kind != DownloadType::Unknown {
        task
    } else {
        DownloadTask { kind: kind_of_host(host), ..task }
    }
}

/// The expected digest matches the data, the case of its letters ignored. A
/// task without a digest matches any data.
pub open spec fn checksum_matches(checksum: Checksum, data: Seq<u8>) -> bool {
    match checksum {
        Checksum::Sha1(h) => lower_seq(h@) == lower_seq(sha1_hex(data)),
        Checksum::Sha256(h) => lower_seq(h@) == lower_seq(sha256_hex(data)),
        Checksum::Unchecked => true,
    }
}

/// A file has to be fetched where it is absent or unreadable, where the
/// task has no digest to hold it to, or where its content does not match.
pub open spec fn must_fetch(checksum: Checksum, content: Option<Seq<u8>>) -> bool {
    match content {
        None => true,
        Some(data) => checksum is Unchecked || !checksum_matches(checksum, data),
    }
}

impl Checksum {
    /// Whether `data` has the expected digest. A task without a digest has
    /// nothing to verify.
    pub fn verify(&self, data: &[u8]) -> (r: Option<bool>)
        ensures
            r is None <==> *self is Unchecked,
            r matches Some(ok) ==> ok == checksum_matches(*self, data@),
    {
        match self {
            Checksum::Sha1(expected) => {
                let digest = sha1_hex_digest(data);
                let a = to_ascii_lowercase(expected.as_str());
                let b = to_ascii_lowercase(digest.as_str());
                Some(str_eq(a.as_str(), b.as_str()))
            },
            Checksum::Sha256(expected) => {
                let digest = sha256_hex_digest(data);
                let a = to_ascii_lowercase(expected.as_str());
                let b = to_ascii_lowercase(digest.as_str());
                Some(str_eq(a.as_str(), b.as_str()))
            },
            Checksum::Unchecked => None,
        }
    }
}

impl DownloadTask {
    /// The task with its kind settled by the host of its URL, the host
    /// handed in.
    pub fn classify_with(&self, host: Option<&str>) -> (r: DownloadTask)
        ensures
            r == classified(
                *self,
                match host {
                    Some(h) => Some(h@),
                    None => None,
                },
            ),
    {
        let mut task = self.clone();
        if task.kind != DownloadType::Unknown {
            return task;
        }
        task.kind = match host {
            Some(h) => {
                if str_eq(h, "resources.download.minecraft.net") {
                    DownloadType::Assets
                } else if str_eq(h, "libraries.minecraft.net") {
                    DownloadType::Libraries
                } else {
                    DownloadType::Unknown
                }
            },
            None => DownloadType::Unknown,
        };
        task
    }

    /// The task with its kind settled: a task of unknown kind is an asset
    /// or a library where its URL has the canonical host of one. Fails
    /// where the kind is unknown and the URL cannot be parsed.
    pub fn classify(&self) -> (r: Result<DownloadTask, Error>)
        ensures
            self.kind != DownloadType::Unknown ==> r == Ok::<DownloadTask, Error>(*self),
            self.kind == DownloadType::Unknown ==> (match url_host(self.url@) {
                Some(host) => r == Ok::<DownloadTask, Error>(classified(*self, host)),
                None => r matches Err(e) && e is UrlParse,
            }),
    {
        if self.kind != DownloadType::Unknown {
            return Ok(self.clone());
        }
        match parse_url_host(self.url.as_str()) {
            Ok(Some(host)) => Ok(self.classify_with(Some(host.as_str()))),
            Ok(None) => Ok(self.classify_with(None)),
            Err(e) => Err(Error::UrlParse(url_error_text(&e))),
        }
    }

    /// Whether the file has to be fetched, given the content of the target
    /// file where it exists and can be read.
    pub fn needs_download(&self, content: Option<&[u8]>) -> (r: bool)
        ensures
            r == must_fetch(
                self.checksum,
                match content {
                    Some(data) => Some(data@),
                    None => None,
                },
            ),
    {
        match content {
            None => true,
            Some(data) => match self.checksum.verify(data) {
                Some(ok) => !ok,
                None => true,
            },
        }
    }

    /// Holds a fetched file to the task's digest: the error names the URL
    /// where the content does not match.
    pub fn check_downloaded(&self, data: &[u8]) -> (r: Result<(), Error>)
        ensures
            r is Ok <==> checksum_matches(self.checksum, data@),
            r matches Err(e) ==> e matches Error::Sha1Missmatch(url) && url@ == self.url@,
    {
        match self.checksum.verify(data) {
            Some(false) => Err(Error::Sha1Missmatch(self.url.clone())),
            _ => Ok(()),
        }
    }
}

/// A file that was fetched and found to match is not fetched again, as
/// long as the task has a digest.
pub proof fn lemma_verified_file_is_kept(task: DownloadTask, data: Seq<u8>)
    requires
        !(task.checksum is Unchecked),
        checksum_matches(task.checksum, data),
    ensures
        !must_fetch(task.checksum, Some(data)),
{
}

/// The flag of task `i`: a task for which no flag was handed in has to be
/// fetched.
pub open spec fn flag_of(flags: Seq<bool>, i: int) -> bool {
    if 0 <= i < flags.len() {
        flags[i]
    } else {
        true
    }
}

/// The tasks whose flag is set, in order.
pub open spec fn kept(tasks: Seq<DownloadTask>, flags: Seq<bool>) -> Seq<DownloadTask>
    decreases tasks.len(),
{
    if tasks.len() == 0 {
        Seq::empty()
    } else if flag_of(flags, tasks.len() - 1) {
        kept(tasks.drop_last(), flags).push(tasks.last())
    } else {
        kept(tasks.drop_last(), flags)
    }
}

/// The tasks that have to be fetched: those whose flag in `needed` is set,
/// in their order. A task without a flag is among them.
pub fn filter_existing_and_verified_files(downloads: &Vec<DownloadTask>, needed: &Vec<bool>) -> (r:
    Vec<DownloadTask>)
    ensures
        r@ == kept(downloads@, needed@),
{
    let mut out: Vec<DownloadTask> = Vec::new();
    let mut i: usize = 0;
    while i < downloads.len()
        invariant
            i <= downloads.len(),
            out@ == kept(downloads@.take(i as int), needed@),
        decreases downloads.len() - i,
    {
        proof {
            assert(downloads@.take(i + 1).drop_last() == downloads@.take(i as int));
            assert(downloads@.take(i + 1).last() == downloads@[i as int]);
        }
        let needs = if i < needed.len() {
            needed[i]
        } else {
            true
        };
        if needs {
            out.push(downloads[i].clone());
        }
        i += 1;
    }
    proof {
        assert(downloads@.take(downloads@.len() as int) == downloads@);
    }
    out
}

} // verus!
