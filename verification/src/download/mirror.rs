//! The mirrors of the two mirrored kinds of file and how many transfers
//! each of them serves at the moment.

use vstd::prelude::*;
use crate::config::download::MirrorConfig;
use crate::download::model::{DownloadTask, DownloadType};
use crate::text::{chars_of, has_prefix, matches_at, push_str, str_eq, string_of, views};

verus! {

/// A mirror with the number of transfers it serves at the moment.
#[derive(Debug)]
pub struct MirrorCounter {
    pub url: String,
    pub in_flight: u64,
}

/// The mirrors of one kind of file.
#[derive(Debug)]
pub struct MirrorPool {
    pub mirrors: Vec<MirrorCounter>,
}

/// A mirror that was picked for a transfer.
#[derive(Debug)]
pub struct Mirror {
    pub url: String,
    /// The position of the mirror in its pool.
    pub index: usize,
}

/// The mirrors of libraries and of assets. One table serves one run.
#[derive(Debug)]
pub struct MirrorUsage {
    pub libraries: MirrorPool,
    pub assets: MirrorPool,
}

/// `url` is one of `list`.
pub open spec fn listed(list: Seq<Seq<char>>, url: Seq<char>) -> bool {
    exists|i: int| 0 <= i < list.len() && list[i] == url
}

/// Whether `url` is one of `list`.
pub fn is_listed(list: &Vec<String>, url: &str) -> (r: bool)
    ensures
        r == listed(views(list@), url@),
{
    let mut i: usize = 0;
    while i < list.len()
        invariant
            i <= list.len(),
            forall|j: int| 0 <= j < i ==> views(list@)[j] != url@,
        decreases list.len() - i,
    {
        if str_eq(list[i].as_str(), url) {
            proof {
                assert(views(list@)[i as int] == url@);
            }
            return true;
        }
        i += 1;
    }
    false
}

/// The canonical origin of a mirrored kind of file.
pub open spec fn canonical_origin(kind: DownloadType) -> Seq<char> {
    if kind == DownloadType::Libraries {
        "https://libraries.minecraft.net"@
    } else {
        "https://resources.download.minecraft.net"@
    }
}

/// `url` with the leading `origin` replaced by `mirror`; a URL that does
/// not start with `origin` stays as it is.
pub open spec fn rewritten(url: Seq<char>, origin: Seq<char>, mirror: Seq<char>) -> Seq<char> {
    if has_prefix(url, origin) {
        mirror + url.skip(origin.len() as int)
    } else {
        url
    }
}

/// Replaces the leading `origin` of `url` by `mirror`.
pub fn rewrite_origin(url: &str, origin: &str, mirror: &str) -> (r: String)
    ensures
        r@ == rewritten(url@, origin@, mirror@),
{
    let u = chars_of(url);
    let o = chars_of(origin);
    if !matches_at(&u, &o, 0) {
        return url.to_owned();
    }
    let mut out: Vec<char> = Vec::new();
    push_str(&mut out, mirror);
    let ghost head = out@;
    let mut i: usize = o.len();
    while i < u.len()
        invariant
            o@.len() <= i <= u@.len(),
            out@ == head + u@.subrange(o@.len() as int, i as int),
        decreases u.len() - i,
    {
        out.push(u[i]);
        i += 1;
        proof {
            assert(out@ =~= head + u@.subrange(o@.len() as int, i as int));
        }
    }
    proof {
        assert(u@.subrange(o@.len() as int, u@.len() as int) =~= u@.skip(o@.len() as int));
    }
    string_of(&out)
}

/// `urls` with each address only where it first occurs.
pub open spec fn without_repeats(urls: Seq<Seq<char>>) -> Seq<Seq<char>>
    decreases urls.len(),
{
    if urls.len() == 0 {
        Seq::empty()
    } else {
        let before = without_repeats(urls.drop_last());
        if listed(before, urls.last()) {
            before
        } else {
            before.push(urls.last())
        }
    }
}

/// No address occurs twice in `urls`.
pub open spec fn distinct_urls(urls: Seq<Seq<char>>) -> bool {
    forall|i: int, j: int| 0 <= i < j < urls.len() ==> urls[i] != urls[j]
}

/// One transfer more, stopping at the largest number.
pub open spec fn one_more(n: u64) -> u64 {
    if n < u64::MAX {
        (n + 1) as u64
    } else {
        u64::MAX
    }
}

/// One transfer less, stopping at zero.
pub open spec fn one_less(n: u64) -> u64 {
    if n > 0 {
        (n - 1) as u64
    } else {
        0
    }
}

impl MirrorPool {
    /// The addresses of the mirrors, in order.
    pub open spec fn urls(self) -> Seq<Seq<char>> {
        Seq::new(self.mirrors@.len(), |i: int| self.mirrors@[i].url@)
    }

    /// The numbers of transfers that the mirrors serve, in order.
    pub open spec fn loads(self) -> Seq<u64> {
        Seq::new(self.mirrors@.len(), |i: int| self.mirrors@[i].in_flight)
    }

    /// Mirror `i` may be picked: it is not among the disabled ones.
    pub open spec fn eligible(self, disabled: Seq<Seq<char>>, i: int) -> bool {
        0 <= i < self.mirrors@.len() && !listed(disabled, self.mirrors@[i].url@)
    }

    /// Mirror `i` is the one to pick: among the mirrors that may be picked
    /// none serves fewer transfers, and none before it serves as few.
    pub open spec fn least_loaded(self, disabled: Seq<Seq<char>>, i: int) -> bool {
        &&& self.eligible(disabled, i)
        &&& forall|j: int| #![trigger self.mirrors@[j]]
            self.eligible(disabled, j) ==> self.mirrors@[i].in_flight <= self.mirrors@[j].in_flight
        &&& forall|j: int| #![trigger self.mirrors@[j]]
            self.eligible(disabled, j) && j < i ==> self.mirrors@[i].in_flight
                < self.mirrors@[j].in_flight
    }

    /// The loads after one transfer more on mirror `index`; a position that
    /// the pool does not have changes nothing.
    pub open spec fn loads_after_acquire(self, index: int) -> Seq<u64> {
        if 0 <= index < self.mirrors@.len() {
            self.loads().update(index, one_more(self.mirrors@[index].in_flight))
        } else {
            self.loads()
        }
    }

    /// The loads after one transfer less on mirror `index`; a position that
    /// the pool does not have changes nothing.
    pub open spec fn loads_after_release(self, index: int) -> Seq<u64> {
        if 0 <= index < self.mirrors@.len() {
            self.loads().update(index, one_less(self.mirrors@[index].in_flight))
        } else {
            self.loads()
        }
    }

    /// A pool of the given mirrors, none of them in use. A mirror that is
    /// given more than once is in the pool once, at its first place.
    pub fn new(urls: &Vec<String>) -> (r: MirrorPool)
        ensures
            r.urls() == without_repeats(views(urls@)),
            distinct_urls(r.urls()),
            forall|i: int| 0 <= i < r.mirrors@.len() ==> (#[trigger] r.mirrors@[i]).in_flight == 0,
    {
        let mut mirrors: Vec<MirrorCounter> = Vec::new();
        let mut names: Vec<String> = Vec::new();
        let mut i: usize = 0;
        proof {
            assert(views(urls@).take(0) =~= Seq::<Seq<char>>::empty());
            assert(views(names@) =~= Seq::<Seq<char>>::empty());
        }
        while i < urls.len()
            invariant
                i <= urls.len(),
                mirrors@.len() == names@.len(),
                views(names@) == without_repeats(views(urls@).take(i as int)),
                distinct_urls(views(names@)),
                forall|j: int| 0 <= j < mirrors@.len() ==> (#[trigger] mirrors@[j]).url@ == names@[j]@,
                forall|j: int| 0 <= j < mirrors@.len() ==> (#[trigger] mirrors@[j]).in_flight == 0,
            decreases urls.len() - i,
        {
            proof {
                let next = views(urls@).take(i + 1);
                assert(next.drop_last() =~= views(urls@).take(i as int));
                assert(next.last() == urls@[i as int]@);
            }
            if !is_listed(&names, urls[i].as_str()) {
                let ghost before = views(names@);
                let name = urls[i].clone();
                proof {
                    crate::text::lemma_views_push(names@, name);
                }
                names.push(name);
                mirrors.push(MirrorCounter { url: urls[i].clone(), in_flight: 0 });
                proof {
                    let after = views(names@);
                    assert forall|a: int, b: int| 0 <= a < b < after.len() implies after[a]
                        != after[b] by {
                        assert(after[a] == before[a]);
                        if b < before.len() {
                            assert(after[b] == before[b]);
                        }
                    }
                }
            }
            i += 1;
        }
        let pool = MirrorPool { mirrors };
        proof {
            assert(views(urls@).take(urls@.len() as int) =~= views(urls@));
            assert(pool.urls() =~= views(names@));
        }
        pool
    }

    /// The mirror that serves the fewest transfers among those that are not
    /// disabled; the first of them where several serve as few.
    pub fn pick(&self, disabled: &Vec<String>) -> (r: Option<Mirror>)
        ensures
            match r {
                Some(mirror) => self.least_loaded(views(disabled@), mirror.index as int)
                    && mirror.url@ == self.mirrors@[mirror.index as int].url@,
                None => forall|j: int| !self.eligible(views(disabled@), j),
            },
    {
        let mut best: Option<usize> = None;
        let mut i: usize = 0;
        while i < self.mirrors.len()
            invariant
                i <= self.mirrors@.len(),
                match best {
                    Some(b) => {
                        &&& b < i
                        &&& self.eligible(views(disabled@), b as int)
                        &&& forall|j: int| #![trigger self.mirrors@[j]]
                            self.eligible(views(disabled@), j) && j < i
                                ==> self.mirrors@[b as int].in_flight <= self.mirrors@[j].in_flight
                        &&& forall|j: int| #![trigger self.mirrors@[j]]
                            self.eligible(views(disabled@), j) && j < b
                                ==> self.mirrors@[b as int].in_flight < self.mirrors@[j].in_flight
                    },
                    None => forall|j: int| 0 <= j < i ==> !self.eligible(views(disabled@), j),
                },
            decreases self.mirrors@.len() - i,
        {
            if !is_listed(disabled, self.mirrors[i].url.as_str()) {
                match best {
                    Some(b) => {
                        if self.mirrors[i].in_flight < self.mirrors[b].in_flight {
                            best = Some(i);
                        }
                    },
                    None => {
                        best = Some(i);
                    },
                }
            }
            i += 1;
        }
        match best {
            Some(b) => Some(Mirror { url: self.mirrors[b].url.clone(), index: b }),
            None => None,
        }
    }

    /// Counts one more transfer on mirror `index`.
    pub fn acquire(&mut self, index: usize)
        ensures
            final(self).urls() == old(self).urls(),
            final(self).loads() == old(self).loads_after_acquire(index as int),
    {
        if index < self.mirrors.len() {
            let current = self.mirrors[index].in_flight;
            let next = if current < u64::MAX {
                current + 1
            } else {
                current
            };
            let url = self.mirrors[index].url.clone();
            self.mirrors.set(index, MirrorCounter { url, in_flight: next });
            proof {
                assert(final(self).urls() =~= old(self).urls());
                assert(final(self).loads() =~= old(self).loads_after_acquire(index as int));
            }
        }
    }

    /// Counts one transfer less on mirror `index`.
    pub fn release(&mut self, index: usize)
        ensures
            final(self).urls() == old(self).urls(),
            final(self).loads() == old(self).loads_after_release(index as int),
    {
        if index < self.mirrors.len() {
            let current = self.mirrors[index].in_flight;
            let next = if current > 0 {
                current - 1
            } else {
                0
            };
            let url = self.mirrors[index].url.clone();
            self.mirrors.set(index, MirrorCounter { url, in_flight: next });
            proof {
                assert(final(self).urls() =~= old(self).urls());
                assert(final(self).loads() =~= old(self).loads_after_release(index as int));
            }
        }
    }
}

/// `kind` is one of the two kinds of file that mirrors serve.
pub open spec fn is_mirrored(kind: DownloadType) -> bool {
    kind == DownloadType::Libraries || kind == DownloadType::Assets
}

impl MirrorUsage {
    /// The pool that serves a mirrored kind of file.
    pub open spec fn pool(self, kind: DownloadType) -> MirrorPool {
        if kind == DownloadType::Libraries {
            self.libraries
        } else {
            self.assets
        }
    }

    /// The table of the configured mirrors, none of them in use.
    pub fn new(mirror_config: &MirrorConfig) -> (r: MirrorUsage)
        ensures
            r.libraries.urls() == without_repeats(views(mirror_config.libraries@)),
            r.assets.urls() == without_repeats(views(mirror_config.assets@)),
            distinct_urls(r.libraries.urls()),
            distinct_urls(r.assets.urls()),
            forall|i: int|
                0 <= i < r.libraries.mirrors@.len() ==> (#[trigger] r.libraries.mirrors@[i]).in_flight
                    == 0,
            forall|i: int|
                0 <= i < r.assets.mirrors@.len() ==> (#[trigger] r.assets.mirrors@[i]).in_flight
                    == 0,
    {
        MirrorUsage {
            libraries: MirrorPool::new(&mirror_config.libraries),
            assets: MirrorPool::new(&mirror_config.assets),
        }
    }

    /// The library mirror with the fewest transfers that is not disabled.
    pub fn get_libraries_mirror(&self, disabled: &Vec<String>) -> (r: Option<Mirror>)
        ensures
            match r {
                Some(mirror) => self.libraries.least_loaded(
                    views(disabled@),
                    mirror.index as int,
                ) && mirror.url@ == self.libraries.mirrors@[mirror.index as int].url@,
                None => forall|j: int| !self.libraries.eligible(views(disabled@), j),
            },
    {
        self.libraries.pick(disabled)
    }

    /// The asset mirror with the fewest transfers that is not disabled.
    pub fn get_assets_mirror(&self, disabled: &Vec<String>) -> (r: Option<Mirror>)
        ensures
            match r {
                Some(mirror) => self.assets.least_loaded(views(disabled@), mirror.index as int)
                    && mirror.url@ == self.assets.mirrors@[mirror.index as int].url@,
                None => forall|j: int| !self.assets.eligible(views(disabled@), j),
            },
    {
        self.assets.pick(disabled)
    }

    /// Gives back the mirror of a transfer that has ended: the mirror counts
    /// one transfer less. Nothing changes for a kind of file that has no
    /// mirrors.
    pub fn release(&mut self, kind: DownloadType, mirror: &Mirror)
        ensures
            is_mirrored(kind) ==> final(self).pool(kind).urls() == old(self).pool(kind).urls()
                && final(self).pool(kind).loads() == old(self).pool(kind).loads_after_release(
                mirror.index as int,
            ),
            kind == DownloadType::Libraries ==> final(self).assets == old(self).assets,
            kind == DownloadType::Assets ==> final(self).libraries == old(self).libraries,
            !is_mirrored(kind) ==> *final(self) == *old(self),
    {
        match kind {
            DownloadType::Libraries => self.libraries.release(mirror.index),
            DownloadType::Assets => self.assets.release(mirror.index),
            _ => {},
        }
    }
}

impl DownloadTask {
    /// Gives the task to a mirror. A library or an asset goes to the mirror
    /// of its kind that serves the fewest transfers and is not disabled: the
    /// mirror counts one transfer more, and the task's URL has the mirror in
    /// place of the canonical origin. Nothing else of the task changes. A
    /// task of another kind, or one for which no mirror is left, is not
    /// given to a mirror.
    pub fn assignment_mirror(self, mirror_usage: &mut MirrorUsage, disabled_mirrors: &Vec<String>) -> (r:
        Option<(DownloadTask, Mirror)>)
        ensures
            match r {
                Some((task, mirror)) => {
                    let kind = self.kind;
                    let pool = old(mirror_usage).pool(kind);
                    &&& is_mirrored(kind)
                    &&& pool.least_loaded(views(disabled_mirrors@), mirror.index as int)
                    &&& mirror.url@ == pool.mirrors@[mirror.index as int].url@
                    &&& task == (DownloadTask { url: task.url, ..self })
                    &&& task.url@ == rewritten(self.url@, canonical_origin(kind), mirror.url@)
                    &&& final(mirror_usage).pool(kind).urls() == pool.urls()
                    &&& final(mirror_usage).pool(kind).loads() == pool.loads_after_acquire(
                        mirror.index as int,
                    )
                    &&& kind == DownloadType::Libraries ==> final(mirror_usage).assets == old(
                        mirror_usage,
                    ).assets
                    &&& kind == DownloadType::Assets ==> final(mirror_usage).libraries == old(
                        mirror_usage,
                    ).libraries
                },
                None => {
                    &&& *final(mirror_usage) == *old(mirror_usage)
                    &&& is_mirrored(self.kind) ==> forall|j: int|
                        !old(mirror_usage).pool(self.kind).eligible(views(disabled_mirrors@), j)
                },
            },
    {
        match self.kind {
            DownloadType::Libraries => {
                let mirror = match mirror_usage.get_libraries_mirror(disabled_mirrors) {
                    Some(mirror) => mirror,
                    None => {
                        return None;
                    },
                };
                mirror_usage.libraries.acquire(mirror.index);
                let url = rewrite_origin(
                    self.url.as_str(),
                    "https://libraries.minecraft.net",
                    mirror.url.as_str(),
                );
                let mut task = self;
                task.url = url;
                Some((task, mirror))
            },
            DownloadType::Assets => {
                let mirror = match mirror_usage.get_assets_mirror(disabled_mirrors) {
                    Some(mirror) => mirror,
                    None => {
                        return None;
                    },
                };
                mirror_usage.assets.acquire(mirror.index);
                let url = rewrite_origin(
                    self.url.as_str(),
                    "https://resources.download.minecraft.net",
                    mirror.url.as_str(),
                );
                let mut task = self;
                task.url = url;
                Some((task, mirror))
            },
            _ => None,
        }
    }
}

} // verus!
