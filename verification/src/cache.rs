//! The cache of open database handles that one worker keeps: one entry for
//! each path, checked against the file's modification time once five seconds
//! have passed since the last check.

use vstd::prelude::*;
use vstd::string::*;
use crate::text::str_eq;

verus! {

/// Seconds that a check of the file stays good for.
pub const CHECK_INTERVAL_SECS: u64 = 5;

/// A point in time: seconds since the epoch, and nanoseconds below one second.
#[derive(Clone, Copy, PartialEq, Eq, Structural, Debug)]
pub struct Timestamp {
    pub secs: u64,
    pub nanos: u32,
}

/// What a look at the file's metadata gave.
#[derive(Clone, Copy, PartialEq, Eq, Structural, Debug)]
pub enum FileStat {
    Unreadable,
    Readable(Option<Timestamp>),
}

/// What a lookup does next.
#[derive(Clone, Copy, PartialEq, Eq, Structural, Debug)]
pub enum CacheStep {
    /// Fetch from the cached handle.
    Serve,
    /// Read the file's metadata and report it.
    Stat,
    /// Open the file afresh and store the handle.
    Open,
}

/// Why a lookup failed.
#[derive(Clone, Copy, PartialEq, Eq, Structural, Debug)]
pub enum WnError {
    MapNotFound,
    KeyNotFound,
    DbOther,
    UnknownMapType,
}

/// An open handle with what was known of its file when it was opened.
pub struct CachedHandle<H> {
    pub path: String,
    pub handle: H,
    pub modified_at: Option<Timestamp>,
    pub last_checked_at: Timestamp,
}

/// The handles that one worker holds open, one for each path. They are kept
/// in a vector, oldest first: vstd models a hash map for integer keys only,
/// and the paths are strings.
pub struct DbCache<H> {
    entries: Vec<CachedHandle<H>>,
}

/// A point in time as nanoseconds since the epoch.
pub open spec fn nanos_of(t: Timestamp) -> int {
    t.secs as int * 1_000_000_000 + t.nanos as int
}

/// Five seconds or more lie between the last check and now.
pub open spec fn check_due(last: Timestamp, now: Timestamp) -> bool {
    nanos_of(now) - nanos_of(last) >= CHECK_INTERVAL_SECS as int * 1_000_000_000
}

/// The metadata shows the modification time that was seen at opening.
pub open spec fn file_unchanged(modified_at: Option<Timestamp>, stat: FileStat) -> bool {
    match (stat, modified_at) {
        (FileStat::Readable(Some(seen)), Some(kept)) => seen == kept,
        _ => false,
    }
}

/// The step of a lookup by the time of the entry's last check; `None` where
/// the path has no entry.
pub open spec fn first_step(last_checked_at: Option<Timestamp>, now: Timestamp) -> CacheStep {
    match last_checked_at {
        None => CacheStep::Open,
        Some(last) => if check_due(last, now) {
            CacheStep::Stat
        } else {
            CacheStep::Serve
        },
    }
}

/// The step of a lookup once the metadata is known.
pub open spec fn step_after_stat(modified_at: Option<Timestamp>, stat: FileStat) -> CacheStep {
    if file_unchanged(modified_at, stat) {
        CacheStep::Serve
    } else {
        CacheStep::Open
    }
}

/// The entry with a new time of last check.
pub open spec fn touched<H>(e: CachedHandle<H>, now: Timestamp) -> CachedHandle<H> {
    CachedHandle { path: e.path, handle: e.handle, modified_at: e.modified_at, last_checked_at: now }
}

/// Tells whether five seconds or more have passed since the last check.
pub fn is_check_due(last: Timestamp, now: Timestamp) -> (r: bool)
    ensures
        r == check_due(last, now),
{
    let a: u128 = (now.secs as u128) * 1_000_000_000 + (now.nanos as u128);
    let b: u128 = (last.secs as u128) * 1_000_000_000 + (last.nanos as u128);
    a >= b + 5_000_000_000
}

/// Tells whether the file still shows the modification time seen at opening.
pub fn is_file_unchanged(modified_at: Option<Timestamp>, stat: FileStat) -> (r: bool)
    ensures
        r == file_unchanged(modified_at, stat),
{
    match (stat, modified_at) {
        (FileStat::Readable(Some(seen)), Some(kept)) => seen.secs == kept.secs && seen.nanos
            == kept.nanos,
        _ => false,
    }
}

/// A file that cannot be read is no map; of one that can, the modification
/// time is kept where it is known.
pub fn modified_for_open(stat: FileStat) -> (r: Result<Option<Timestamp>, WnError>)
    ensures
        r == match stat {
            FileStat::Unreadable => Err::<Option<Timestamp>, WnError>(WnError::MapNotFound),
            FileStat::Readable(m) => Ok(m),
        },
{
    match stat {
        FileStat::Unreadable => Err(WnError::MapNotFound),
        FileStat::Readable(m) => Ok(m),
    }
}

/// A fetch that found nothing is a missing key.
pub fn fetch_result(found: Option<String>) -> (r: Result<String, WnError>)
    ensures
        r == match found {
            Some(v) => Ok::<String, WnError>(v),
            None => Err(WnError::KeyNotFound),
        },
{
    match found {
        Some(v) => Ok(v),
        None => Err(WnError::KeyNotFound),
    }
}

impl<H> DbCache<H> {
    /// The entries, oldest first.
    pub closed spec fn entries(&self) -> Seq<CachedHandle<H>> {
        self.entries@
    }

    /// No path has two entries.
    pub open spec fn wf(&self) -> bool {
        forall|i: int, j: int|
            0 <= i < j < self.entries().len() ==> self.entries()[i].path@ != self.entries()[j].path@
    }

    /// Some entry is the one for `path`.
    pub open spec fn holds(&self, path: Seq<char>) -> bool {
        exists|i: int| self.at(i, path)
    }

    /// Entry `i` is the one for `path`.
    pub open spec fn at(&self, i: int, path: Seq<char>) -> bool {
        0 <= i < self.entries().len() && self.entries()[i].path@ == path
    }

    /// An empty cache.
    pub fn new() -> (r: Self)
        ensures
            r.entries().len() == 0,
            r.wf(),
    {
        DbCache { entries: Vec::new() }
    }

    /// The number of entries.
    pub fn len(&self) -> (r: usize)
        ensures
            r == self.entries().len(),
    {
        self.entries.len()
    }

    /// The place of the entry for a path.
    pub fn find(&self, path: &str) -> (r: Option<usize>)
        ensures
            match r {
                Some(i) => self.at(i as int, path@),
                None => !self.holds(path@),
            },
    {
        let mut i: usize = 0;
        while i < self.entries.len()
            invariant
                i <= self.entries@.len(),
                forall|j: int| 0 <= j < i ==> self.entries@[j].path@ != path@,
            decreases self.entries@.len() - i,
        {
            if str_eq(self.entries[i].path.as_str(), path) {
                return Some(i);
            }
            i += 1;
        }
        None
    }

    /// The cached handle for a path.
    pub fn handle(&self, path: &str) -> (r: Option<&H>)
        ensures
            match r {
                Some(h) => exists|i: int| self.at(i, path@) && *h == self.entries()[i].handle,
                None => !self.holds(path@),
            },
    {
        match self.find(path) {
            Some(i) => Some(&self.entries[i].handle),
            None => None,
        }
    }

    fn touch(&mut self, i: usize, now: Timestamp)
        requires
            i < old(self).entries().len(),
            old(self).wf(),
        ensures
            final(self).entries() == old(self).entries().update(
                i as int,
                touched(old(self).entries()[i as int], now),
            ),
            final(self).wf(),
    {
        let e = self.entries.remove(i);
        let fresh = CachedHandle {
            path: e.path,
            handle: e.handle,
            modified_at: e.modified_at,
            last_checked_at: now,
        };
        self.entries.insert(i, fresh);
        proof {
            assert(self.entries@ =~= old(self).entries().update(
                i as int,
                touched(old(self).entries()[i as int], now),
            ));
        }
    }

    fn evict(&mut self, i: usize)
        requires
            i < old(self).entries().len(),
            old(self).wf(),
        ensures
            final(self).entries() == old(self).entries().remove(i as int),
            final(self).wf(),
            !final(self).holds(old(self).entries()[i as int].path@),
    {
        let _ = self.entries.remove(i);
        proof {
            let before = old(self).entries();
            let after = self.entries@;
            assert forall|a: int, b: int| 0 <= a < b < after.len() implies after[a].path@
                != after[b].path@ by {
                let a0 = if a < i { a } else { a + 1 };
                let b0 = if b < i { b } else { b + 1 };
                assert(after[a] == before[a0]);
                assert(after[b] == before[b0]);
            }
            assert forall|k: int| !self.at(k, before[i as int].path@) by {
                if 0 <= k < after.len() {
                    let k0 = if k < i { k } else { k + 1 };
                    assert(after[k] == before[k0]);
                }
            }
        }
    }

    /// Starts a lookup. A path without an entry is opened. An entry whose last
    /// check is five seconds old or more asks for the file's metadata. Any
    /// other entry is served, and its time of last check becomes `now`.
    pub fn begin(&mut self, path: &str, now: Timestamp) -> (step: CacheStep)
        requires
            old(self).wf(),
        ensures
            final(self).wf(),
            !old(self).holds(path@) ==> step == CacheStep::Open && final(self).entries() == old(
                self,
            ).entries(),
            forall|i: int| #[trigger]
                old(self).at(i, path@) ==> {
                    let e = old(self).entries()[i];
                    &&& step == first_step(Some(e.last_checked_at), now)
                    &&& final(self).entries() == if step == CacheStep::Serve {
                        old(self).entries().update(i, touched(e, now))
                    } else {
                        old(self).entries()
                    }
                    &&& final(self).at(i, path@)
                },
    {
        match self.find(path) {
            None => CacheStep::Open,
            Some(i) => {
                proof {
                    assert forall|k: int| #[trigger] old(self).at(k, path@) implies k == i by {}
                }
                if is_check_due(self.entries[i].last_checked_at, now) {
                    CacheStep::Stat
                } else {
                    self.touch(i, now);
                    CacheStep::Serve
                }
            },
        }
    }

    /// Goes on with a lookup once the file's metadata is known. An entry whose
    /// file shows the modification time seen at opening is served, and its
    /// time of last check becomes `now`. Any other entry is dropped, and the
    /// file is opened afresh; so is a path without an entry.
    pub fn after_stat(&mut self, path: &str, stat: FileStat, now: Timestamp) -> (step: CacheStep)
        requires
            old(self).wf(),
        ensures
            final(self).wf(),
            !old(self).holds(path@) ==> step == CacheStep::Open && final(self).entries() == old(
                self,
            ).entries(),
            forall|i: int| #[trigger]
                old(self).at(i, path@) ==> {
                    let e = old(self).entries()[i];
                    &&& step == step_after_stat(e.modified_at, stat)
                    &&& final(self).entries() == if step == CacheStep::Serve {
                        old(self).entries().update(i, touched(e, now))
                    } else {
                        old(self).entries().remove(i)
                    }
                    &&& step == CacheStep::Serve ==> final(self).at(i, path@)
                },
            step == CacheStep::Open ==> !final(self).holds(path@),
    {
        match self.find(path) {
            None => CacheStep::Open,
            Some(i) => {
                proof {
                    assert forall|k: int| #[trigger] old(self).at(k, path@) implies k == i by {}
                }
                if is_file_unchanged(self.entries[i].modified_at, stat) {
                    self.touch(i, now);
                    CacheStep::Serve
                } else {
                    self.evict(i);
                    CacheStep::Open
                }
            },
        }
    }

    /// Stores a handle that was just opened, in place of any entry that the
    /// path had.
    pub fn store(&mut self, path: &str, handle: H, modified_at: Option<Timestamp>, now: Timestamp)
        requires
            old(self).wf(),
        ensures
            final(self).wf(),
            final(self).entries().len() > 0,
            final(self).at(final(self).entries().len() - 1, path@),
            final(self).entries().last().handle == handle,
            final(self).entries().last().modified_at == modified_at,
            final(self).entries().last().last_checked_at == now,
            !old(self).holds(path@) ==> final(self).entries().drop_last() == old(self).entries(),
            forall|i: int| #[trigger]
                old(self).at(i, path@) ==> final(self).entries().drop_last() == old(
                    self,
                ).entries().remove(i),
    {
        match self.find(path) {
            None => {},
            Some(i) => {
                proof {
                    assert forall|k: int| #[trigger] old(self).at(k, path@) implies k == i by {}
                }
                self.evict(i);
            },
        }
        let ghost mid = self.entries@;
        let ghost kept = *self;
        assert(!kept.holds(path@));
        let entry = CachedHandle {
            path: String::from_str(path),
            handle,
            modified_at,
            last_checked_at: now,
        };
        self.entries.push(entry);
        proof {
            assert(self.entries@.drop_last() =~= mid);
            assert forall|a: int, b: int| 0 <= a < b < self.entries@.len() implies self.entries@[a].path@
                != self.entries@[b].path@ by {
                if b == mid.len() {
                    assert(self.entries@[a] == mid[a]);
                    assert(!kept.at(a, path@));
                } else {
                    assert(self.entries@[a] == mid[a]);
                    assert(self.entries@[b] == mid[b]);
                }
            }
        }
    }
}

/// An entry that was checked less than five seconds ago is served without a
/// look at the file's metadata.
pub proof fn law_fresh_entry_needs_no_stat(last: Timestamp, now: Timestamp)
    requires
        nanos_of(now) - nanos_of(last) < 5_000_000_000,
    ensures
        first_step(Some(last), now) == CacheStep::Serve,
{
}

/// Once five seconds have passed, the file's metadata is read; a file whose
/// modification time differs from the one seen at opening, or that cannot be
/// read, is opened afresh.
pub proof fn law_changed_file_is_reopened(
    last: Timestamp,
    now: Timestamp,
    modified_at: Option<Timestamp>,
    stat: FileStat,
)
    requires
        nanos_of(now) - nanos_of(last) >= 5_000_000_000,
        stat != FileStat::Readable(modified_at) || modified_at is None,
    ensures
        first_step(Some(last), now) == CacheStep::Stat,
        step_after_stat(modified_at, stat) == CacheStep::Open,
{
}

} // verus!
