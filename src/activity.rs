//! The bounded activity log and its newest-first queries.

use vstd::prelude::*;
use crate::types::{AccountId, ActivityKind, Asset};

verus! {

/// Most entries the log keeps; appending beyond it evicts the oldest.
pub const MAX_ACTIVITY_LOG_SIZE: usize = 10_000;

/// One logged transaction.
#[derive(Clone, Copy, Debug, PartialEq, Eq, Structural)]
pub struct ActivityEntry {
    pub user: AccountId,
    pub activity_type: ActivityKind,
    pub amount: i128,
    pub asset: Asset,
    pub timestamp: u64,
}

/// Selects log entries by user or by kind.
#[derive(Clone, Copy, Debug, PartialEq, Eq, Structural)]
pub enum EntryFilter {
    User(AccountId),
    Kind(ActivityKind),
}

impl EntryFilter {
    pub open spec fn accepts_spec(self, e: ActivityEntry) -> bool {
        match self {
            EntryFilter::User(u) => e.user == u,
            EntryFilter::Kind(k) => e.activity_type == k,
        }
    }

    pub fn accepts(&self, e: &ActivityEntry) -> (r: bool)
        ensures
            r == self.accepts_spec(*e),
    {
        match self {
            EntryFilter::User(u) => e.user == *u,
            EntryFilter::Kind(k) => e.activity_type == *k,
        }
    }
}

/// The log after appending `e`, with the oldest entry dropped once the cap
/// is exceeded.
pub open spec fn pushed_spec(log: Seq<ActivityEntry>, e: ActivityEntry) -> Seq<ActivityEntry> {
    let s = log.push(e);
    if s.len() > MAX_ACTIVITY_LOG_SIZE { s.drop_first() } else { s }
}

/// The entries newest first.
pub open spec fn reversed(log: Seq<ActivityEntry>) -> Seq<ActivityEntry> {
    Seq::new(log.len(), |i: int| log[log.len() - 1 - i])
}

/// The entries that `f` accepts, newest first.
pub open spec fn newest_first(log: Seq<ActivityEntry>, f: EntryFilter) -> Seq<ActivityEntry>
    decreases log.len(),
{
    if log.len() == 0 {
        Seq::empty()
    } else {
        let rest = newest_first(log.drop_first(), f);
        if f.accepts_spec(log[0]) { rest.push(log[0]) } else { rest }
    }
}

/// Up to `limit` items of `s` after skipping the first `offset`.
pub open spec fn page(s: Seq<ActivityEntry>, limit: int, offset: int) -> Seq<ActivityEntry> {
    if offset >= s.len() {
        Seq::empty()
    } else if offset + limit >= s.len() {
        s.subrange(offset, s.len() as int)
    } else {
        s.subrange(offset, offset + limit)
    }
}

/// The first `n` items of `s`, or all of them if there are fewer.
pub open spec fn first_n(s: Seq<ActivityEntry>, n: int) -> Seq<ActivityEntry> {
    if s.len() <= n { s } else { s.subrange(0, n) }
}

pub proof fn lemma_newest_first_len(log: Seq<ActivityEntry>, f: EntryFilter)
    ensures
        newest_first(log, f).len() <= log.len(),
    decreases log.len(),
{
    if log.len() > 0 {
        lemma_newest_first_len(log.drop_first(), f);
    }
}

/// What a suffix of the log selects is a prefix of what the whole log selects.
pub proof fn lemma_suffix_selects_prefix(log: Seq<ActivityEntry>, f: EntryFilter, i: int)
    requires
        0 <= i <= log.len(),
    ensures
        ({
            let part = newest_first(log.subrange(i, log.len() as int), f);
            let whole = newest_first(log, f);
            part.len() <= whole.len() && whole.subrange(0, part.len() as int) == part
        }),
    decreases i,
{
    let n = log.len() as int;
    if i == 0 {
        assert(log.subrange(0, n) =~= log);
        assert(newest_first(log, f).subrange(0, newest_first(log, f).len() as int) =~= newest_first(log, f));
    } else {
        lemma_suffix_selects_prefix(log, f, i - 1);
        let longer = log.subrange(i - 1, n);
        assert(longer.drop_first() =~= log.subrange(i, n));
        let part = newest_first(log.subrange(i, n), f);
        let mid = newest_first(longer, f);
        let whole = newest_first(log, f);
        assert(mid.subrange(0, part.len() as int) =~= part);
        assert(whole.subrange(0, part.len() as int) =~= mid.subrange(0, mid.len() as int).subrange(0, part.len() as int));
    }
}

/// Appends an entry, evicting the oldest one when the log would exceed its cap.
pub fn push_entry(log: &mut Vec<ActivityEntry>, e: ActivityEntry)
    requires
        old(log).len() <= MAX_ACTIVITY_LOG_SIZE,
    ensures
        final(log)@ == pushed_spec(old(log)@, e),
        final(log).len() <= MAX_ACTIVITY_LOG_SIZE,
{
    log.push(e);
    if log.len() > MAX_ACTIVITY_LOG_SIZE {
        log.remove(0);
        assert(log@ =~= old(log)@.push(e).drop_first());
    }
}

/// Up to `limit` entries, newest first, after skipping the `offset` most recent.
pub fn recent_entries(log: &Vec<ActivityEntry>, limit: u32, offset: u32) -> (r: Vec<ActivityEntry>)
    ensures
        r@ == page(reversed(log@), limit as int, offset as int),
{
    let mut out: Vec<ActivityEntry> = Vec::new();
    let n = log.len();
    let off = offset as usize;
    if off >= n {
        assert(out@ =~= page(reversed(log@), limit as int, offset as int));
        return out;
    }
    let avail = n - off;
    let count: usize = if (limit as usize) < avail { limit as usize } else { avail };
    let mut k: usize = 0;
    while k < count
        invariant
            n == log.len(),
            off < n,
            count <= n - off,
            k <= count,
            out@ =~= reversed(log@).subrange(off as int, off + k),
        decreases count - k,
    {
        out.push(log[n - 1 - off - k]);
        k += 1;
    }
    assert(out@ =~= page(reversed(log@), limit as int, offset as int));
    out
}

/// The entries `f` accepts, newest first, stopping after `max` of them.
pub fn select_newest_first(log: &Vec<ActivityEntry>, f: EntryFilter, max: usize) -> (r: Vec<ActivityEntry>)
    ensures
        r@ == first_n(newest_first(log@, f), max as int),
{
    let n = log.len();
    let mut out: Vec<ActivityEntry> = Vec::new();
    let mut i: usize = n;
    assert(log@.subrange(n as int, n as int) =~= Seq::<ActivityEntry>::empty());
    while i > 0 && out.len() < max
        invariant
            n == log.len(),
            i <= n,
            out.len() <= max,
            out@ == newest_first(log@.subrange(i as int, n as int), f),
        decreases i,
    {
        i -= 1;
        let e = log[i];
        if f.accepts(&e) {
            out.push(e);
        }
        assert(log@.subrange(i as int, n as int).drop_first() =~= log@.subrange(i + 1, n as int));
    }
    proof {
        lemma_suffix_selects_prefix(log@, f, i as int);
        let whole = newest_first(log@, f);
        if i == 0 {
            assert(log@.subrange(0, n as int) =~= log@);
        } else {
            assert(whole.subrange(0, max as int) == out@);
        }
    }
    out
}

/// Copies `page(s, limit, offset)` out of `v`.
pub fn page_of(v: &Vec<ActivityEntry>, limit: u32, offset: u32) -> (r: Vec<ActivityEntry>)
    ensures
        r@ == page(v@, limit as int, offset as int),
{
    let mut out: Vec<ActivityEntry> = Vec::new();
    let n = v.len();
    let off = offset as usize;
    if off >= n {
        assert(out@ =~= page(v@, limit as int, offset as int));
        return out;
    }
    let avail = n - off;
    let count: usize = if (limit as usize) < avail { limit as usize } else { avail };
    let mut k: usize = 0;
    while k < count
        invariant
            n == v.len(),
            off < n,
            count <= n - off,
            k <= count,
            out@ =~= v@.subrange(off as int, off + k),
        decreases count - k,
    {
        out.push(v[off + k]);
        k += 1;
    }
    assert(out@ =~= page(v@, limit as int, offset as int));
    out
}

/// Consecutive pages partition the sequence: the page at `offset` followed
/// by the page at `offset + limit` is the page of twice the size at `offset`,
/// so the two share no entry and leave none out.
pub proof fn lemma_pages_partition(s: Seq<ActivityEntry>, limit: int, offset: int)
    requires
        limit >= 0,
        offset >= 0,
    ensures
        page(s, limit, offset) + page(s, limit, offset + limit) =~= page(s, 2 * limit, offset),
{
}

/// A page that starts at or past the end is empty.
pub proof fn lemma_page_past_end(s: Seq<ActivityEntry>, limit: int, offset: int)
    requires
        offset >= s.len(),
    ensures
        page(s, limit, offset) == Seq::<ActivityEntry>::empty(),
{
}

} // verus!
