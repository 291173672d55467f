//! A filter that recognises repeated message ids within a time window.
//!
//! Each id is remembered with the time it was first seen. Entries older than
//! the time-to-live are forgotten before every check; when the filter is full,
//! the oldest entry makes room for the new one. A capacity of zero turns the
//! filter off.

use crate::bot::keyed::{
    has_key, keys_distinct, lemma_to_map_push, lemma_to_map_remove, to_map,
};
use crate::text::{chars_eq, chars_of};
use vstd::prelude::*;

verus! {

/// Seconds between `ts` and `now`; zero when `ts` lies after `now`.
pub open spec fn age(now: u64, ts: u64) -> int {
    if now >= ts {
        now - ts
    } else {
        0
    }
}

/// The entries of `s` that are at most `ttl` seconds old at `now`, in order.
pub open spec fn fresh_entries(s: Seq<(Seq<char>, u64)>, now: u64, ttl: u64) -> Seq<
    (Seq<char>, u64),
>
    decreases s.len(),
{
    if s.len() == 0 {
        s
    } else {
        let p = fresh_entries(s.drop_last(), now, ttl);
        if age(now, s.last().1) <= ttl {
            p.push(s.last())
        } else {
            p
        }
    }
}

/// The index of the first entry with the smallest time.
pub open spec fn oldest_index(s: Seq<(Seq<char>, u64)>) -> int
    decreases s.len(),
{
    if s.len() <= 1 {
        0
    } else {
        let j = oldest_index(s.drop_last());
        if s.last().1 < s[j].1 {
            s.len() - 1
        } else {
            j
        }
    }
}

/// One check of `key` at `now`: whether it is a repeat, and the entries
/// afterwards.
pub open spec fn spec_check(s: Seq<(Seq<char>, u64)>, key: Seq<char>, now: u64, ttl: u64, cap: usize) -> (
    bool,
    Seq<(Seq<char>, u64)>,
) {
    if cap == 0 {
        (false, s)
    } else {
        let f = fresh_entries(s, now, ttl);
        if has_key(f, key) {
            (true, f)
        } else {
            let room = if f.len() >= cap {
                f.remove(oldest_index(f))
            } else {
                f
            };
            (false, room.push((key, now)))
        }
    }
}

/// The views of the entries of a filter.
pub open spec fn stamp_views(v: Seq<(String, u64)>) -> Seq<(Seq<char>, u64)> {
    v.map_values(|e: (String, u64)| (e.0@, e.1))
}

/// Remembers recently seen message ids.
pub struct Deduper {
    entries: Vec<(String, u64)>,
    ttl: u64,
    cap: usize,
}

impl View for Deduper {
    type V = Map<Seq<char>, u64>;

    /// Each remembered id and the time it was first seen.
    closed spec fn view(&self) -> Map<Seq<char>, u64> {
        to_map(stamp_views(self.entries@))
    }
}

/// Lemmas on fresh entries.
proof fn lemma_fresh(s: Seq<(Seq<char>, u64)>, now: u64, ttl: u64)
    ensures
        fresh_entries(s, now, ttl).len() <= s.len(),
        forall|k: Seq<char>|
            #![trigger has_key(fresh_entries(s, now, ttl), k)]
            has_key(fresh_entries(s, now, ttl), k) ==> has_key(s, k),
        forall|i: int|
            0 <= i < fresh_entries(s, now, ttl).len() ==> age(
                now,
                (#[trigger] fresh_entries(s, now, ttl)[i]).1,
            ) <= ttl,
        keys_distinct(s) ==> keys_distinct(fresh_entries(s, now, ttl)),
    decreases s.len(),
{
    if s.len() > 0 {
        let p = s.drop_last();
        lemma_fresh(p, now, ttl);
        let fp = fresh_entries(p, now, ttl);
        let f = fresh_entries(s, now, ttl);
        assert forall|k: Seq<char>| has_key(f, k) implies has_key(s, k) by {
            let i = choose|i: int| 0 <= i < f.len() && #[trigger] f[i].0 == k;
            if i < fp.len() {
                assert(f[i] == fp[i]);
                assert(has_key(fp, k));
                let j = choose|j: int| 0 <= j < p.len() && #[trigger] p[j].0 == k;
                assert(s[j].0 == k);
            } else {
                assert(s[s.len() - 1].0 == k);
            }
        }
        assert forall|i: int| 0 <= i < f.len() implies age(now, (#[trigger] f[i]).1) <= ttl by {
            if i < fp.len() {
                assert(f[i] == fp[i]);
            }
        }
        if keys_distinct(s) {
            assert(keys_distinct(p)) by {
                assert forall|a: int, b: int|
                    0 <= a < p.len() && 0 <= b < p.len() && a != b implies #[trigger] p[a].0
                    != #[trigger] p[b].0 by {
                    assert(s[a].0 != s[b].0);
                }
            }
            if age(now, s.last().1) <= ttl {
                assert(!has_key(fp, s.last().0)) by {
                    if has_key(fp, s.last().0) {
                        assert(has_key(p, s.last().0));
                        let j = choose|j: int| 0 <= j < p.len() && #[trigger] p[j].0 == s.last().0;
                        assert(s[j].0 == s[s.len() - 1].0);
                    }
                }
                lemma_to_map_push(fp, s.last().0, s.last().1);
                assert(f == fp.push((s.last().0, s.last().1)));
            }
        }
    }
}

/// The oldest index lies within a non-empty list and no entry is older.
proof fn lemma_oldest(s: Seq<(Seq<char>, u64)>)
    requires
        s.len() > 0,
    ensures
        0 <= oldest_index(s) < s.len(),
        forall|i: int| 0 <= i < s.len() ==> s[oldest_index(s)].1 <= #[trigger] s[i].1,
    decreases s.len(),
{
    if s.len() > 1 {
        let p = s.drop_last();
        lemma_oldest(p);
        let j = oldest_index(p);
        assert(s[j] == p[j]);
        assert forall|i: int| 0 <= i < s.len() implies s[oldest_index(s)].1 <= #[trigger] s[i].1 by {
            if i < s.len() - 1 {
                assert(s[i] == p[i]);
            }
        }
    }
}

/// Removing an entry keeps every key absent that was absent before.
proof fn lemma_remove_has_key(s: Seq<(Seq<char>, u64)>, i: int, k: Seq<char>)
    requires
        0 <= i < s.len(),
        !has_key(s, k),
    ensures
        !has_key(s.remove(i), k),
{
    if has_key(s.remove(i), k) {
        let j = choose|j: int| 0 <= j < s.remove(i).len() && #[trigger] s.remove(i)[j].0 == k;
        let j2 = if j < i { j } else { j + 1 };
        assert(s.remove(i)[j] == s[j2]);
    }
}

impl Deduper {
    /// No id is remembered twice.
    pub closed spec fn wf(&self) -> bool {
        keys_distinct(stamp_views(self.entries@))
    }

    /// The remembered ids with their times, oldest insertion first.
    pub closed spec fn stamps(&self) -> Seq<(Seq<char>, u64)> {
        stamp_views(self.entries@)
    }

    /// How long an id is remembered, in seconds.
    pub closed spec fn spec_ttl(&self) -> u64 {
        self.ttl
    }

    /// How many ids are remembered at most; zero turns the filter off.
    pub closed spec fn spec_cap(&self) -> usize {
        self.cap
    }

    /// An empty filter.
    pub fn new(ttl: u64, cap: usize) -> (res: Self)
        ensures
            res.wf(),
            res.stamps() == Seq::<(Seq<char>, u64)>::empty(),
            res@ == Map::<Seq<char>, u64>::empty(),
            res.spec_ttl() == ttl,
            res.spec_cap() == cap,
    {
        let res = Deduper { entries: Vec::new(), ttl, cap };
        assert(stamp_views(res.entries@) =~= Seq::<(Seq<char>, u64)>::empty());
        res
    }

    /// Whether `key` was already seen within the time-to-live at `now`;
    /// remembers it when it was not.
    pub fn is_duplicate(&mut self, key: &str, now: u64) -> (res: bool)
        requires
            old(self).wf(),
        ensures
            final(self).wf(),
            final(self).spec_ttl() == old(self).spec_ttl(),
            final(self).spec_cap() == old(self).spec_cap(),
            (res, final(self).stamps()) == spec_check(
                old(self).stamps(),
                key@,
                now,
                old(self).spec_ttl(),
                old(self).spec_cap(),
            ),
    {
        if self.cap == 0 {
            return false;
        }
        let ghost s = stamp_views(self.entries@);
        proof {
            lemma_fresh(s, now, self.ttl);
        }
        let mut kept: Vec<(String, u64)> = Vec::new();
        let mut i: usize = 0;
        assert(s.take(0) =~= Seq::<(Seq<char>, u64)>::empty());
        while i < self.entries.len()
            invariant
                s == stamp_views(self.entries@),
                i <= self.entries@.len(),
                stamp_views(kept@) == fresh_entries(s.take(i as int), now, self.ttl),
            decreases self.entries@.len() - i,
        {
            let ts = self.entries[i].1;
            let a: u64 = if now >= ts {
                now - ts
            } else {
                0
            };
            assert(s.take(i + 1).drop_last() =~= s.take(i as int));
            assert(s.take(i + 1).last() == s[i as int]);
            if a <= self.ttl {
                let name = self.entries[i].0.clone();
                let ghost before = kept@;
                kept.push((name, ts));
                assert(stamp_views(kept@) =~= stamp_views(before).push(s[i as int]));
            }
            i = i + 1;
        }
        assert(s.take(s.len() as int) =~= s);
        let ghost f = fresh_entries(s, now, self.ttl);
        assert(keys_distinct(f));
        self.entries = kept;
        let k = chars_of(key);
        let mut j: usize = 0;
        while j < self.entries.len()
            invariant
                f == stamp_views(self.entries@),
                keys_distinct(f),
                k@ == key@,
                self.cap > 0,
                s == stamp_views(old(self).entries@),
                f == fresh_entries(s, now, old(self).ttl),
                self.ttl == old(self).ttl,
                self.cap == old(self).cap,
                j <= self.entries@.len(),
                forall|m: int| 0 <= m < j ==> #[trigger] f[m].0 != key@,
            decreases self.entries@.len() - j,
        {
            let name = chars_of(self.entries[j].0.as_str());
            assert(f[j as int].0 == self.entries@[j as int].0@);
            if chars_eq(name.as_slice(), k.as_slice()) {
                assert(f[j as int].0 == key@);
                assert(has_key(f, key@));
                assert(keys_distinct(f));
                return true;
            }
            j = j + 1;
        }
        assert(!has_key(f, key@)) by {
            if has_key(f, key@) {
                let m = choose|m: int| 0 <= m < f.len() && #[trigger] f[m].0 == key@;
                assert(f[m].0 != key@);
            }
        }
        if self.entries.len() >= self.cap {
            let mut best: usize = 0;
            let mut b: usize = 1;
            assert(f.take(1).drop_last().len() == 0);
            while b < self.entries.len()
                invariant
                    f == stamp_views(self.entries@),
                    keys_distinct(f),
                    !has_key(f, key@),
                    self.ttl == old(self).ttl,
                    self.cap == old(self).cap,
                    f.len() >= 1,
                    1 <= b <= f.len(),
                    best as int == oldest_index(f.take(b as int)),
                    best < b,
                decreases f.len() - b,
            {
                assert(f.take(b + 1).drop_last() =~= f.take(b as int));
                assert(f.take(b + 1).last() == f[b as int]);
                assert(f.take(b as int)[best as int] == f[best as int]);
                if self.entries[b].1 < self.entries[best].1 {
                    best = b;
                }
                b = b + 1;
            }
            assert(f.take(f.len() as int) =~= f);
            proof {
                lemma_to_map_remove(f, best as int);
                lemma_remove_has_key(f, best as int, key@);
            }
            self.entries.remove(best);
            assert(stamp_views(self.entries@) =~= f.remove(best as int));
        }
        let ghost room = stamp_views(self.entries@);
        proof {
            lemma_to_map_push(room, key@, now);
        }
        self.entries.push((key.to_string(), now));
        assert(stamp_views(self.entries@) =~= room.push((key@, now)));
        false
    }
}

/// With the filter on, checking the same id twice at the same time reports
/// the second check as a repeat.
pub proof fn law_immediate_repeat(s: Seq<(Seq<char>, u64)>, key: Seq<char>, now: u64, ttl: u64, cap: usize)
    requires
        cap > 0,
    ensures
        spec_check(spec_check(s, key, now, ttl, cap).1, key, now, ttl, cap).0,
{
    let t = spec_check(s, key, now, ttl, cap).1;
    let f = fresh_entries(s, now, ttl);
    lemma_fresh(s, now, ttl);
    if has_key(f, key) {
        lemma_fresh(f, now, ttl);
        let i = choose|i: int| 0 <= i < f.len() && #[trigger] f[i].0 == key;
        lemma_fresh_keeps(f, now, ttl, i);
    } else {
        let n = t.len() - 1;
        assert(t[n] == (key, now));
        lemma_fresh_keeps(t, now, ttl, n);
    }
}

/// With the filter on, an id not seen within the time-to-live is let
/// through at `t1` and reported as a repeat by the next check at any `t2` at
/// most `ttl` seconds later.
pub proof fn law_repeat_within_ttl(
    s: Seq<(Seq<char>, u64)>,
    key: Seq<char>,
    t1: u64,
    t2: u64,
    ttl: u64,
    cap: usize,
)
    requires
        cap > 0,
        !has_key(fresh_entries(s, t1, ttl), key),
        age(t2, t1) <= ttl,
    ensures
        !spec_check(s, key, t1, ttl, cap).0,
        spec_check(spec_check(s, key, t1, ttl, cap).1, key, t2, ttl, cap).0,
{
    let t = spec_check(s, key, t1, ttl, cap).1;
    let n = t.len() - 1;
    assert(t[n] == (key, t1));
    lemma_fresh_keeps(t, t2, ttl, n);
}

/// An entry that is fresh stays in the fresh entries.
proof fn lemma_fresh_keeps(s: Seq<(Seq<char>, u64)>, now: u64, ttl: u64, i: int)
    requires
        0 <= i < s.len(),
        age(now, s[i].1) <= ttl,
    ensures
        has_key(fresh_entries(s, now, ttl), s[i].0),
    decreases s.len(),
{
    let p = s.drop_last();
    let f = fresh_entries(s, now, ttl);
    if i == s.len() - 1 {
        assert(f.last() == s[i]);
    } else {
        assert(s[i] == p[i]);
        lemma_fresh_keeps(p, now, ttl, i);
        let fp = fresh_entries(p, now, ttl);
        let j = choose|j: int| 0 <= j < fp.len() && #[trigger] fp[j].0 == s[i].0;
        assert(f[j] == fp[j]);
    }
}

/// A check never lets the filter hold more ids than its capacity when it
/// held no more before.
pub proof fn law_capacity_kept(s: Seq<(Seq<char>, u64)>, key: Seq<char>, now: u64, ttl: u64, cap: usize)
    requires
        s.len() <= cap,
    ensures
        spec_check(s, key, now, ttl, cap).1.len() <= cap,
{
    lemma_fresh(s, now, ttl);
    let f = fresh_entries(s, now, ttl);
    if cap > 0 && !has_key(f, key) && f.len() >= cap {
        lemma_oldest(f);
    }
}

/// A check keeps each id at most once.
pub proof fn law_ids_stay_distinct(s: Seq<(Seq<char>, u64)>, key: Seq<char>, now: u64, ttl: u64, cap: usize)
    requires
        keys_distinct(s),
    ensures
        keys_distinct(spec_check(s, key, now, ttl, cap).1),
{
    lemma_fresh(s, now, ttl);
    let f = fresh_entries(s, now, ttl);
    if cap > 0 && !has_key(f, key) {
        if f.len() >= cap {
            lemma_oldest(f);
            lemma_to_map_remove(f, oldest_index(f));
            lemma_remove_has_key(f, oldest_index(f), key);
            lemma_to_map_push(f.remove(oldest_index(f)), key, now);
        } else {
            lemma_to_map_push(f, key, now);
        }
    }
}

/// With capacity zero the filter reports nothing and remembers nothing new.
pub proof fn law_zero_capacity_is_off(s: Seq<(Seq<char>, u64)>, key: Seq<char>, now: u64, ttl: u64)
    ensures
        spec_check(s, key, now, ttl, 0) == (false, s),
{
}

/// When the filter is full and a new id arrives, exactly one remembered id
/// leaves, one with the oldest time: every other fresh id stays remembered,
/// the new id is remembered, and the number of ids stays the same.
pub proof fn law_full_filter_drops_only_oldest(
    s: Seq<(Seq<char>, u64)>,
    key: Seq<char>,
    now: u64,
    ttl: u64,
    cap: usize,
)
    requires
        cap > 0,
        keys_distinct(s),
        !has_key(fresh_entries(s, now, ttl), key),
        fresh_entries(s, now, ttl).len() >= cap,
    ensures
        ({
            let f = fresh_entries(s, now, ttl);
            let t = spec_check(s, key, now, ttl, cap).1;
            &&& !spec_check(s, key, now, ttl, cap).0
            &&& t.len() == f.len()
            &&& has_key(t, key)
            &&& exists|j: int|
                #![trigger f[j]]
                0 <= j < f.len() && !has_key(t, f[j].0) && (forall|i: int|
                    0 <= i < f.len() ==> f[j].1 <= #[trigger] f[i].1) && (forall|i: int|
                    0 <= i < f.len() && i != j ==> has_key(t, #[trigger] f[i].0))
        }),
{
    let f = fresh_entries(s, now, ttl);
    lemma_fresh(s, now, ttl);
    lemma_oldest(f);
    let j = oldest_index(f);
    let r = f.remove(j);
    let t = spec_check(s, key, now, ttl, cap).1;
    assert(t == r.push((key, now)));
    assert(t[t.len() - 1] == (key, now));
    assert(t[t.len() - 1].0 == key);
    assert(has_key(t, key));
    assert(t.len() == f.len());
    assert(!has_key(t, f[j].0)) by {
        if has_key(t, f[j].0) {
            let m = choose|m: int| 0 <= m < t.len() && #[trigger] t[m].0 == f[j].0;
            if m == t.len() - 1 {
                assert(has_key(f, key));
            } else {
                assert(t[m] == r[m]);
                let m2 = if m < j { m } else { m + 1 };
                assert(r[m] == f[m2]);
                assert(m2 != j);
            }
        }
    }
    assert forall|i: int| 0 <= i < f.len() && i != j implies has_key(t, #[trigger] f[i].0) by {
        let m = if i < j { i } else { i - 1 };
        assert(r[m] == f[i]);
        assert(t[m] == r[m]);
        assert(t[m].0 == f[i].0);
    }
    assert(0 <= j < f.len() && !has_key(t, f[j].0) && (forall|i: int|
        0 <= i < f.len() ==> f[j].1 <= #[trigger] f[i].1) && (forall|i: int|
        0 <= i < f.len() && i != j ==> has_key(t, #[trigger] f[i].0)));
}

} // verus!
