//! One scheduling pass: which due ids the scheduler acts on, and which
//! entries it may drop from the `pending_jobs` sorted set afterwards.
//!
//! The pass reads due ids without removing them, moves the pending ones to
//! queued with a conditional UPDATE, announces each moved job on the stream,
//! and only then removes entries from the sorted set. An entry leaves the
//! sorted set only once its job is on the stream, or when the UPDATE showed
//! that the job was not pending any more; a crash at any point leaves every
//! other entry in place for the next pass.

use vstd::prelude::*;
use crate::text::{parse_i32, parse_i32_text};

verus! {

/// How long the scheduler sleeps between passes.
pub const POLL_INTERVAL_MS: u64 = 500;

/// How many due entries one pass reads from the sorted set.
pub const PASS_LIMIT: isize = 100;

/// The values present in a sequence of options, in order.
pub open spec fn somes(s: Seq<Option<i32>>) -> Seq<i32>
    decreases s.len(),
{
    if s.len() == 0 {
        Seq::empty()
    } else {
        match s.last() {
            Some(x) => somes(s.drop_last()).push(x),
            None => somes(s.drop_last()),
        }
    }
}

/// Exactly the values present among the options are kept.
pub proof fn somes_members(s: Seq<Option<i32>>, x: i32)
    ensures
        somes(s).contains(x) <==> exists|i: int| 0 <= i < s.len() && s[i] == Some(x),
    decreases s.len(),
{
    if s.len() > 0 {
        let rest = s.drop_last();
        somes_members(rest, x);
        vstd::seq_lib::lemma_seq_contains_after_push(somes(rest), s.last()->0, x);
        if exists|i: int| 0 <= i < s.len() && s[i] == Some(x) {
            let i: int = choose|i: int| 0 <= i < s.len() && s[i] == Some(x);
            if i < rest.len() {
                assert(rest[i] == s[i]);
            }
        }
        if exists|i: int| 0 <= i < rest.len() && rest[i] == Some(x) {
            let i: int = choose|i: int| 0 <= i < rest.len() && rest[i] == Some(x);
            assert(s[i] == rest[i]);
        }
    }
}

/// Every member that `str::parse::<i32>` accepts is among the due ids, and
/// every due id comes from such a member.
pub proof fn parsed_members_are_due(members: Seq<String>, x: i32)
    ensures
        somes(members.map_values(|m: String| parse_i32(m@))).contains(x)
            <==> exists|i: int| 0 <= i < members.len() && parse_i32(members[i]@) == Some(x),
{
    let ps = members.map_values(|m: String| parse_i32(m@));
    somes_members(ps, x);
    if exists|i: int| 0 <= i < members.len() && parse_i32(members[i]@) == Some(x) {
        let i: int = choose|i: int| 0 <= i < members.len() && parse_i32(members[i]@) == Some(x);
        assert(ps[i] == Some(x));
    }
}

/// Keeps the ids that parsed, in order, and drops the rest.
pub fn keep_parsed(parsed: &Vec<Option<i32>>) -> (ids: Vec<i32>)
    ensures
        ids@ == somes(parsed@),
{
    let mut ids: Vec<i32> = Vec::new();
    let mut i: usize = 0;
    assert(parsed@.take(0) == Seq::<Option<i32>>::empty());
    while i < parsed.len()
        invariant
            i <= parsed.len(),
            ids@ == somes(parsed@.take(i as int)),
        decreases parsed.len() - i,
    {
        assert(parsed@.take(i + 1).drop_last() == parsed@.take(i as int));
        assert(parsed@.take(i + 1).last() == parsed@[i as int]);
        match parsed[i] {
            Some(x) => ids.push(x),
            None => {},
        }
        i = i + 1;
    }
    assert(parsed@.take(parsed.len() as int) == parsed@);
    ids
}

/// The job ids among the members that the sorted set returned: members that
/// do not parse as an `i32` are skipped.
pub fn due_job_ids(members: &Vec<String>) -> (ids: Vec<i32>)
    ensures
        ids@ == somes(members@.map_values(|m: String| parse_i32(m@))),
{
    let mut parsed: Vec<Option<i32>> = Vec::new();
    let mut i: usize = 0;
    while i < members.len()
        invariant
            i <= members.len(),
            parsed@ == members@.take(i as int).map_values(|m: String| parse_i32(m@)),
        decreases members.len() - i,
    {
        let p = parse_i32_text(members[i].as_str());
        parsed.push(p);
        assert(members@.take(i + 1) == members@.take(i as int).push(members@[i as int]));
        i = i + 1;
    }
    assert(members@.take(members.len() as int) == members@);
    keep_parsed(&parsed)
}

/// The ids of the jobs that the conditional UPDATE moved to queued.
pub open spec fn moved_ids(moved: Seq<(i32, bool)>) -> Seq<i32> {
    moved.map_values(|p: (i32, bool)| p.0)
}

/// The ids among the first `n` pairs whose write succeeded, in order: for
/// the scheduler, the moved jobs that were announced on the stream.
pub open spec fn confirmed(moved: Seq<(i32, bool)>, n: nat) -> Seq<i32>
    decreases n,
{
    if n == 0 {
        Seq::empty()
    } else if moved[n - 1].1 {
        confirmed(moved, (n - 1) as nat).push(moved[n - 1].0)
    } else {
        confirmed(moved, (n - 1) as nat)
    }
}

/// The due ids among the first `n` that the UPDATE did not move: jobs that
/// were no longer pending.
pub open spec fn stale(due: Seq<i32>, ids: Seq<i32>, n: nat) -> Seq<i32>
    decreases n,
{
    if n == 0 {
        Seq::empty()
    } else if ids.contains(due[n - 1]) {
        stale(due, ids, (n - 1) as nat)
    } else {
        stale(due, ids, (n - 1) as nat).push(due[n - 1])
    }
}

/// The entries that a pass removes from the sorted set: the announced jobs
/// in the order they were announced, then the stale ids in due order.
pub open spec fn removal(due: Seq<i32>, moved: Seq<(i32, bool)>) -> Seq<i32> {
    confirmed(moved, moved.len()) + stale(due, moved_ids(moved), due.len())
}

fn was_moved(moved: &Vec<(i32, bool)>, x: i32) -> (r: bool)
    ensures
        r == moved_ids(moved@).contains(x),
{
    let mut i: usize = 0;
    while i < moved.len()
        invariant
            i <= moved.len(),
            forall|k: int| 0 <= k < i ==> moved@[k].0 != x,
        decreases moved.len() - i,
    {
        if moved[i].0 == x {
            assert(moved_ids(moved@)[i as int] == x);
            return true;
        }
        i = i + 1;
    }
    assert forall|k: int| 0 <= k < moved_ids(moved@).len() implies moved_ids(moved@)[k] != x by {
        assert(moved_ids(moved@)[k] == moved@[k].0);
    }
    false
}

/// The ids to remove from the sorted set after a pass: `due` are the ids
/// read; `moved` are the ids that the conditional UPDATE moved from pending
/// to queued, each with whether it was then added to the stream.
pub fn ids_to_remove(due: &Vec<i32>, moved: &Vec<(i32, bool)>) -> (r: Vec<i32>)
    ensures
        r@ == removal(due@, moved@),
{
    let mut r: Vec<i32> = Vec::new();
    let mut i: usize = 0;
    while i < moved.len()
        invariant
            i <= moved.len(),
            r@ == confirmed(moved@, i as nat),
        decreases moved.len() - i,
    {
        let (id, enqueued) = moved[i];
        if enqueued {
            r.push(id);
        }
        i = i + 1;
    }
    let ghost head = r@;
    let mut j: usize = 0;
    while j < due.len()
        invariant
            j <= due.len(),
            head == confirmed(moved@, moved@.len()),
            r@ == head + stale(due@, moved_ids(moved@), j as nat),
        decreases due.len() - j,
    {
        let x: i32 = due[j];
        if !was_moved(moved, x) {
            r.push(x);
        }
        j = j + 1;
    }
    r
}

/// An id is confirmed exactly when some pair carries it with a success.
pub proof fn confirmed_members(moved: Seq<(i32, bool)>, n: nat, x: i32)
    requires
        n <= moved.len(),
    ensures
        confirmed(moved, n).contains(x) <==> exists|i: int| 0 <= i < n && moved[i] == (x, true),
    decreases n,
{
    if n > 0 {
        confirmed_members(moved, (n - 1) as nat, x);
        let prev = confirmed(moved, (n - 1) as nat);
        vstd::seq_lib::lemma_seq_contains_after_push(prev, moved[n - 1].0, x);
        if exists|i: int| 0 <= i < n && moved[i] == (x, true) {
            let i: int = choose|i: int| 0 <= i < n && moved[i] == (x, true);
            if i < n - 1 {
                assert(exists|i: int| 0 <= i < n - 1 && moved[i] == (x, true));
            }
        }
    }
}

proof fn lemma_stale_members(due: Seq<i32>, ids: Seq<i32>, n: nat, x: i32)
    requires
        n <= due.len(),
    ensures
        stale(due, ids, n).contains(x) <==> (due.take(n as int).contains(x) && !ids.contains(x)),
    decreases n,
{
    if n > 0 {
        lemma_stale_members(due, ids, (n - 1) as nat, x);
        let prev = stale(due, ids, (n - 1) as nat);
        let d: i32 = due[n - 1];
        assert(due.take(n as int) == due.take(n - 1).push(d));
        vstd::seq_lib::lemma_seq_contains_after_push(due.take(n - 1), d, x);
        vstd::seq_lib::lemma_seq_contains_after_push(prev, d, x);
    } else {
        assert(due.take(0) == Seq::<i32>::empty());
    }
}

/// A pass removes exactly the sorted-set entries whose jobs it announced on
/// the stream, plus the due entries whose jobs it found no longer pending;
/// every other entry stays for the next pass.
pub proof fn removal_is_exact(due: Seq<i32>, moved: Seq<(i32, bool)>, x: i32)
    ensures
        removal(due, moved).contains(x) <==> (
            (exists|i: int| 0 <= i < moved.len() && moved[i] == (x, true))
            || (due.contains(x) && !moved_ids(moved).contains(x))
        ),
{
    let a = confirmed(moved, moved.len());
    let s = stale(due, moved_ids(moved), due.len());
    confirmed_members(moved, moved.len(), x);
    lemma_stale_members(due, moved_ids(moved), due.len(), x);
    assert(due.take(due.len() as int) == due);
    vstd::seq_lib::lemma_seq_concat_contains_all_elements(a, s, x);
}

/// A job that the pass moved to queued but could not announce on the stream
/// keeps its sorted-set entry, so that a later pass (or the stale-queued
/// sweeper) announces it.
pub proof fn unannounced_job_keeps_its_entry(due: Seq<i32>, moved: Seq<(i32, bool)>, i: int)
    requires
        moved_ids(moved).no_duplicates(),
        0 <= i < moved.len(),
        !moved[i].1,
    ensures
        !removal(due, moved).contains(moved[i].0),
{
    removal_is_exact(due, moved, moved[i].0);
    assert(moved_ids(moved)[i] == moved[i].0);
    assert(moved_ids(moved).contains(moved[i].0));
    if exists|k: int| 0 <= k < moved.len() && moved[k] == (moved[i].0, true) {
        let k: int = choose|k: int| 0 <= k < moved.len() && moved[k] == (moved[i].0, true);
        assert(moved_ids(moved)[k] == moved_ids(moved)[i]);
    }
}

/// A due entry whose job was no longer pending is cleaned up by the pass.
pub proof fn stale_entries_are_removed(due: Seq<i32>, moved: Seq<(i32, bool)>, x: i32)
    requires
        due.contains(x),
        !moved_ids(moved).contains(x),
    ensures
        removal(due, moved).contains(x),
{
    removal_is_exact(due, moved, x);
}

} // verus!
