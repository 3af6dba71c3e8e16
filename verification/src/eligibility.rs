//! Eligibility evaluator: which reminders a scheduling tick selects from
//! a snapshot, and in what order.
//!
//! The schedule is described as positions into the snapshot: the due
//! positions, sorted by priority descending, then fire time ascending,
//! then position (which makes the order total and the sort stable), and
//! cut to the batch limit.

use vstd::prelude::*;
use vstd::relations::{sorted_by, total_ordering};
use vstd::seq_lib::{lemma_multiset_commutative, lemma_sorted_unique};

use crate::model::Reminder;

verus! {

/// Due: active, fire time passed, snooze absent or lapsed.
pub open spec fn spec_is_due(r: Reminder, now: i64) -> bool {
    &&& r.status is Active
    &&& match r.next_trigger_at {
        Some(t) => t <= now,
        None => false,
    }
    &&& match r.snooze_until {
        Some(s) => s <= now,
        None => true,
    }
}

/// Decides whether a reminder is due at `now`.
pub fn is_due(r: &Reminder, now: i64) -> (b: bool)
    ensures
        b == spec_is_due(*r, now),
{
    if !matches!(r.status, crate::model::ReminderStatus::Active) {
        return false;
    }
    let fire_passed: bool = match r.next_trigger_at {
        Some(t) => t <= now,
        None => false,
    };
    if !fire_passed {
        return false;
    }
    match r.snooze_until {
        Some(s) => s <= now,
        None => true,
    }
}

/// Whether the reminder at position `i` of the snapshot fires no later
/// than the one at position `j`: higher priority first, then earlier
/// fire time, then lower position. A total order on positions.
pub open spec fn spec_fires_before(s: Seq<Reminder>, i: usize, j: usize) -> bool {
    let ri = s[i as int];
    let rj = s[j as int];
    ||| ri.priority > rj.priority
    ||| (ri.priority == rj.priority && ri.next_trigger_at->0 < rj.next_trigger_at->0)
    ||| (ri.priority == rj.priority && ri.next_trigger_at->0 == rj.next_trigger_at->0 && i <= j)
}

/// The due ordering of one snapshot, as a relation on positions.
pub open spec fn due_order(s: Seq<Reminder>) -> spec_fn(usize, usize) -> bool {
    |i: usize, j: usize| spec_fires_before(s, i, j)
}

/// The due ordering is a total ordering on positions.
pub proof fn lemma_due_order_total(s: Seq<Reminder>)
    ensures
        total_ordering(due_order(s)),
{
    let r = due_order(s);
    assert forall|x: usize| #[trigger] r(x, x) by {}
    assert forall|x: usize, y: usize| #[trigger] r(x, y) && #[trigger] r(y, x) implies x == y by {}
    assert forall|x: usize, y: usize, z: usize|
        #[trigger] r(x, y) && #[trigger] r(y, z) implies r(x, z) by {}
    assert forall|x: usize, y: usize| #[trigger] r(x, y) || #[trigger] r(y, x) by {}
}

/// The first `n` positions, in order.
pub open spec fn position_seq(n: nat) -> Seq<usize> {
    Seq::new(n, |i: int| i as usize)
}

/// Dueness at `now`, as a predicate on positions of the snapshot.
pub open spec fn due_pred(s: Seq<Reminder>, now: i64) -> spec_fn(usize) -> bool {
    |u: usize| spec_is_due(s[u as int], now)
}

/// The positions of the snapshot that are due at `now`, in position order.
pub open spec fn due_positions(s: Seq<Reminder>, now: i64) -> Seq<usize> {
    position_seq(s.len()).filter(due_pred(s, now))
}

/// The schedule of one tick: the due positions, sorted by the due
/// ordering, cut to the batch limit.
pub open spec fn spec_due_schedule(s: Seq<Reminder>, now: i64, limit: int) -> Seq<usize> {
    let sorted = due_positions(s, now).sort_by(due_order(s));
    if limit < sorted.len() {
        sorted.take(limit)
    } else {
        sorted
    }
}

/// Whether `i` fires before `j` in the snapshot. Positions must be in
/// range and carry a fire time, which every due reminder does.
fn fires_before(reminders: &Vec<Reminder>, i: usize, j: usize) -> (b: bool)
    requires
        i < reminders@.len(),
        j < reminders@.len(),
        reminders@[i as int].next_trigger_at is Some,
        reminders@[j as int].next_trigger_at is Some,
    ensures
        b == spec_fires_before(reminders@, i, j),
{
    let ri = &reminders[i];
    let rj = &reminders[j];
    if ri.priority > rj.priority {
        return true;
    }
    if ri.priority != rj.priority {
        return false;
    }
    let ti: i64 = match ri.next_trigger_at {
        Some(t) => t,
        None => 0,
    };
    let tj: i64 = match rj.next_trigger_at {
        Some(t) => t,
        None => 0,
    };
    if ti < tj {
        true
    } else if ti == tj {
        i <= j
    } else {
        false
    }
}

/// Inserting into a sequence adds exactly that element to its multiset.
proof fn lemma_insert_to_multiset<A>(s: Seq<A>, i: int, x: A)
    requires
        0 <= i <= s.len(),
    ensures
        s.insert(i, x).to_multiset() =~= s.to_multiset().insert(x),
{
    broadcast use vstd::seq_lib::group_to_multiset_ensures;
    broadcast use vstd::multiset::group_multiset_axioms;

    let a = s.subrange(0, i);
    let b = s.subrange(i, s.len() as int);
    assert(s =~= a + b);
    assert(s.insert(i, x) == a.push(x) + b);
    lemma_multiset_commutative(a, b);
    lemma_multiset_commutative(a.push(x), b);
    let ma = a.to_multiset();
    let mb = b.to_multiset();
    assert(a.push(x).to_multiset() =~= ma.insert(x));
    assert(ma.insert(x).add(mb) =~= ma.add(mb).insert(x));
}

/// Filtering a duplicate-free sequence leaves it duplicate-free.
proof fn lemma_filter_no_duplicates<A>(s: Seq<A>, p: spec_fn(A) -> bool)
    requires
        s.no_duplicates(),
    ensures
        s.filter(p).no_duplicates(),
    decreases s.len(),
{
    reveal(Seq::filter);
    if s.len() > 0 {
        let rest = s.drop_last();
        lemma_filter_no_duplicates(rest, p);
        if p(s.last()) {
            assert forall|i: int, j: int|
                0 <= i < rest.filter(p).len() && 0 <= j < rest.filter(p).len() && i != j implies
                rest.filter(p)[i] != rest.filter(p)[j] by {}
            if rest.filter(p).contains(s.last()) {
                rest.lemma_filter_contains_rev(p, s.last());
                assert(exists|i: int| 0 <= i < rest.len() && rest[i] == s.last());
                assert(false);
            }
        }
    }
}

/// Every entry of the schedule is the position of a due reminder, no
/// position appears twice, and the schedule holds as many of the due
/// positions as the batch limit admits.
pub proof fn lemma_due_schedule_members(s: Seq<Reminder>, now: i64, limit: int)
    requires
        0 <= limit,
        s.len() <= usize::MAX,
    ensures
        forall|k: int|
            0 <= k < spec_due_schedule(s, now, limit).len() ==> (#[trigger] spec_due_schedule(
                s,
                now,
                limit,
            )[k]) < s.len() && spec_is_due(s[spec_due_schedule(s, now, limit)[k] as int], now),
        spec_due_schedule(s, now, limit).no_duplicates(),
        spec_due_schedule(s, now, limit).len() == if limit < due_positions(s, now).len() {
            limit
        } else {
            due_positions(s, now).len() as int
        },
{
    broadcast use vstd::seq_lib::group_to_multiset_ensures;

    let positions = position_seq(s.len());
    let pred = due_pred(s, now);
    let duepos = due_positions(s, now);
    let ord = due_order(s);
    let sorted = duepos.sort_by(ord);
    let sched = spec_due_schedule(s, now, limit);
    lemma_due_order_total(s);
    duepos.lemma_sort_by_ensures(ord);
    assert(sorted.len() == duepos.len()) by {
        assert(sorted.to_multiset().len() == duepos.to_multiset().len());
    }
    assert forall|k: int| 0 <= k < sched.len() implies (#[trigger] sched[k]) < s.len()
        && spec_is_due(s[sched[k] as int], now) by {
        assert(sched[k] == sorted[k]);
        assert(sorted.contains(sorted[k]));
        assert(sorted.to_multiset().contains(sorted[k]));
        assert(duepos.to_multiset().contains(sorted[k]));
        assert(duepos.contains(sorted[k]));
        broadcast use vstd::seq_lib::group_filter_ensures;

        let w = choose|w: int| 0 <= w < duepos.len() && duepos[w] == sorted[k];
        assert(pred(duepos[w]));
        positions.lemma_filter_contains_rev(pred, duepos[w]);
        let v = choose|v: int| 0 <= v < positions.len() && positions[v] == duepos[w];
        assert(duepos[w] == v as usize);
    }
    assert(positions.no_duplicates());
    lemma_filter_no_duplicates(positions, pred);
    duepos.lemma_multiset_has_no_duplicates();
    sorted.lemma_multiset_has_no_duplicates_conv();
    assert(sched.no_duplicates());
}

/// LAW (due-set completeness): every reminder that is active, past its
/// fire time and past any snooze stands in the tick's schedule whenever
/// the due set fits the batch limit.
pub proof fn lemma_due_schedule_complete(s: Seq<Reminder>, now: i64, limit: int)
    requires
        0 <= limit,
        s.len() <= usize::MAX,
        due_positions(s, now).len() <= limit,
    ensures
        forall|p: int|
            0 <= p < s.len() && #[trigger] spec_is_due(s[p], now) ==> spec_due_schedule(
                s,
                now,
                limit,
            ).contains(p as usize),
{
    broadcast use vstd::seq_lib::group_to_multiset_ensures;

    let positions = position_seq(s.len());
    let pred = due_pred(s, now);
    let duepos = due_positions(s, now);
    let ord = due_order(s);
    let sorted = duepos.sort_by(ord);
    lemma_due_order_total(s);
    duepos.lemma_sort_by_ensures(ord);
    assert(sorted.len() == duepos.len()) by {
        assert(sorted.to_multiset().len() == duepos.to_multiset().len());
    }
    assert forall|p: int| 0 <= p < s.len() && #[trigger] spec_is_due(s[p], now) implies
        spec_due_schedule(s, now, limit).contains(p as usize) by {
        assert(positions[p] == p as usize);
        assert(pred(positions[p]));
        positions.lemma_filter_contains(pred, p);
        assert(duepos.contains(p as usize));
        assert(duepos.to_multiset().contains(p as usize));
        assert(sorted.to_multiset().contains(p as usize));
        assert(sorted.contains(p as usize));
        assert(spec_due_schedule(s, now, limit) == sorted);
    }
}

/// LAW (due-set order): the schedule is ordered by priority descending,
/// then fire time ascending; the position tie-break makes the order, and
/// with it the whole selection, deterministic over a snapshot.
pub proof fn lemma_due_schedule_ordered(s: Seq<Reminder>, now: i64, limit: int)
    requires
        0 <= limit,
    ensures
        forall|a: int, b: int|
            0 <= a < b < spec_due_schedule(s, now, limit).len() ==> spec_fires_before(
                s,
                #[trigger] spec_due_schedule(s, now, limit)[a],
                #[trigger] spec_due_schedule(s, now, limit)[b],
            ),
{
    let duepos = due_positions(s, now);
    let ord = due_order(s);
    let sorted = duepos.sort_by(ord);
    let sched = spec_due_schedule(s, now, limit);
    lemma_due_order_total(s);
    duepos.lemma_sort_by_ensures(ord);
    assert forall|a: int, b: int| 0 <= a < b < sched.len() implies spec_fires_before(
        s,
        #[trigger] sched[a],
        #[trigger] sched[b],
    ) by {
        assert(sched[a] == sorted[a] && sched[b] == sorted[b]);
        assert(ord(sorted[a], sorted[b]));
    }
}

/// Computes the positions of the reminders a tick works through: those
/// due at `now`, ordered by priority descending, then fire time
/// ascending, then position, at most `limit` of them.
pub fn due_indices(reminders: &Vec<Reminder>, now: i64, limit: usize) -> (idx: Vec<usize>)
    ensures
        idx@ == spec_due_schedule(reminders@, now, limit as int),
{
    let ghost s = reminders@;
    let ghost pred = due_pred(s, now);
    let ghost positions = position_seq(s.len());

    // Collect the due positions in position order.
    let mut due: Vec<usize> = Vec::new();
    let mut i: usize = 0;
    while i < reminders.len()
        invariant
            i <= s.len(),
            s == reminders@,
            pred == due_pred(s, now),
            due@ == position_seq(i as nat).filter(pred),
        decreases s.len() - i,
    {
        proof {
            let prefix = position_seq(i as nat);
            assert(position_seq((i + 1) as nat) =~= prefix.push(i as usize));
            prefix.lemma_filter_push(i as usize, pred);
            assert(pred(i as usize) == spec_is_due(s[i as int], now));
        }
        if is_due(&reminders[i], now) {
            due.push(i);
        }
        i = i + 1;
    }
    proof {
        broadcast use vstd::seq_lib::group_filter_ensures;

        assert(position_seq(i as nat) == positions);
        assert(due@ == due_positions(s, now));
        assert forall|k: int| 0 <= k < due@.len() implies (#[trigger] due@[k]) < s.len()
            && spec_is_due(s[due@[k] as int], now) by {
            assert(pred(due@[k]));
            positions.lemma_filter_contains_rev(pred, due@[k]);
            let w = choose|w: int| 0 <= w < positions.len() && positions[w] == due@[k];
            assert(due@[k] == w as usize);
        }
    }

    // Insertion sort by the due ordering.
    let ghost ord = due_order(s);
    proof {
        assert(due@.take(0) =~= Seq::<usize>::empty());
    }
    let mut out: Vec<usize> = Vec::new();
    let mut j: usize = 0;
    while j < due.len()
        invariant
            j <= due@.len(),
            s == reminders@,
            ord == due_order(s),
            due@ == due_positions(s, now),
            forall|k: int|
                0 <= k < due@.len() ==> (#[trigger] due@[k]) < s.len() && spec_is_due(
                    s[due@[k] as int],
                    now,
                ),
            sorted_by(out@, ord),
            out@.to_multiset() == due@.take(j as int).to_multiset(),
            forall|k: int|
                0 <= k < out@.len() ==> (#[trigger] out@[k]) < s.len() && spec_is_due(
                    s[out@[k] as int],
                    now,
                ),
        decreases due@.len() - j,
    {
        let x: usize = due[j];
        let mut p: usize = 0;
        while p < out.len() && fires_before(reminders, out[p], x)
            invariant
                p <= out@.len(),
                s == reminders@,
                x < s.len(),
                spec_is_due(s[x as int], now),
                forall|k: int|
                    0 <= k < out@.len() ==> (#[trigger] out@[k]) < s.len() && spec_is_due(
                        s[out@[k] as int],
                        now,
                    ),
                forall|k: int| 0 <= k < p ==> spec_fires_before(s, #[trigger] out@[k], x),
            decreases out@.len() - p,
        {
            p = p + 1;
        }
        proof {
            lemma_due_order_total(s);
            let inserted = out@.insert(p as int, x);
            assert forall|a: int, b: int| 0 <= a < b < inserted.len() implies ord(
                inserted[a],
                inserted[b],
            ) by {
                assert forall|u: usize, v: usize| #[trigger] ord(u, v) == spec_fires_before(
                    s,
                    u,
                    v,
                ) by {}
                if b < p {
                    assert(inserted[a] == out@[a] && inserted[b] == out@[b]);
                    assert(ord(out@[a], out@[b]));
                } else if a < p && b == p {
                    assert(inserted[a] == out@[a] && inserted[b] == x);
                    assert(spec_fires_before(s, out@[a], x));
                } else if a < p && b > p {
                    assert(inserted[a] == out@[a] && inserted[b] == out@[b - 1]);
                    if b - 1 < p {
                        assert(spec_fires_before(s, out@[b - 1], x));
                        assert(ord(out@[a], out@[b - 1]));
                    } else {
                        assert(ord(out@[a], out@[b - 1]));
                    }
                } else if a == p {
                    assert(inserted[a] == x && inserted[b] == out@[b - 1]);
                    assert(p < out@.len());
                    assert(!spec_fires_before(s, out@[p as int], x));
                    assert(ord(x, out@[p as int]));
                    if b - 1 > p {
                        assert(ord(out@[p as int], out@[b - 1]));
                    }
                    assert(ord(x, out@[b - 1]));
                } else {
                    assert(inserted[a] == out@[a - 1] && inserted[b] == out@[b - 1]);
                    assert(ord(out@[a - 1], out@[b - 1]));
                }
            }
            assert(sorted_by(inserted, ord));
            lemma_insert_to_multiset(out@, p as int, x);
            broadcast use vstd::seq_lib::group_to_multiset_ensures;

            assert(due@.take(j + 1) =~= due@.take(j as int).push(x));
            assert(due@.take(j + 1).to_multiset() == due@.take(j as int).to_multiset().insert(x));
            assert forall|k: int| 0 <= k < inserted.len() implies (#[trigger] inserted[k])
                < s.len() && spec_is_due(s[inserted[k] as int], now) by {
                if k < p {
                    assert(inserted[k] == out@[k]);
                } else if k == p {
                    assert(inserted[k] == x);
                } else {
                    assert(inserted[k] == out@[k - 1]);
                }
            }
        }
        out.insert(p, x);
        j = j + 1;
    }

    // The sorted due positions are unique, so they equal the spec's sort.
    proof {
        lemma_due_order_total(s);
        assert(due@.take(j as int) =~= due@);
        due_positions(s, now).lemma_sort_by_ensures(ord);
        lemma_sorted_unique(out@, due_positions(s, now).sort_by(ord), ord);
        assert(out@ == due_positions(s, now).sort_by(ord));
    }
    if limit < out.len() {
        out.truncate(limit);
    }
    out
}

} // verus!
