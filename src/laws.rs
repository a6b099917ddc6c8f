//! Laws of the roster operations, stated over the roster view and proved.
use vstd::prelude::*;

use crate::practice::{merge_into, RosterView, MAIN_CAPACITY, WAITLIST_CAPACITY};
use crate::slots::{
    empty_slots, first_match, lemma_first_match, lemma_occupied_count_bound,
    lemma_occupied_count_update, occupied_count, slot_matches, RecordId, SlotQuery,
};
use crate::user::Side;

verus! {

/// Every slot sequence of the roster has its fixed size.
pub open spec fn sized(r: RosterView) -> bool {
    &&& r.left_main.len() == MAIN_CAPACITY
    &&& r.right_main.len() == MAIN_CAPACITY
    &&& r.left_wait.len() == WAITLIST_CAPACITY
    &&& r.right_wait.len() == WAITLIST_CAPACITY
}

/// The roster of a new practice.
pub open spec fn empty_roster() -> RosterView {
    RosterView {
        left_main: empty_slots(MAIN_CAPACITY as nat),
        right_main: empty_slots(MAIN_CAPACITY as nat),
        left_wait: empty_slots(WAITLIST_CAPACITY as nat),
        right_wait: empty_slots(WAITLIST_CAPACITY as nat),
    }
}

/// The roster after signing up each of `ids`, in order, on `side`.
pub open spec fn place_all(r: RosterView, side: Side, ids: Seq<RecordId>) -> RosterView
    decreases ids.len(),
{
    if ids.len() == 0 {
        r
    } else {
        place_all(r, side, ids.drop_last()).place(side, ids.last())
    }
}

/// A slot sequence has an empty slot exactly when not all slots are taken.
proof fn lemma_has_empty(s: Seq<Option<RecordId>>)
    ensures
        0 <= first_match(s, SlotQuery::Empty) <= s.len(),
        first_match(s, SlotQuery::Empty) < s.len() <==> occupied_count(s) < s.len(),
        first_match(s, SlotQuery::Empty) < s.len() ==> s[first_match(s, SlotQuery::Empty)] is None,
{
    lemma_first_match(s, SlotQuery::Empty);
    lemma_occupied_count_bound(s);
    if first_match(s, SlotQuery::Empty) == s.len() {
        assert forall|j: int| 0 <= j < s.len() implies #[trigger] s[j] is Some by {
            assert(!slot_matches(s[j], SlotQuery::Empty));
        }
    } else {
        let i = first_match(s, SlotQuery::Empty);
        assert(!(s[i] is Some));
    }
}

/// Where a signup lands depends only on how full the side is: the main
/// roster while it has a free slot, then the waitlist while it has one, then
/// nowhere. Each successful signup fills exactly one slot; sizes never change.
pub proof fn lemma_signup_by_occupancy(r: RosterView, side: Side, id: RecordId)
    requires
        side != Side::NA,
    ensures
        r.place_outcome(side) == if occupied_count(r.main_of(side)) < r.main_of(side).len() {
            Some(true)
        } else if occupied_count(r.wait_of(side)) < r.wait_of(side).len() {
            Some(false)
        } else {
            None::<bool>
        },
        r.place(side, id).main_of(side).len() == r.main_of(side).len(),
        r.place(side, id).wait_of(side).len() == r.wait_of(side).len(),
        occupied_count(r.place(side, id).main_of(side)) == occupied_count(r.main_of(side)) + if r.place_outcome(side) == Some(true) {
            1int
        } else {
            0int
        },
        occupied_count(r.place(side, id).wait_of(side)) == occupied_count(r.wait_of(side)) + if r.place_outcome(side) == Some(false) {
            1int
        } else {
            0int
        },
        side == Side::Left ==> r.place(side, id).right_main == r.right_main && r.place(side, id).right_wait == r.right_wait,
        side == Side::Right ==> r.place(side, id).left_main == r.left_main && r.place(side, id).left_wait == r.left_wait,
{
    let m = r.main_of(side);
    let w = r.wait_of(side);
    lemma_has_empty(m);
    lemma_has_empty(w);
    let i = first_match(m, SlotQuery::Empty);
    let j = first_match(w, SlotQuery::Empty);
    if i < m.len() {
        lemma_occupied_count_update(m, i, Some(id));
    } else if j < w.len() {
        lemma_occupied_count_update(w, j, Some(id));
    }
}

/// However many signups a roster takes, no main roster holds more than its
/// capacity and no waitlist more than its own.
pub proof fn lemma_signups_respect_capacity(r: RosterView, side: Side, ids: Seq<RecordId>)
    requires
        side != Side::NA,
        sized(r),
    ensures
        sized(place_all(r, side, ids)),
        occupied_count(place_all(r, side, ids).left_main) <= MAIN_CAPACITY,
        occupied_count(place_all(r, side, ids).right_main) <= MAIN_CAPACITY,
        occupied_count(place_all(r, side, ids).left_wait) <= WAITLIST_CAPACITY,
        occupied_count(place_all(r, side, ids).right_wait) <= WAITLIST_CAPACITY,
    decreases ids.len(),
{
    if ids.len() > 0 {
        lemma_signups_respect_capacity(r, side, ids.drop_last());
        lemma_signup_by_occupancy(place_all(r, side, ids.drop_last()), side, ids.last());
    }
    let f = place_all(r, side, ids);
    lemma_occupied_count_bound(f.left_main);
    lemma_occupied_count_bound(f.right_main);
    lemma_occupied_count_bound(f.left_wait);
    lemma_occupied_count_bound(f.right_wait);
}

/// On a new practice, after `k` signups on one side, `min(k, M)` of them are
/// on its main roster and the rest, up to `W`, on its waitlist. The next
/// signup lands on the main roster while `k < M`, on the waitlist while
/// `M <= k < M + W`, and is refused as full from then on.
pub proof fn lemma_signups_from_empty(side: Side, ids: Seq<RecordId>, next: RecordId)
    requires
        side != Side::NA,
    ensures
        occupied_count(place_all(empty_roster(), side, ids).main_of(side)) == if ids.len()
            < MAIN_CAPACITY {
            ids.len() as int
        } else {
            MAIN_CAPACITY as int
        },
        occupied_count(place_all(empty_roster(), side, ids).wait_of(side)) == if ids.len()
            < MAIN_CAPACITY {
            0int
        } else if ids.len() < MAIN_CAPACITY + WAITLIST_CAPACITY {
            ids.len() - MAIN_CAPACITY
        } else {
            WAITLIST_CAPACITY as int
        },
        place_all(empty_roster(), side, ids).place_outcome(side) == if ids.len() < MAIN_CAPACITY {
            Some(true)
        } else if ids.len() < MAIN_CAPACITY + WAITLIST_CAPACITY {
            Some(false)
        } else {
            None::<bool>
        },
    decreases ids.len(),
{
    let e = empty_roster();
    if ids.len() == 0 {
        assert(occupied_count(empty_slots(0)) == 0);
        lemma_empty_count(MAIN_CAPACITY as nat);
        lemma_empty_count(WAITLIST_CAPACITY as nat);
    } else {
        lemma_signups_from_empty(side, ids.drop_last(), ids.last());
        lemma_signups_respect_capacity(e, side, ids.drop_last());
        lemma_signup_by_occupancy(place_all(e, side, ids.drop_last()), side, ids.last());
    }
    lemma_signups_respect_capacity(e, side, ids);
    lemma_signup_by_occupancy(place_all(e, side, ids), side, next);
}

proof fn lemma_empty_count(n: nat)
    ensures
        occupied_count(empty_slots(n)) == 0,
    decreases n,
{
    if n > 0 {
        assert(empty_slots(n).drop_last() =~= empty_slots((n - 1) as nat));
        lemma_empty_count((n - 1) as nat);
    }
}

/// Withdrawing someone from a main roster whose side has anyone waitlisted
/// moves the lowest-index waitlisted participant into the vacated slot,
/// which therefore does not stay empty, and frees that waitlist slot.
pub proof fn lemma_withdraw_promotes_first_waitlisted(r: RosterView, side: Side, id: RecordId)
    requires
        side != Side::NA,
        first_match(r.main_of(side), SlotQuery::Holding(id)) < r.main_of(side).len(),
        side == Side::Right ==> first_match(r.left_main, SlotQuery::Holding(id)) == r.left_main.len(),
        exists|j: int| 0 <= j < r.wait_of(side).len() && #[trigger] r.wait_of(side)[j] is Some,
    ensures
        ({
            let pos = first_match(r.main_of(side), SlotQuery::Holding(id));
            let k = first_match(r.wait_of(side), SlotQuery::Occupied);
            let w = r.wait_of(side);
            &&& r.main_of(side)[pos] == Some(id)
            &&& 0 <= k < w.len()
            &&& w[k] is Some
            &&& forall|j: int| 0 <= j < k ==> #[trigger] w[j] is None
            &&& r.remove(id) matches Some(out) && {
                &&& out.1 == w[k]
                &&& out.0.main_of(side) == r.main_of(side).update(pos, w[k])
                &&& out.0.main_of(side)[pos] is Some
                &&& out.0.wait_of(side) == w.update(k, None)
            }
        }),
{
    let m = r.main_of(side);
    let w = r.wait_of(side);
    lemma_first_match(m, SlotQuery::Holding(id));
    lemma_first_match(w, SlotQuery::Occupied);
    lemma_first_match(r.left_main, SlotQuery::Holding(id));
    let k = first_match(w, SlotQuery::Occupied);
    let j = choose|j: int| 0 <= j < w.len() && #[trigger] w[j] is Some;
    assert(slot_matches(w[j], SlotQuery::Occupied));
    assert forall|i: int| 0 <= i < k implies #[trigger] w[i] is None by {
        assert(!slot_matches(w[i], SlotQuery::Occupied));
    }
}

/// Given equal numbers of occupied main slots, a signup without preference
/// goes to the left side.
pub proof fn lemma_tie_goes_left(r: RosterView)
    requires
        occupied_count(r.left_main) == occupied_count(r.right_main),
    ensures
        r.resolve_side(Side::NA) == Side::Left,
{
}

/// Carrying waitlist entries over into one side leaves the other side's main
/// roster and both waitlists as they were.
pub proof fn lemma_carryover_side_isolated(r: RosterView, side: Side, entries: Seq<RecordId>)
    requires
        side != Side::NA,
    ensures
        side == Side::Left ==> r.carry_over(side, entries).right_main == r.right_main,
        side == Side::Right ==> r.carry_over(side, entries).left_main == r.left_main,
        r.carry_over(side, entries).left_wait == r.left_wait,
        r.carry_over(side, entries).right_wait == r.right_wait,
{
}

/// A slot that is empty with every slot before it taken is the first empty one.
proof fn lemma_first_empty_at(s: Seq<Option<RecordId>>, i: int)
    requires
        0 <= i < s.len(),
        s[i] is None,
        forall|j: int| 0 <= j < i ==> #[trigger] s[j] is Some,
    ensures
        first_match(s, SlotQuery::Empty) == i,
{
    lemma_first_match(s, SlotQuery::Empty);
    let f = first_match(s, SlotQuery::Empty);
    assert(slot_matches(s[i], SlotQuery::Empty));
    if f < i {
        assert(s[f] is Some);
    }
}

/// Carrying two waitlisted participants over from the previous week puts the
/// first into the lowest empty main slot of the side and the second into the
/// next empty one, leaving every other slot and that side's own waitlist as
/// they were, whenever the whole carryover fits.
pub proof fn lemma_carryover_two_in_order(
    r: RosterView,
    left_entries: Seq<RecordId>,
    right_entries: Seq<RecordId>,
    i1: int,
    i2: int,
)
    requires
        r.carryover_fits(Side::Left, left_entries),
        r.carryover_fits(Side::Right, right_entries),
        left_entries.len() == 2,
        0 <= i1 < i2 < r.left_main.len(),
        r.left_main[i1] is None,
        r.left_main[i2] is None,
        forall|j: int| 0 <= j < i2 && j != i1 ==> #[trigger] r.left_main[j] is Some,
    ensures
        r.carry_over(Side::Left, left_entries).carry_over(Side::Right, right_entries).left_main
            == r.left_main.update(i1, Some(left_entries[0])).update(i2, Some(left_entries[1])),
        r.carry_over(Side::Left, left_entries).carry_over(Side::Right, right_entries).left_wait
            == r.left_wait,
{
    let m = r.left_main;
    let c = left_entries[0];
    let d = left_entries[1];
    let first = left_entries.drop_last();
    assert(first.drop_last() =~= Seq::<RecordId>::empty());
    assert(first.last() == c);
    assert(left_entries.last() == d);
    lemma_first_empty_at(m, i1);
    assert(first.len() == 1);
    assert(merge_into(m, first.drop_last()) == m);
    assert(merge_into(m, first) == m.update(i1, Some(c)));
    assert(left_entries.drop_last() == first);
    let m1 = m.update(i1, Some(c));
    assert forall|j: int| 0 <= j < i2 implies #[trigger] m1[j] is Some by {
        if j != i1 {
            assert(m[j] is Some);
        }
    }
    lemma_first_empty_at(m1, i2);
}

} // verus!
