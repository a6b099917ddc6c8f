//! A practice session and its two rosters.
use vstd::prelude::*;

use crate::clock::{now_millis, valid_instant, HOUR_MS};
use crate::slots::{
    collect_occupants, count_occupied, empty_slots, find_first, first_match, lemma_first_match,
    lemma_occupied_count_bound, lemma_occupied_count_update, new_slots,
    occupants, occupied_count, RecordId, SlotQuery,
};
use crate::user::Side;

verus! {

pub const MAIN_CAPACITY: usize = 17;

pub const WAITLIST_CAPACITY: usize = 6;

#[derive(Clone, Debug, PartialEq, Eq)]
pub enum PracticeError {
    Locked,
    Full,
    UserNotFound,
    NoUserId,
    DatabaseError(String),
    /// Carried-over waitlist entries do not fit in the free main slots.
    NoRoomForCarryover,
}

impl PracticeError {
    /// The human-readable description of the error.
    pub fn message(&self) -> (r: String)
        ensures
            r@ == error_message(*self),
    {
        match self {
            PracticeError::Locked => String::from_str("Practice is locked"),
            PracticeError::Full => String::from_str("Practice and waitlist are full"),
            PracticeError::UserNotFound => String::from_str("User not found"),
            PracticeError::NoUserId => String::from_str("User has no ID"),
            PracticeError::DatabaseError(d) => {
                let mut m = String::from_str("Database error: ");
                m.append(d.as_str());
                m
            },
            PracticeError::NoRoomForCarryover => String::from_str(
                "No room on the main list for the carried-over waitlist",
            ),
        }
    }
}

pub open spec fn error_message(e: PracticeError) -> Seq<char> {
    match e {
        PracticeError::Locked => "Practice is locked"@,
        PracticeError::Full => "Practice and waitlist are full"@,
        PracticeError::UserNotFound => "User not found"@,
        PracticeError::NoUserId => "User has no ID"@,
        PracticeError::DatabaseError(d) => "Database error: "@ + d@,
        PracticeError::NoRoomForCarryover => "No room on the main list for the carried-over waitlist"@,
    }
}

/// The four slot sequences of a practice.
pub struct RosterView {
    pub left_main: Seq<Option<RecordId>>,
    pub right_main: Seq<Option<RecordId>>,
    pub left_wait: Seq<Option<RecordId>>,
    pub right_wait: Seq<Option<RecordId>>,
}

impl RosterView {
    /// The main roster of `side` (`Right` stands for anything but `Left`).
    pub open spec fn main_of(self, side: Side) -> Seq<Option<RecordId>> {
        if side == Side::Left {
            self.left_main
        } else {
            self.right_main
        }
    }

    pub open spec fn wait_of(self, side: Side) -> Seq<Option<RecordId>> {
        if side == Side::Left {
            self.left_wait
        } else {
            self.right_wait
        }
    }

    /// This roster with the main roster and waitlist of `side` replaced.
    pub open spec fn with_side(
        self,
        side: Side,
        main: Seq<Option<RecordId>>,
        wait: Seq<Option<RecordId>>,
    ) -> RosterView {
        if side == Side::Left {
            RosterView { left_main: main, left_wait: wait, ..self }
        } else {
            RosterView { right_main: main, right_wait: wait, ..self }
        }
    }

    /// The side a signup with preference `pref` goes to: the one asked for,
    /// or for `NA` the side with fewer occupied main slots, `Left` on a tie.
    pub open spec fn resolve_side(self, pref: Side) -> Side {
        if pref == Side::NA {
            if occupied_count(self.right_main) >= occupied_count(self.left_main) {
                Side::Left
            } else {
                Side::Right
            }
        } else {
            pref
        }
    }

    /// Where a placement on `side` lands: `Some(true)` on the main roster,
    /// `Some(false)` on the waitlist, `None` when both are full.
    pub open spec fn place_outcome(self, side: Side) -> Option<bool> {
        if first_match(self.main_of(side), SlotQuery::Empty) < self.main_of(side).len() {
            Some(true)
        } else if first_match(self.wait_of(side), SlotQuery::Empty) < self.wait_of(side).len() {
            Some(false)
        } else {
            None
        }
    }

    /// The roster after placing `id` on `side`.
    pub open spec fn place(self, side: Side, id: RecordId) -> RosterView {
        let r = place_in(self.main_of(side), self.wait_of(side), id);
        self.with_side(side, r.0, r.1)
    }

    /// Empties main slot `pos` of `side`, refilled from that side's waitlist
    /// when it holds anyone; also gives the promoted participant.
    pub open spec fn vacate_main(self, side: Side, pos: int) -> (RosterView, Option<RecordId>) {
        let r = vacate_in(self.main_of(side), self.wait_of(side), pos);
        (self.with_side(side, r.0, r.1), r.2)
    }

    /// Removing `id`: looked for on the left main roster, the right main
    /// roster, the left waitlist and the right waitlist, in that order.
    /// `None` when it is on none of them.
    pub open spec fn remove(self, id: RecordId) -> Option<(RosterView, Option<RecordId>)> {
        let q = SlotQuery::Holding(id);
        let a = first_match(self.left_main, q);
        let b = first_match(self.right_main, q);
        let c = first_match(self.left_wait, q);
        let d = first_match(self.right_wait, q);
        if a < self.left_main.len() {
            Some(self.vacate_main(Side::Left, a))
        } else if b < self.right_main.len() {
            Some(self.vacate_main(Side::Right, b))
        } else if c < self.left_wait.len() {
            Some((RosterView { left_wait: self.left_wait.update(c, None), ..self }, None))
        } else if d < self.right_wait.len() {
            Some((RosterView { right_wait: self.right_wait.update(d, None), ..self }, None))
        } else {
            None
        }
    }

    /// Whether the entries carried over into `side` fit in its empty main slots.
    pub open spec fn carryover_fits(self, side: Side, entries: Seq<RecordId>) -> bool {
        entries.len() + occupied_count(self.main_of(side)) <= self.main_of(side).len()
    }

    /// The roster after carrying `entries` into the main roster of `side`.
    pub open spec fn carry_over(self, side: Side, entries: Seq<RecordId>) -> RosterView {
        self.with_side(side, merge_into(self.main_of(side), entries), self.wait_of(side))
    }
}

/// Placing `id` on a side with main roster `m` and waitlist `w`: the first
/// empty main slot, else the first empty waitlist slot, else nowhere. The
/// third part says where: `Some(true)` main, `Some(false)` waitlist, `None`
/// full.
pub open spec fn place_in(m: Seq<Option<RecordId>>, w: Seq<Option<RecordId>>, id: RecordId) -> (
    Seq<Option<RecordId>>,
    Seq<Option<RecordId>>,
    Option<bool>,
) {
    let i = first_match(m, SlotQuery::Empty);
    let j = first_match(w, SlotQuery::Empty);
    if i < m.len() {
        (m.update(i, Some(id)), w, Some(true))
    } else if j < w.len() {
        (m, w.update(j, Some(id)), Some(false))
    } else {
        (m, w, None)
    }
}

/// Clearing main slot `pos`: the occupant of the first occupied waitlist
/// slot, if any, moves into it and is returned as promoted.
pub open spec fn vacate_in(m: Seq<Option<RecordId>>, w: Seq<Option<RecordId>>, pos: int) -> (
    Seq<Option<RecordId>>,
    Seq<Option<RecordId>>,
    Option<RecordId>,
) {
    let k = first_match(w, SlotQuery::Occupied);
    if k < w.len() {
        (m.update(pos, w[k]), w.update(k, None), w[k])
    } else {
        (m.update(pos, None), w, None)
    }
}

/// `entries`, in order, each put into the first empty slot of `main`.
pub open spec fn merge_into(main: Seq<Option<RecordId>>, entries: Seq<RecordId>) -> Seq<
    Option<RecordId>,
>
    decreases entries.len(),
{
    if entries.len() == 0 {
        main
    } else {
        let m = merge_into(main, entries.drop_last());
        m.update(first_match(m, SlotQuery::Empty), Some(entries.last()))
    }
}

/// Merging keeps the length and fills one empty slot per entry, as long as
/// the entries fit.
pub proof fn lemma_merge_into(main: Seq<Option<RecordId>>, entries: Seq<RecordId>)
    requires
        entries.len() + occupied_count(main) <= main.len(),
    ensures
        merge_into(main, entries).len() == main.len(),
        occupied_count(merge_into(main, entries)) == occupied_count(main) + entries.len(),
    decreases entries.len(),
{
    if entries.len() > 0 {
        let e = entries.drop_last();
        lemma_merge_into(main, e);
        let m = merge_into(main, e);
        lemma_first_match(m, SlotQuery::Empty);
        lemma_occupied_count_bound(m);
        let i = first_match(m, SlotQuery::Empty);
        if i == m.len() {
            assert forall|j: int| 0 <= j < m.len() implies #[trigger] m[j] is Some by {
                assert(!crate::slots::slot_matches(m[j], SlotQuery::Empty));
            }
        }
        lemma_occupied_count_update(m, i, Some(entries.last()));
    }
}

/// Places `id` on the side whose main roster is `main` and waitlist `wait`.
fn place_on(main: &mut Vec<Option<RecordId>>, wait: &mut Vec<Option<RecordId>>, id: RecordId) -> (r:
    Option<bool>)
    ensures
        (final(main)@, final(wait)@, r) == place_in(old(main)@, old(wait)@, id),
        final(main)@.len() == old(main)@.len(),
        final(wait)@.len() == old(wait)@.len(),
{
    let i = find_first(main, SlotQuery::Empty);
    if i < main.len() {
        main.set(i, Some(id));
        return Some(true);
    }
    let j = find_first(wait, SlotQuery::Empty);
    if j < wait.len() {
        wait.set(j, Some(id));
        return Some(false);
    }
    None
}

/// Clears main slot `pos` and promotes the first waitlisted participant into it.
fn vacate_on(main: &mut Vec<Option<RecordId>>, wait: &mut Vec<Option<RecordId>>, pos: usize) -> (r:
    Option<RecordId>)
    requires
        pos < old(main)@.len(),
    ensures
        (final(main)@, final(wait)@, r) == vacate_in(old(main)@, old(wait)@, pos as int),
        final(main)@.len() == old(main)@.len(),
        final(wait)@.len() == old(wait)@.len(),
{
    let k = find_first(wait, SlotQuery::Occupied);
    if k < wait.len() {
        let promoted = wait[k];
        wait.set(k, None);
        main.set(pos, promoted);
        promoted
    } else {
        main.set(pos, None);
        None
    }
}

/// Puts each of `entries`, in order, into the first empty slot of `main`.
fn merge_entries(main: &mut Vec<Option<RecordId>>, entries: &Vec<RecordId>)
    requires
        entries@.len() + occupied_count(old(main)@) <= old(main)@.len(),
    ensures
        final(main)@ == merge_into(old(main)@, entries@),
{
    let ghost start = main@;
    let mut k: usize = 0;
    while k < entries.len()
        invariant
            k <= entries.len(),
            entries@.len() + occupied_count(start) <= start.len(),
            main@ == merge_into(start, entries@.take(k as int)),
        decreases entries.len() - k,
    {
        proof {
            lemma_merge_into(start, entries@.take(k as int));
            let m = main@;
            lemma_first_match(m, SlotQuery::Empty);
            lemma_occupied_count_bound(m);
            if first_match(m, SlotQuery::Empty) == m.len() {
                assert(forall|j: int| 0 <= j < m.len() ==> #[trigger] m[j] is Some);
            }
            assert(entries@.take(k as int + 1).drop_last() =~= entries@.take(k as int));
        }
        let i = find_first(main, SlotQuery::Empty);
        main.set(i, Some(entries[k]));
        k = k + 1;
    }
    assert(entries@.take(k as int) =~= entries@);
}

/// A practice session: its timing and the main roster and waitlist of each
/// side. Instants are milliseconds since the Unix epoch.
#[derive(Clone, Debug)]
pub struct Practice {
    pub id: Option<RecordId>,
    pub date: i64,
    pub start_time: i64,
    pub end_time: i64,
    pub left_side: Vec<Option<RecordId>>,
    pub right_side: Vec<Option<RecordId>>,
    pub left_side_waitlist: Vec<Option<RecordId>>,
    pub right_side_waitlist: Vec<Option<RecordId>>,
}

/// Whether a practice starting at `start` still rejects signups at `now`:
/// it unlocks one hour before the start.
pub open spec fn locked_at(start: i64, now: i64) -> bool {
    now < start - HOUR_MS
}

/// Whether a practice starting at `start` lies ahead of `now`.
pub open spec fn future_at(start: i64, now: i64) -> bool {
    start > now
}

impl Practice {
    pub open spec fn roster(&self) -> RosterView {
        RosterView {
            left_main: self.left_side@,
            right_main: self.right_side@,
            left_wait: self.left_side_waitlist@,
            right_wait: self.right_side_waitlist@,
        }
    }

    /// Fixed roster sizes and a start time within the handled range.
    pub open spec fn wf(&self) -> bool {
        &&& self.left_side@.len() == MAIN_CAPACITY
        &&& self.right_side@.len() == MAIN_CAPACITY
        &&& self.left_side_waitlist@.len() == WAITLIST_CAPACITY
        &&& self.right_side_waitlist@.len() == WAITLIST_CAPACITY
        &&& valid_instant(self.start_time)
    }

    /// Identity and timing are the same in both.
    pub open spec fn same_schedule(&self, other: &Practice) -> bool {
        &&& self.id == other.id
        &&& self.date == other.date
        &&& self.start_time == other.start_time
        &&& self.end_time == other.end_time
    }

    /// Checks `wf`.
    pub fn is_well_formed(&self) -> (r: bool)
        ensures
            r == self.wf(),
    {
        self.left_side.len() == MAIN_CAPACITY && self.right_side.len() == MAIN_CAPACITY
            && self.left_side_waitlist.len() == WAITLIST_CAPACITY
            && self.right_side_waitlist.len() == WAITLIST_CAPACITY && -crate::clock::INSTANT_LIMIT_MS
            <= self.start_time && self.start_time <= crate::clock::INSTANT_LIMIT_MS
    }

    /// A practice on `date` starting at `start_time`, one hour long, with
    /// every slot empty.
    pub fn new(date: i64, start_time: i64) -> (r: Practice)
        requires
            valid_instant(start_time),
        ensures
            r.wf(),
            r.id is None,
            r.date == date,
            r.start_time == start_time,
            r.end_time == start_time + HOUR_MS,
            r.left_side@ == empty_slots(MAIN_CAPACITY as nat),
            r.right_side@ == empty_slots(MAIN_CAPACITY as nat),
            r.left_side_waitlist@ == empty_slots(WAITLIST_CAPACITY as nat),
            r.right_side_waitlist@ == empty_slots(WAITLIST_CAPACITY as nat),
    {
        Practice {
            id: None,
            date,
            start_time,
            end_time: start_time + HOUR_MS,
            left_side: new_slots(MAIN_CAPACITY),
            right_side: new_slots(MAIN_CAPACITY),
            left_side_waitlist: new_slots(WAITLIST_CAPACITY),
            right_side_waitlist: new_slots(WAITLIST_CAPACITY),
        }
    }

    /// Whether signups are still rejected at `now`.
    pub fn is_locked_at(&self, now: i64) -> (r: bool)
        ensures
            r == locked_at(self.start_time, now),
    {
        (now as i128) < (self.start_time as i128) - (HOUR_MS as i128)
    }

    /// Whether signups are still rejected now, by the system clock.
    pub fn is_locked(&self) -> (r: bool)
        ensures
            exists|t: i64| 0 <= t && r == locked_at(self.start_time, t),
    {
        let now = now_millis();
        self.is_locked_at(now)
    }

    /// Whether the practice starts after `now`.
    pub fn is_future_at(&self, now: i64) -> (r: bool)
        ensures
            r == future_at(self.start_time, now),
    {
        self.start_time > now
    }

    /// Whether the practice starts after the present moment.
    pub fn is_future(&self) -> (r: bool)
        ensures
            exists|t: i64| 0 <= t && r == future_at(self.start_time, t),
    {
        let now = now_millis();
        self.is_future_at(now)
    }

    /// Whether the practice starts within the hour after `now`, both ends
    /// excluded: it unlocks at some moment of that hour.
    pub fn is_opening_soon_at(&self, now: i64) -> (r: bool)
        ensures
            r == (now < self.start_time && self.start_time < now + HOUR_MS),
    {
        (now as i128) < (self.start_time as i128) && (self.start_time as i128) < (now as i128)
            + (HOUR_MS as i128)
    }

    /// Number of occupied main slots on `side`.
    pub fn count_side(&self, side: &Side) -> (r: usize)
        requires
            *side != Side::NA,
        ensures
            r == occupied_count(self.roster().main_of(*side)),
    {
        match side {
            Side::Left => count_occupied(&self.left_side),
            _ => count_occupied(&self.right_side),
        }
    }

    /// The side a signup with preference `side` is placed on.
    pub fn determine_side(&self, side: &Side) -> (r: Side)
        ensures
            r == self.roster().resolve_side(*side),
            r != Side::NA,
    {
        match side {
            Side::NA => {
                if self.count_side(&Side::Right) >= self.count_side(&Side::Left) {
                    Side::Left
                } else {
                    Side::Right
                }
            },
            _ => *side,
        }
    }
}

impl Practice {
    /// Signs `user_id` up on `side` (never `NA`) at instant `now`: rejected
    /// with `Locked` before the practice unlocks, otherwise placed on the
    /// first empty main slot, else the first empty waitlist slot; `Full` when
    /// neither has room. `Ok(true)` means the main roster.
    pub fn add_participant(&mut self, user_id: RecordId, side: &Side, now: i64) -> (r: Result<
        bool,
        PracticeError,
    >)
        requires
            *side != Side::NA,
        ensures
            final(self).same_schedule(old(self)),
            old(self).wf() ==> final(self).wf(),
            locked_at(old(self).start_time, now) ==> r == Err::<bool, PracticeError>(
                PracticeError::Locked,
            ) && *final(self) == *old(self),
            !locked_at(old(self).start_time, now) ==> final(self).roster() == old(self).roster().place(
                *side,
                user_id,
            ) && r == match old(self).roster().place_outcome(*side) {
                Some(main) => Ok::<bool, PracticeError>(main),
                None => Err(PracticeError::Full),
            },
    {
        if self.is_locked_at(now) {
            return Err(PracticeError::Locked);
        }
        let placed = match side {
            Side::Left => place_on(&mut self.left_side, &mut self.left_side_waitlist, user_id),
            _ => place_on(&mut self.right_side, &mut self.right_side_waitlist, user_id),
        };
        match placed {
            Some(main) => Ok(main),
            None => Err(PracticeError::Full),
        }
    }

    /// Takes `user_id` off the practice. The first slot holding it is found
    /// on the left main roster, the right main roster, the left waitlist and
    /// the right waitlist, in that order, and emptied. A vacated main slot is
    /// refilled from the first occupied waitlist slot of the same side, and
    /// the promoted participant is returned. `UserNotFound` when `user_id`
    /// holds no slot.
    pub fn remove_participant(&mut self, user_id: RecordId) -> (r: Result<
        Option<RecordId>,
        PracticeError,
    >)
        ensures
            final(self).same_schedule(old(self)),
            old(self).wf() ==> final(self).wf(),
            match old(self).roster().remove(user_id) {
                Some(out) => r == Ok::<Option<RecordId>, PracticeError>(out.1) && final(self).roster() == out.0,
                None => r == Err::<Option<RecordId>, PracticeError>(PracticeError::UserNotFound)
                    && *final(self) == *old(self),
            },
    {
        let q = SlotQuery::Holding(user_id);
        let a = find_first(&self.left_side, q);
        if a < self.left_side.len() {
            let promoted = vacate_on(&mut self.left_side, &mut self.left_side_waitlist, a);
            return Ok(promoted);
        }
        let b = find_first(&self.right_side, q);
        if b < self.right_side.len() {
            let promoted = vacate_on(&mut self.right_side, &mut self.right_side_waitlist, b);
            return Ok(promoted);
        }
        let c = find_first(&self.left_side_waitlist, q);
        if c < self.left_side_waitlist.len() {
            self.left_side_waitlist.set(c, None);
            return Ok(None);
        }
        let d = find_first(&self.right_side_waitlist, q);
        if d < self.right_side_waitlist.len() {
            self.right_side_waitlist.set(d, None);
            return Ok(None);
        }
        Err(PracticeError::UserNotFound)
    }

    /// Carries the occupants of `prior_waitlist`, in slot order, into the
    /// first empty main slots of `side` (never `NA`). Refused with
    /// `NoRoomForCarryover`, changing nothing, when they do not all fit.
    pub fn merge_waitlist_from(&mut self, side: &Side, prior_waitlist: &Vec<Option<RecordId>>) -> (r:
        Result<(), PracticeError>)
        requires
            *side != Side::NA,
        ensures
            final(self).same_schedule(old(self)),
            old(self).wf() ==> final(self).wf(),
            r is Ok <==> old(self).roster().carryover_fits(*side, occupants(prior_waitlist@)),
            r is Ok ==> final(self).roster() == old(self).roster().carry_over(
                *side,
                occupants(prior_waitlist@),
            ),
            r is Err ==> r == Err::<(), PracticeError>(PracticeError::NoRoomForCarryover) && *final(self) == *old(self),
    {
        let entries = collect_occupants(prior_waitlist);
        let main = match side {
            Side::Left => &mut self.left_side,
            _ => &mut self.right_side,
        };
        let taken = count_occupied(main);
        proof {
            lemma_occupied_count_bound(main@);
        }
        if entries.len() > main.len() - taken {
            return Err(PracticeError::NoRoomForCarryover);
        }
        proof {
            lemma_merge_into(main@, entries@);
        }
        merge_entries(main, &entries);
        Ok(())
    }

    /// Carries the previous week's waitlists into this practice's main
    /// rosters, each side into the same side. Refused with
    /// `NoRoomForCarryover`, changing nothing, unless both sides fit.
    pub fn transfer_waitlist(&mut self, prev: &Practice) -> (r: Result<(), PracticeError>)
        ensures
            final(self).same_schedule(old(self)),
            old(self).wf() ==> final(self).wf(),
            r is Ok <==> old(self).roster().carryover_fits(
                Side::Left,
                occupants(prev.left_side_waitlist@),
            ) && old(self).roster().carryover_fits(
                Side::Right,
                occupants(prev.right_side_waitlist@),
            ),
            r is Ok ==> final(self).roster() == old(self).roster().carry_over(
                Side::Left,
                occupants(prev.left_side_waitlist@),
            ).carry_over(Side::Right, occupants(prev.right_side_waitlist@)),
            r is Err ==> r == Err::<(), PracticeError>(PracticeError::NoRoomForCarryover) && *final(self) == *old(self),
    {
        let left_entries = collect_occupants(&prev.left_side_waitlist);
        let right_entries = collect_occupants(&prev.right_side_waitlist);
        let left_taken = count_occupied(&self.left_side);
        let right_taken = count_occupied(&self.right_side);
        proof {
            lemma_occupied_count_bound(self.left_side@);
            lemma_occupied_count_bound(self.right_side@);
        }
        if left_entries.len() > self.left_side.len() - left_taken || right_entries.len()
            > self.right_side.len() - right_taken {
            return Err(PracticeError::NoRoomForCarryover);
        }
        proof {
            lemma_merge_into(self.left_side@, left_entries@);
            lemma_merge_into(self.right_side@, right_entries@);
        }
        merge_entries(&mut self.left_side, &left_entries);
        merge_entries(&mut self.right_side, &right_entries);
        Ok(())
    }
}

} // verus!
