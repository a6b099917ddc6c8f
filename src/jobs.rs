//! Timers of a practice: carrying the previous week's waitlist over just
//! before unlocking, and announcing the unlock. Timers are derived from the
//! stored practices, never stored themselves.
use vstd::prelude::*;

use crate::clock::{valid_instant, CARRYOVER_LEAD_MS, HOUR_MS, WEEK_MS};
use crate::practice::{Practice, PracticeError};
use crate::slots::{occupants, RecordId};
use crate::user::Side;

verus! {

/// When the timers of one practice fire; `None` for a timer whose moment has
/// already passed and which is therefore not armed.
#[derive(Clone, Copy, Debug, PartialEq, Eq, Structural)]
pub struct JobPlan {
    pub practice_id: RecordId,
    pub waitlist_transfer_at: Option<i64>,
    pub unlock_at: Option<i64>,
}

/// The practice unlocks one hour before it starts.
pub open spec fn unlock_time(start: i64) -> int {
    start - HOUR_MS
}

/// The previous week's waitlist is carried over 30 seconds before unlocking.
pub open spec fn transfer_time(start: i64) -> int {
    start - HOUR_MS - CARRYOVER_LEAD_MS
}

/// A timer for `at` is armed only when `at` lies after `now`.
pub open spec fn armed(at: int, now: i64) -> Option<i64> {
    if at > now {
        Some(at as i64)
    } else {
        None
    }
}

pub open spec fn plan_for(p: Practice, now: i64) -> Option<JobPlan> {
    match p.id {
        Some(id) => Some(
            JobPlan {
                practice_id: id,
                waitlist_transfer_at: armed(transfer_time(p.start_time), now),
                unlock_at: armed(unlock_time(p.start_time), now),
            },
        ),
        None => None,
    }
}

/// The plans of all practices that start after `now` and have an id, in order.
pub open spec fn startup_plans(ps: Seq<Practice>, now: i64) -> Seq<JobPlan>
    decreases ps.len(),
{
    if ps.len() == 0 {
        Seq::empty()
    } else {
        let rest = startup_plans(ps.drop_last(), now);
        let p = ps.last();
        if p.start_time > now && p.id is Some {
            rest.push(plan_for(p, now)->0)
        } else {
            rest
        }
    }
}

/// The timers to arm for `practice` at instant `now`; `None` when the
/// practice has no id yet.
pub fn schedule_practice_jobs(practice: &Practice, now: i64) -> (r: Option<JobPlan>)
    requires
        valid_instant(practice.start_time),
    ensures
        r == plan_for(*practice, now),
{
    let id = match practice.id {
        Some(id) => id,
        None => return None,
    };
    let unlock = practice.start_time - HOUR_MS;
    let transfer = unlock - CARRYOVER_LEAD_MS;
    Some(JobPlan {
        practice_id: id,
        waitlist_transfer_at: if transfer > now {
            Some(transfer)
        } else {
            None
        },
        unlock_at: if unlock > now {
            Some(unlock)
        } else {
            None
        },
    })
}

/// The timers to arm at start-up: one plan for each practice that starts
/// after `now`, in the given order.
pub fn init_jobs(practices: &Vec<Practice>, now: i64) -> (r: Vec<JobPlan>)
    requires
        forall|i: int| 0 <= i < practices@.len() ==> valid_instant(#[trigger] practices@[i].start_time),
    ensures
        r@ == startup_plans(practices@, now),
{
    let mut out: Vec<JobPlan> = Vec::new();
    let mut i: usize = 0;
    while i < practices.len()
        invariant
            i <= practices@.len(),
            forall|j: int| 0 <= j < practices@.len() ==> valid_instant(#[trigger] practices@[j].start_time),
            out@ == startup_plans(practices@.take(i as int), now),
        decreases practices.len() - i,
    {
        assert(practices@.take(i as int + 1).drop_last() =~= practices@.take(i as int));
        let p = &practices[i];
        if p.is_future_at(now) {
            match schedule_practice_jobs(p, now) {
                Some(plan) => out.push(plan),
                None => {},
            }
        }
        i = i + 1;
    }
    assert(practices@.take(i as int) =~= practices@);
    out
}

/// Time from `now` until `execution_time`, for arming a one-shot timer;
/// `None` when that moment is already past.
pub fn delay_until(execution_time: i64, now: i64) -> (r: Option<u64>)
    ensures
        execution_time >= now <==> r is Some,
        r is Some ==> r->0 == execution_time - now,
{
    if execution_time >= now {
        Some(((execution_time as i128) - (now as i128)) as u64)
    } else {
        None
    }
}

/// Start of the practice one week before `practice`: the one whose waitlist
/// is carried over into it.
pub fn get_previous_practice_start(practice: &Practice) -> (r: i64)
    requires
        valid_instant(practice.start_time),
    ensures
        r == practice.start_time - WEEK_MS,
{
    practice.start_time - WEEK_MS
}

/// Whether `prev` starts exactly one week before `practice`.
pub open spec fn consecutive(prev: Practice, practice: Practice) -> bool {
    prev.start_time == practice.start_time - WEEK_MS
}

/// Fires the carryover timer of `practice` given the practice found one week
/// earlier, if any. Without a consecutive previous practice nothing happens
/// and `Ok(false)` is returned; otherwise its waitlists are carried over and
/// `Ok(true)` says the practice must be stored.
pub fn handle_waitlist_transfer(practice: &mut Practice, previous: Option<&Practice>) -> (r: Result<
    bool,
    PracticeError,
>)
    ensures
        final(practice).same_schedule(old(practice)),
        old(practice).wf() ==> final(practice).wf(),
        (previous is None || !consecutive(*previous->0, *old(practice))) ==> r == Ok::<
            bool,
            PracticeError,
        >(false) && *final(practice) == *old(practice),
        previous is Some && consecutive(*previous->0, *old(practice)) ==> {
            let prev = *previous->0;
            let le = occupants(prev.left_side_waitlist@);
            let re = occupants(prev.right_side_waitlist@);
            let fits = old(practice).roster().carryover_fits(Side::Left, le) && old(
                practice,
            ).roster().carryover_fits(Side::Right, re);
            &&& fits ==> r == Ok::<bool, PracticeError>(true) && final(practice).roster() == old(
                practice,
            ).roster().carry_over(Side::Left, le).carry_over(Side::Right, re)
            &&& !fits ==> r == Err::<bool, PracticeError>(PracticeError::NoRoomForCarryover)
                && *final(practice) == *old(practice)
        },
{
    let prev = match previous {
        Some(p) => p,
        None => return Ok(false),
    };
    if (prev.start_time as i128) != (practice.start_time as i128) - (WEEK_MS as i128) {
        return Ok(false);
    }
    match practice.transfer_waitlist(prev) {
        Ok(()) => Ok(true),
        Err(e) => Err(e),
    }
}

} // verus!
