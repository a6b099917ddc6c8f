use practice_roster::clock::{HOUR_MS, WEEK_MS};
use practice_roster::jobs::{
    delay_until, get_previous_practice_start, handle_waitlist_transfer, init_jobs,
    schedule_practice_jobs, JobPlan,
};
use practice_roster::practice::{Practice, PracticeError};
use practice_roster::slots::RecordId;

const START: i64 = 1_732_820_400_000;

fn stored(id: u128, start: i64) -> Practice {
    let mut p = Practice::new(start, start);
    p.id = Some(RecordId(id));
    p
}

#[test]
fn both_timers_armed_well_ahead() {
    let plan = schedule_practice_jobs(&stored(1, START), START - 2 * HOUR_MS).unwrap();
    assert_eq!(
        plan,
        JobPlan {
            practice_id: RecordId(1),
            waitlist_transfer_at: Some(START - HOUR_MS - 30_000),
            unlock_at: Some(START - HOUR_MS),
        }
    );
}

#[test]
fn passed_timers_are_skipped() {
    let p = stored(1, START);
    let plan = schedule_practice_jobs(&p, START - HOUR_MS - 10_000).unwrap();
    assert_eq!(plan.waitlist_transfer_at, None);
    assert_eq!(plan.unlock_at, Some(START - HOUR_MS));
    let plan = schedule_practice_jobs(&p, START - HOUR_MS).unwrap();
    assert_eq!(plan.unlock_at, None);
    assert!(schedule_practice_jobs(&Practice::new(START, START), 0).is_none());
}

#[test]
fn startup_arms_future_practices_only() {
    let ps = vec![stored(1, START - WEEK_MS), stored(2, START), stored(3, START + WEEK_MS)];
    let now = START - 3 * HOUR_MS;
    let plans = init_jobs(&ps, now);
    assert_eq!(plans.len(), 2);
    assert_eq!(plans[0].practice_id, RecordId(2));
    assert_eq!(plans[1].practice_id, RecordId(3));
    assert_eq!(plans[1].unlock_at, Some(START + WEEK_MS - HOUR_MS));
}

#[test]
fn delays() {
    assert_eq!(delay_until(10_000, 4_000), Some(6_000));
    assert_eq!(delay_until(4_000, 4_000), Some(0));
    assert_eq!(delay_until(3_999, 4_000), None);
    assert_eq!(delay_until(i64::MAX, i64::MIN), Some(u64::MAX));
}

#[test]
fn previous_practice_is_one_week_earlier() {
    assert_eq!(get_previous_practice_start(&stored(1, START)), START - 604_800_000);
}

#[test]
fn carryover_timer_needs_consecutive_previous() {
    let mut p = stored(2, START);
    let mut prev = stored(1, START - WEEK_MS);
    prev.left_side_waitlist[0] = Some(RecordId(7));
    assert_eq!(handle_waitlist_transfer(&mut p, None), Ok(false));
    let far = stored(1, START - 2 * WEEK_MS);
    assert_eq!(handle_waitlist_transfer(&mut p, Some(&far)), Ok(false));
    assert_eq!(p.left_side[0], None);
    assert_eq!(handle_waitlist_transfer(&mut p, Some(&prev)), Ok(true));
    assert_eq!(p.left_side[0], Some(RecordId(7)));
    let mut full = stored(3, START);
    for i in 0..17 {
        full.left_side[i] = Some(RecordId(i as u128 + 100));
    }
    assert_eq!(
        handle_waitlist_transfer(&mut full, Some(&prev)),
        Err(PracticeError::NoRoomForCarryover)
    );
}
