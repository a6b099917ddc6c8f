use practice_roster::clock::HOUR_MS;
use practice_roster::practice::{Practice, PracticeError, MAIN_CAPACITY, WAITLIST_CAPACITY};
use practice_roster::slots::RecordId;
use practice_roster::user::Side;

const START: i64 = 1_732_820_400_000;

fn open_now() -> i64 {
    START - HOUR_MS / 2
}

fn fresh() -> Practice {
    Practice::new(START, START)
}

#[test]
fn new_practice_is_empty_and_one_hour_long() {
    let p = fresh();
    assert!(p.is_well_formed());
    assert_eq!(p.end_time, START + HOUR_MS);
    assert_eq!(p.left_side, vec![None; MAIN_CAPACITY]);
    assert_eq!(p.right_side, vec![None; MAIN_CAPACITY]);
    assert_eq!(p.left_side_waitlist, vec![None; WAITLIST_CAPACITY]);
    assert_eq!(p.right_side_waitlist, vec![None; WAITLIST_CAPACITY]);
    assert!(p.id.is_none());
}

#[test]
fn seventeen_main_then_waitlist_then_full() {
    let mut p = fresh();
    for i in 0..17u128 {
        assert_eq!(p.add_participant(RecordId(i), &Side::Left, open_now()), Ok(true));
        assert_eq!(p.left_side[i as usize], Some(RecordId(i)));
    }
    assert!(p.left_side_waitlist.iter().all(|s| s.is_none()));
    assert_eq!(p.add_participant(RecordId(17), &Side::Left, open_now()), Ok(false));
    assert_eq!(p.left_side_waitlist[0], Some(RecordId(17)));
    for i in 18..23u128 {
        assert_eq!(p.add_participant(RecordId(i), &Side::Left, open_now()), Ok(false));
    }
    assert_eq!(p.add_participant(RecordId(23), &Side::Left, open_now()), Err(PracticeError::Full));
    assert!(p.right_side.iter().all(|s| s.is_none()));
}

#[test]
fn locked_practice_rejects_and_keeps_roster() {
    let mut p = fresh();
    let before = p.clone();
    let now = START - 2 * HOUR_MS;
    assert!(p.is_locked_at(now));
    assert_eq!(p.add_participant(RecordId(1), &Side::Left, now), Err(PracticeError::Locked));
    assert_eq!(p.left_side, before.left_side);
    assert_eq!(p.left_side_waitlist, before.left_side_waitlist);
}

#[test]
fn unlock_boundary_is_one_hour_before_start() {
    let p = fresh();
    assert!(p.is_locked_at(START - HOUR_MS - 1));
    assert!(!p.is_locked_at(START - HOUR_MS));
    assert!(p.is_future_at(START - 1));
    assert!(!p.is_future_at(START));
}

#[test]
fn unspecified_side_tie_goes_left_then_alternates() {
    let mut p = fresh();
    assert_eq!(p.determine_side(&Side::NA), Side::Left);
    p.add_participant(RecordId(1), &Side::Left, open_now()).unwrap();
    assert_eq!(p.determine_side(&Side::NA), Side::Right);
    p.add_participant(RecordId(2), &Side::Right, open_now()).unwrap();
    assert_eq!(p.determine_side(&Side::NA), Side::Left);
    assert_eq!(p.determine_side(&Side::Right), Side::Right);
    assert_eq!(p.count_side(&Side::Left), 1);
    assert_eq!(p.count_side(&Side::Right), 1);
}

#[test]
fn withdraw_promotes_first_waitlisted() {
    let mut p = fresh();
    let pp = RecordId(100);
    let q = RecordId(200);
    for i in 0..17u128 {
        p.left_side[i as usize] = Some(RecordId(i));
    }
    p.left_side[3] = Some(pp);
    p.left_side_waitlist[0] = Some(q);
    assert_eq!(p.remove_participant(pp), Ok(Some(q)));
    assert_eq!(p.left_side[3], Some(q));
    assert_eq!(p.left_side_waitlist[0], None);
}

#[test]
fn withdraw_takes_lowest_occupied_waitlist_slot() {
    let mut p = fresh();
    p.right_side[0] = Some(RecordId(1));
    p.right_side_waitlist[2] = Some(RecordId(7));
    p.right_side_waitlist[4] = Some(RecordId(8));
    assert_eq!(p.remove_participant(RecordId(1)), Ok(Some(RecordId(7))));
    assert_eq!(p.right_side[0], Some(RecordId(7)));
    assert_eq!(p.right_side_waitlist[2], None);
    assert_eq!(p.right_side_waitlist[4], Some(RecordId(8)));
}

#[test]
fn withdraw_without_waitlist_leaves_hole() {
    let mut p = fresh();
    p.left_side[0] = Some(RecordId(1));
    p.left_side[1] = Some(RecordId(2));
    assert_eq!(p.remove_participant(RecordId(1)), Ok(None));
    assert_eq!(p.left_side[0], None);
    assert_eq!(p.left_side[1], Some(RecordId(2)));
}

#[test]
fn withdraw_from_waitlist_promotes_nobody() {
    let mut p = fresh();
    p.left_side_waitlist[1] = Some(RecordId(5));
    assert_eq!(p.remove_participant(RecordId(5)), Ok(None));
    assert_eq!(p.left_side_waitlist[1], None);
}

#[test]
fn withdraw_unknown_is_not_found() {
    let mut p = fresh();
    p.left_side[0] = Some(RecordId(1));
    assert_eq!(p.remove_participant(RecordId(9)), Err(PracticeError::UserNotFound));
    assert_eq!(p.left_side[0], Some(RecordId(1)));
}

#[test]
fn carryover_fills_first_empty_main_slots_in_order() {
    let (a, b, c, d) = (RecordId(1), RecordId(2), RecordId(3), RecordId(4));
    let mut n = fresh();
    n.left_side[0] = Some(RecordId(50));
    n.left_side_waitlist[0] = Some(a);
    n.left_side_waitlist[1] = Some(b);
    let mut prev = Practice::new(START - 604_800_000, START - 604_800_000);
    prev.left_side_waitlist[0] = Some(c);
    prev.left_side_waitlist[1] = Some(d);
    let right_before = n.right_side.clone();
    assert_eq!(n.transfer_waitlist(&prev), Ok(()));
    assert_eq!(n.left_side[0], Some(RecordId(50)));
    assert_eq!(n.left_side[1], Some(c));
    assert_eq!(n.left_side[2], Some(d));
    assert_eq!(n.left_side[3], None);
    assert_eq!(n.left_side_waitlist[0], Some(a));
    assert_eq!(n.left_side_waitlist[1], Some(b));
    assert_eq!(n.right_side, right_before);
}

#[test]
fn carryover_without_room_changes_nothing() {
    let mut n = fresh();
    for i in 0..17u128 {
        n.right_side[i as usize] = Some(RecordId(i));
    }
    let mut prev = fresh();
    prev.right_side_waitlist[0] = Some(RecordId(99));
    prev.left_side_waitlist[0] = Some(RecordId(98));
    assert_eq!(n.transfer_waitlist(&prev), Err(PracticeError::NoRoomForCarryover));
    assert_eq!(n.left_side[0], None);
}

#[test]
fn merge_one_side_leaves_other_side() {
    let mut n = fresh();
    let prior = vec![None, Some(RecordId(4)), None, Some(RecordId(6)), None, None];
    n.right_side[0] = Some(RecordId(1));
    assert_eq!(n.merge_waitlist_from(&Side::Right, &prior), Ok(()));
    assert_eq!(n.right_side[1], Some(RecordId(4)));
    assert_eq!(n.right_side[2], Some(RecordId(6)));
    assert!(n.left_side.iter().all(|s| s.is_none()));
}

#[test]
fn error_messages() {
    assert_eq!(PracticeError::Locked.message(), "Practice is locked");
    assert_eq!(PracticeError::Full.message(), "Practice and waitlist are full");
    assert_eq!(PracticeError::UserNotFound.message(), "User not found");
    assert_eq!(PracticeError::NoUserId.message(), "User has no ID");
    assert_eq!(PracticeError::DatabaseError("down".to_string()).message(), "Database error: down");
}

#[test]
fn record_id_hex_text() {
    assert_eq!(RecordId(0x0123456789abcdef01234567).to_hex(), "0123456789abcdef01234567");
    assert_eq!(RecordId(255).to_hex(), "0000000000000000000000ff");
}

#[test]
fn clock_reads_present_time() {
    let far_future = Practice::new(4_102_444_800_000, 4_102_444_800_000);
    assert!(far_future.is_locked());
    assert!(far_future.is_future());
    let past = Practice::new(0, 0);
    assert!(!past.is_locked());
    assert!(!past.is_future());
}

#[test]
fn opening_soon_window_is_open_hour() {
    let p = fresh();
    assert!(p.is_opening_soon_at(START - HOUR_MS + 1));
    assert!(!p.is_opening_soon_at(START - HOUR_MS));
    assert!(!p.is_opening_soon_at(START));
    assert!(p.is_opening_soon_at(START - 1));
}

#[test]
fn unspecified_signups_alternate_sides() {
    let mut p = fresh();
    for i in 0..34u128 {
        let side = p.determine_side(&Side::NA);
        assert_eq!(side, if i % 2 == 0 { Side::Left } else { Side::Right });
        assert_eq!(p.add_participant(RecordId(i), &side, open_now()), Ok(true));
    }
    assert_eq!(p.count_side(&Side::Left), 17);
    assert_eq!(p.count_side(&Side::Right), 17);
    let side = p.determine_side(&Side::NA);
    assert_eq!(side, Side::Left);
    assert_eq!(p.add_participant(RecordId(99), &side, open_now()), Ok(false));
}

#[test]
fn malformed_practice_is_detected() {
    let mut p = fresh();
    p.left_side.pop();
    assert!(!p.is_well_formed());
}
