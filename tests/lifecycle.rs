use practice_roster::clock::HOUR_MS;
use practice_roster::lifecycle::{
    practice_start_info, register_discord_user, signup_for_practice, unregister_for_practice,
    waitlist_notification, RegistrationError,
};
use practice_roster::practice::{Practice, PracticeError};
use practice_roster::slots::RecordId;
use practice_roster::user::{Gender, Side, User, UserType};

const START: i64 = 1_732_820_400_000;

fn user(id: Option<u128>, side: Side) -> User {
    User {
        id: id.map(RecordId),
        first_name: "Ada".to_string(),
        last_name: "King".to_string(),
        gender: Gender::NA,
        discord_id: None,
        mcgill_id: "260000000".to_string(),
        email: "ada@example.com".to_string(),
        user_type: UserType::Regular,
        side,
    }
}

#[test]
fn signup_scenario_main_waitlist_full() {
    let mut p = Practice::new(START, START);
    let now = START - HOUR_MS / 2;
    for i in 0..17u128 {
        let r = signup_for_practice(&mut p, &user(Some(i), Side::Left), now).unwrap();
        assert!(r.success);
        assert!(!r.on_waitlist);
        assert_eq!(r.message, "Signed up on main list");
        assert_eq!(p.left_side[i as usize], Some(RecordId(i)));
    }
    let r = signup_for_practice(&mut p, &user(Some(17), Side::Left), now).unwrap();
    assert!(r.success && r.on_waitlist);
    assert_eq!(r.message, "Signed up for waitlist");
    for i in 18..23u128 {
        assert!(signup_for_practice(&mut p, &user(Some(i), Side::Left), now).unwrap().on_waitlist);
    }
    let r = signup_for_practice(&mut p, &user(Some(23), Side::Left), now).unwrap();
    assert!(!r.success);
    assert_eq!(r.message, "Left side main list and waitlist are full");
}

#[test]
fn signup_unspecified_resolves_by_occupancy() {
    let mut p = Practice::new(START, START);
    let now = START - HOUR_MS;
    signup_for_practice(&mut p, &user(Some(1), Side::NA), now).unwrap();
    signup_for_practice(&mut p, &user(Some(2), Side::NA), now).unwrap();
    assert_eq!(p.left_side[0], Some(RecordId(1)));
    assert_eq!(p.right_side[0], Some(RecordId(2)));
}

#[test]
fn signup_while_locked_is_rejected_without_change() {
    let mut p = Practice::new(START, START);
    let now = START - 2 * HOUR_MS;
    let r = signup_for_practice(&mut p, &user(Some(1), Side::Left), now).unwrap();
    assert!(!r.success);
    assert!(!r.on_waitlist);
    assert_eq!(r.message, "Practice is locked until one hour before start time");
    assert!(p.left_side.iter().all(|s| s.is_none()));
}

#[test]
fn signup_without_identity_is_an_error() {
    let mut p = Practice::new(START, START);
    let r = signup_for_practice(&mut p, &user(None, Side::Left), START - 1);
    assert_eq!(r.unwrap_err(), PracticeError::NoUserId);
}

#[test]
fn unregister_promotes_and_reports() {
    let mut p = Practice::new(START, START);
    p.left_side[3] = Some(RecordId(1));
    p.left_side_waitlist[0] = Some(RecordId(2));
    let (r, promoted) = unregister_for_practice(&mut p, Some(&user(Some(1), Side::Left))).unwrap();
    assert!(r.success);
    assert_eq!(r.message, "Successfully unregistered from practice");
    assert_eq!(promoted, Some(RecordId(2)));
    assert_eq!(p.left_side[3], Some(RecordId(2)));
}

#[test]
fn unregister_unknown_is_not_registered() {
    let mut p = Practice::new(START, START);
    let (r, promoted) = unregister_for_practice(&mut p, Some(&user(Some(9), Side::Left))).unwrap();
    assert!(!r.success);
    assert_eq!(r.message, "User not registered for this practice");
    assert_eq!(promoted, None);
    assert_eq!(unregister_for_practice(&mut p, None).unwrap_err(), PracticeError::UserNotFound);
    assert_eq!(
        unregister_for_practice(&mut p, Some(&user(None, Side::Left))).unwrap_err(),
        PracticeError::NoUserId
    );
}

#[test]
fn register_contact_handle() {
    assert_eq!(
        register_discord_user(None, "42".to_string()).unwrap_err(),
        RegistrationError::NotFound
    );
    let u = register_discord_user(Some(user(Some(1), Side::Left)), "42".to_string()).unwrap();
    assert_eq!(u.discord_id, Some("42".to_string()));
    assert_eq!(u.email, "ada@example.com");
    assert_eq!(
        register_discord_user(Some(u), "43".to_string()).unwrap_err(),
        RegistrationError::AlreadyRegistered
    );
    assert_eq!(RegistrationError::NotFound.message(), "User not found with given email");
    assert_eq!(
        RegistrationError::AlreadyRegistered.message(),
        "Discord id already associated to email"
    );
}

#[test]
fn notifications_carry_timing_and_handle() {
    let mut p = Practice::new(START, START);
    assert!(practice_start_info(&p).is_none());
    p.id = Some(RecordId(0xabc));
    let info = practice_start_info(&p).unwrap();
    assert_eq!(info.practice_id, "000000000000000000000abc");
    assert_eq!(info.start_time, START);
    assert_eq!(info.end_time, START + HOUR_MS);
    let n = waitlist_notification(&p, "1234".to_string()).unwrap();
    assert_eq!(n.discord_id, "1234");
    assert_eq!(n.practice.practice_id, "000000000000000000000abc");
}
