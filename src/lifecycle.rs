//! The decisions behind signing up, withdrawing and registering a contact
//! handle, and the payloads sent to the notification sink. Loading and
//! storing records is the caller's part.
use vstd::prelude::*;

use crate::practice::{locked_at, Practice, PracticeError};
use crate::slots::{id_text, RecordId};
use crate::user::{side_label, Side, User};

verus! {

/// Asks to attach a contact handle to the participant with `email`.
#[derive(Clone, Debug)]
pub struct CreateDiscordUser {
    pub email: String,
    pub discord_id: String,
}

/// Creates a practice; instants in milliseconds since the Unix epoch.
#[derive(Clone, Debug)]
pub struct CreatePracticeRequest {
    pub date: i64,
    pub start_time: i64,
}

/// Signs up for, or withdraws from, a practice.
#[derive(Clone, Debug)]
pub struct SignupRequest {
    pub practice_id: String,
    pub discord_id: String,
}

/// The answer to a signup or withdrawal. `success` is false for the expected
/// rejections (locked, full, not registered); the practice is changed exactly
/// when it is true.
#[derive(Clone, Debug)]
pub struct SignupResponse {
    pub success: bool,
    pub message: String,
    pub on_waitlist: bool,
}

/// Timing of a practice, as sent to the notification sink.
#[derive(Clone, Debug)]
pub struct PracticeStartInfo {
    pub practice_id: String,
    pub start_time: i64,
    pub end_time: i64,
}

/// Tells a participant that they moved from the waitlist to the main roster.
#[derive(Clone, Debug)]
pub struct WaitlistTransferNotification {
    pub practice: PracticeStartInfo,
    pub discord_id: String,
}

/// Why a contact handle could not be registered.
#[derive(Clone, Copy, Debug, PartialEq, Eq, Structural)]
pub enum RegistrationError {
    NotFound,
    AlreadyRegistered,
}

impl RegistrationError {
    pub fn message(&self) -> (r: String)
        ensures
            r@ == registration_error_message(*self),
    {
        match self {
            RegistrationError::NotFound => String::from_str("User not found with given email"),
            RegistrationError::AlreadyRegistered => String::from_str(
                "Discord id already associated to email",
            ),
        }
    }
}

pub open spec fn registration_error_message(e: RegistrationError) -> Seq<char> {
    match e {
        RegistrationError::NotFound => "User not found with given email"@,
        RegistrationError::AlreadyRegistered => "Discord id already associated to email"@,
    }
}

pub open spec fn locked_message() -> Seq<char> {
    "Practice is locked until one hour before start time"@
}

pub open spec fn placed_message(main: bool) -> Seq<char> {
    if main {
        "Signed up on main list"@
    } else {
        "Signed up for waitlist"@
    }
}

pub open spec fn full_message(side: Side) -> Seq<char> {
    side_label(side) + " side main list and waitlist are full"@
}

pub open spec fn withdrawn_message() -> Seq<char> {
    "Successfully unregistered from practice"@
}

pub open spec fn not_registered_message() -> Seq<char> {
    "User not registered for this practice"@
}

pub open spec fn response_is(r: SignupResponse, success: bool, message: Seq<char>, on_waitlist: bool) -> bool {
    r.success == success && r.message@ == message && r.on_waitlist == on_waitlist
}

fn response(success: bool, message: &str, on_waitlist: bool) -> (r: SignupResponse)
    ensures
        response_is(r, success, message@, on_waitlist),
{
    SignupResponse { success, message: String::from_str(message), on_waitlist }
}

/// The timing of `practice` for the notification sink; `None` when the
/// practice has not been stored yet and so has no id.
pub fn practice_start_info(practice: &Practice) -> (r: Option<PracticeStartInfo>)
    ensures
        practice.id is None <==> r is None,
        r is Some ==> {
            let info = r->0;
            &&& info.practice_id@ == id_text(practice.id->0)
            &&& info.start_time == practice.start_time
            &&& info.end_time == practice.end_time
        },
{
    match practice.id {
        Some(id) => Some(
            PracticeStartInfo {
                practice_id: id.to_hex(),
                start_time: practice.start_time,
                end_time: practice.end_time,
            },
        ),
        None => None,
    }
}

/// The message telling the holder of `discord_id` that they were promoted
/// on `practice`; `None` when the practice has no id.
pub fn waitlist_notification(practice: &Practice, discord_id: String) -> (r: Option<
    WaitlistTransferNotification,
>)
    ensures
        practice.id is None <==> r is None,
        r is Some ==> {
            let n = r->0;
            &&& n.practice.practice_id@ == id_text(practice.id->0)
            &&& n.practice.start_time == practice.start_time
            &&& n.practice.end_time == practice.end_time
            &&& n.discord_id == discord_id
        },
{
    match practice_start_info(practice) {
        Some(info) => Some(WaitlistTransferNotification { practice: info, discord_id }),
        None => None,
    }
}

/// Signs `user` up for `practice` at instant `now`, on the side their
/// preference resolves to. A locked practice, or a full side, gives an
/// unsuccessful response and leaves the practice as it was. A user without
/// an identity is an error.
pub fn signup_for_practice(practice: &mut Practice, user: &User, now: i64) -> (r: Result<
    SignupResponse,
    PracticeError,
>)
    ensures
        final(practice).same_schedule(old(practice)),
        old(practice).wf() ==> final(practice).wf(),
        locked_at(old(practice).start_time, now) ==> r is Ok && response_is(
            r->Ok_0,
            false,
            locked_message(),
            false,
        ) && *final(practice) == *old(practice),
        !locked_at(old(practice).start_time, now) && user.id is None ==> r == Err::<
            SignupResponse,
            PracticeError,
        >(PracticeError::NoUserId) && *final(practice) == *old(practice),
        !locked_at(old(practice).start_time, now) && user.id is Some ==> {
            let side = old(practice).roster().resolve_side(user.side);
            &&& final(practice).roster() == old(practice).roster().place(side, user.id->0)
            &&& r is Ok
            &&& match old(practice).roster().place_outcome(side) {
                Some(main) => response_is(r->Ok_0, true, placed_message(main), !main),
                None => response_is(r->Ok_0, false, full_message(side), false),
            }
        },
{
    if practice.is_locked_at(now) {
        return Ok(response(false, "Practice is locked until one hour before start time", false));
    }
    let user_id = match user.id {
        Some(id) => id,
        None => return Err(PracticeError::NoUserId),
    };
    let side = practice.determine_side(&user.side);
    match practice.add_participant(user_id, &side, now) {
        Ok(main) => {
            if main {
                Ok(response(true, "Signed up on main list", false))
            } else {
                Ok(response(true, "Signed up for waitlist", true))
            }
        },
        Err(_) => {
            let mut message = side.label();
            message.append(" side main list and waitlist are full");
            Ok(SignupResponse { success: false, message, on_waitlist: false })
        },
    }
}

/// Withdraws `user` (`None`: no such user) from `practice`. A missing user,
/// or one without an identity, is an error. Someone who holds no slot gets an
/// unsuccessful response; otherwise their slot is emptied, a vacated main
/// slot is refilled from the same side's waitlist, and the promoted
/// participant is returned beside the response.
pub fn unregister_for_practice(practice: &mut Practice, user: Option<&User>) -> (r: Result<
    (SignupResponse, Option<RecordId>),
    PracticeError,
>)
    ensures
        final(practice).same_schedule(old(practice)),
        old(practice).wf() ==> final(practice).wf(),
        user is None ==> r == Err::<(SignupResponse, Option<RecordId>), PracticeError>(
            PracticeError::UserNotFound,
        ) && *final(practice) == *old(practice),
        user is Some && user->0.id is None ==> r == Err::<
            (SignupResponse, Option<RecordId>),
            PracticeError,
        >(PracticeError::NoUserId) && *final(practice) == *old(practice),
        user is Some && user->0.id is Some ==> match old(practice).roster().remove(
            user->0.id->0,
        ) {
            Some(out) => r is Ok && response_is(r->Ok_0.0, true, withdrawn_message(), false)
                && r->Ok_0.1 == out.1 && final(practice).roster() == out.0,
            None => r is Ok && response_is(r->Ok_0.0, false, not_registered_message(), false)
                && r->Ok_0.1 is None && *final(practice) == *old(practice),
        },
{
    let user = match user {
        Some(u) => u,
        None => return Err(PracticeError::UserNotFound),
    };
    let user_id = match user.id {
        Some(id) => id,
        None => return Err(PracticeError::NoUserId),
    };
    match practice.remove_participant(user_id) {
        Ok(promoted) => Ok(
            (response(true, "Successfully unregistered from practice", false), promoted),
        ),
        Err(_) => Ok((response(false, "User not registered for this practice", false), None)),
    }
}

/// Attaches `discord_id` to the participant found by email (`None`: nobody
/// has that email) and returns the updated record. A participant who already
/// has a handle keeps it.
pub fn register_discord_user(user: Option<User>, discord_id: String) -> (r: Result<
    User,
    RegistrationError,
>)
    ensures
        user is None ==> r == Err::<User, RegistrationError>(RegistrationError::NotFound),
        user is Some && user->0.discord_id is Some ==> r == Err::<User, RegistrationError>(
            RegistrationError::AlreadyRegistered,
        ),
        user is Some && user->0.discord_id is None ==> r == Ok::<User, RegistrationError>(
            User { discord_id: Some(discord_id), ..user->0 },
        ),
{
    match user {
        None => Err(RegistrationError::NotFound),
        Some(u) => {
            if u.discord_id.is_some() {
                Err(RegistrationError::AlreadyRegistered)
            } else {
                let mut updated = u;
                updated.discord_id = Some(discord_id);
                Ok(updated)
            }
        },
    }
}

} // verus!
