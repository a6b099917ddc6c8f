//! Participants and their side preference.
use vstd::prelude::*;

use crate::slots::RecordId;

verus! {

#[derive(Clone, Copy, Debug, PartialEq, Eq, Structural)]
pub enum UserType {
    Regular,
    Exec,
}

#[derive(Clone, Copy, Debug, PartialEq, Eq, Structural)]
pub enum Gender {
    Male,
    Female,
    NA,
}

/// A roster side. `NA` is a preference only ("either side"); rosters are
/// kept for `Left` and `Right`.
#[derive(Clone, Copy, Debug, PartialEq, Eq, Structural)]
pub enum Side {
    Left,
    Right,
    NA,
}

impl Side {
    /// The side's name as it appears in messages.
    pub fn label(&self) -> (r: String)
        ensures
            r@ == side_label(*self),
    {
        match self {
            Side::Left => String::from_str("Left"),
            Side::Right => String::from_str("Right"),
            Side::NA => String::from_str("NA"),
        }
    }
}

pub open spec fn side_label(s: Side) -> Seq<char> {
    match s {
        Side::Left => "Left"@,
        Side::Right => "Right"@,
        Side::NA => "NA"@,
    }
}

/// A registered participant. `discord_id` is the contact handle that
/// notifications are routed to; it stays `None` until registered.
#[derive(Clone, Debug)]
pub struct User {
    pub id: Option<RecordId>,
    pub first_name: String,
    pub last_name: String,
    pub gender: Gender,
    pub discord_id: Option<String>,
    pub mcgill_id: String,
    pub email: String,
    pub user_type: UserType,
    pub side: Side,
}

} // verus!
