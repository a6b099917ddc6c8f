//! Signup rosters for a recurring practice with two capacity-limited sides,
//! together with the timing rules that lock, unlock and carry sessions over.
pub mod slots;
pub mod user;
pub mod clock;
pub mod practice;
pub mod lifecycle;
pub mod jobs;
pub mod laws;
pub mod text;
pub mod sheets;
