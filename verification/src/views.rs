//! What each view keeps while it is on screen, and what it shows.

pub mod add;
pub mod list;
