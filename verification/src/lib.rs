//! The state machine of a small terminal to-do list: the items, the focus
//! that moves over them, the three views and the keys that drive them.

pub mod app;
pub mod error;
pub mod input;
pub mod laws;
pub mod layout;
pub mod text;
pub mod todo;
pub mod views;
