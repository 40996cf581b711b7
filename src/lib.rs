//! A counter held in one program-derived account: `initialize` creates it (or
//! finds it) and sets it to zero, `increment` adds one and logs an event.

pub mod address;
pub mod state;
pub mod instructions;
pub mod layout;
pub mod laws;
