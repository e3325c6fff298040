//! Verified core of a terminal dictionary browser.
//!
//! The library loads a dictionary of Chinese-character entries from JSON
//! text, keeps a selection cursor over the entry list, turns keystrokes into
//! cursor movement, and projects the current state into the plain strings
//! that a terminal front end draws.

pub mod cursor;
pub mod entry;
pub mod load;
pub mod session;
