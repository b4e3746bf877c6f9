//! Formatting for a plain directory listing.
//!
//! Each entry of a directory is shown as one row: its permissions as three
//! `rwx` triplets, its size in bytes or scaled to a unit, the day, month,
//! hour and minute of its last modification, and its name. The modules
//! follow the parts of a row; `listing` puts them together, and `options`
//! holds what the caller asked for.

pub mod clock;
pub mod decimal;
pub mod listing;
pub mod options;
pub mod permissions;
pub mod size;
