//! An in-memory to-do list behind a text menu.
//!
//! `list` holds the list and its three operations: add, show and delete.
//! `session` holds the menu: it takes the lines that a user enters, one at a
//! time, and says what each does. `text` and `number` read those lines: white
//! space, trimming, and the numerals by which items are numbered and chosen.
//! `laws` states what holds of all of it, whatever the lines are.
//!
//! Nothing here reads or prints: a caller hands each line in and gets the
//! answer back as a value.
pub mod laws;
pub mod list;
pub mod number;
pub mod session;
pub mod text;
