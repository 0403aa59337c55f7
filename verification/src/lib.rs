//! A minimal polling service: polls own candidates (image URLs), votes are
//! cast for candidates, and a candidate's tally is the count of its votes,
//! computed at read time from the append-only vote table.

pub mod clock;
pub mod service;
pub mod store;
pub mod tally;
pub mod types;
pub mod urlcheck;
