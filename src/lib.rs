//! Vote bookkeeping and user-record rules of a book-cataloguing backend.
//!
//! The database and the HTTP layer live outside this crate; the library
//! decides what to write and what to answer, and proves that the cached
//! vote counters of a comment always agree with its vote rows.

pub mod vote;
pub mod vote_session;
pub mod user;
pub mod reply;
