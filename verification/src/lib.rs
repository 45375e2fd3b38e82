//! A timeout-via-race combinator over a cooperative scheduling model.
//!
//! An asynchronous computation is modelled by what a timeout race observes
//! of it: whether it ever becomes ready, after how many scheduling steps,
//! and the value it then yields. On that model the crate builds a
//! left-biased race of two computations and, on top of it, `with_timeout`,
//! which races an operation against a timer and reports either the
//! operation's value or an expiry carrying the deadline.

pub mod operation;
pub mod race;
pub mod timeout;
pub mod laws;
