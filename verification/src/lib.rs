//! Discovering the current git branch: a pure parser for `HEAD` files and a
//! step-by-step locator that decides how a search for a `.git` entry proceeds.
//!
//! All filesystem access stays with the caller; the functions here work on the
//! text that was read and on the outcome of each probe.

pub mod head;
pub mod locate;
