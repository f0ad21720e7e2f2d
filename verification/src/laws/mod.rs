//! What the functions of the library are for: laws that relate what they are given to what they
//! return.
//!
//! A law speaks of calls: `call_ensures(f, (x,), y)` says that calling `f` with `x` can return `y`.

pub mod fallocate;
pub mod ids;
pub mod migration;
pub mod open_flags;
pub mod paths;
pub mod read_dir;
pub mod texts;
pub mod walk;
