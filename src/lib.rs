//! Borrow-and-map helpers for `Option` and `Result`.
//!
//! `OptionRefMap::ref_map` maps the borrowed payload of an `Option`, and
//! `ResultRefMap::ref_map` / `ResultRefMap::ref_map_err` map the borrowed
//! payload of one variant of a `Result` while handing the other variant's
//! payload back by reference. Each call is the same as an `as_ref()` followed
//! by `map` (or `map_err`), and the closure runs at most once.
use vstd::prelude::*;

mod option;
mod result;

pub use crate::option::OptionRefMap;
pub use crate::result::ResultRefMap;
