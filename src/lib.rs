//! Upward file lookup: find a named file next to the current working
//! directory or next to one of its ancestors, never climbing above a
//! boundary directory.
//!
//! The search itself is a verified state machine ([`lookup::Lookup`]): it
//! asks its host for the home directory, the current directory and whether
//! candidate paths exist, and decides from the answers where to look next.
use vstd::prelude::*;

pub mod error;
pub mod laws;
pub mod lookup;
pub mod path;

pub use error::FileLookupError;
pub use lookup::{Lookup, Query, Reply, Stage};
pub use path::{Candidate, DirPath};

verus! {

} // verus!
