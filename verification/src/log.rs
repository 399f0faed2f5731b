//! How loud a line is that the library asks its caller to log.

use vstd::prelude::*;

verus! {

/// The level of a log line.
#[derive(Debug, Clone, Copy, PartialEq, Eq, Hash)]
pub enum Level {
    Error,
    Warn,
    Info,
    Debug,
}

} // verus!
