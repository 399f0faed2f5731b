//! Which lines the program logs.

use crate::text::{trim, trim_matches, trimmed, trimmed_of};
use vstd::prelude::*;
use vstd::string::*;

verus! {

/// The filter that the variable `RUST_LOG` stands for: `info` where the
/// variable was not read, else its content, in both cases without the white
/// space around it and then without the double quotes around it.
pub open spec fn directives(rust_log: Option<Seq<char>>) -> Seq<char> {
    trimmed_of(
        trimmed(
            match rust_log {
                Some(content) => content,
                None => "info"@,
            },
        ),
        '"',
    )
}

/// The filter for the log, from the variable `RUST_LOG` as it was looked
/// up: its content where it was read, else `info`. White space around the
/// filter is dropped, and then the double quotes around it.
pub fn init(rust_log: Option<&str>) -> (filter: &str)
    ensures
        filter@ == directives(
            match rust_log {
                Some(content) => Some(content@),
                None => None,
            },
        ),
{
    let content = match rust_log {
        Some(content) => content,
        None => "info",
    };
    trim_matches(trim(content), '"')
}

} // verus!
