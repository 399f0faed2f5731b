//! The commands that the bot offers.

use vstd::prelude::*;
use vstd::string::*;

verus! {

/// The command that is answered with `pong`.
#[derive(Debug, Clone, Copy, PartialEq, Eq)]
pub struct Ping;

impl Ping {
    /// The name under which the command is registered.
    pub fn name() -> (name: &'static str)
        ensures
            name@ == "ping"@,
    {
        "ping"
    }

    /// What the command is said to do.
    pub fn description() -> (description: &'static str)
        ensures
            description@ == "Responds back with pong"@,
    {
        "Responds back with pong"
    }
}

} // verus!
