//! The legacy `validators` command: its arguments are kept only so that the
//! matching new-syntax command can be suggested.

use vstd::prelude::*;

verus! {

/// The arguments of the legacy command, taken as they come.
#[derive(Debug, PartialEq, Eq)]
pub struct ValidatorsArgs {
    pub epoch: String,
    pub unknown_args: Vec<String>,
}

impl ValidatorsArgs {
    pub fn new(epoch: String, unknown_args: Vec<String>) -> (r: ValidatorsArgs)
        ensures
            r.epoch == epoch,
            r.unknown_args == unknown_args,
    {
        ValidatorsArgs { epoch, unknown_args }
    }
}

} // verus!
