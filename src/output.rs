//! What a child that has ended left behind.
use vstd::prelude::*;

use crate::status::ExitStatus;

verus! {

/// What a child left behind: its status and all it wrote to its output
/// streams.
#[derive(PartialEq, Eq, Debug)]
pub struct Output {
    /// The exit status.
    pub status: ExitStatus,
    /// What the child wrote to its standard output.
    pub stdout: Vec<u8>,
    /// What the child wrote to its standard error.
    pub stderr: Vec<u8>,
}

} // verus!
