use vstd::prelude::*;

verus! {

/// The terminal's size could not be queried.
#[derive(Debug, Clone, Copy, PartialEq, Eq)]
pub struct TerminalSizeError;

} // verus!
