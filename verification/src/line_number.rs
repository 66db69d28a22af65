use vstd::prelude::*;

verus! {

/// A line number in the source code that a class was compiled from.
#[derive(Debug, PartialEq, Eq, Clone, Copy, PartialOrd, Ord, Structural)]
pub struct LineNumber(pub u16);

} // verus!
