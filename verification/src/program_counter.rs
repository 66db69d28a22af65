use vstd::prelude::*;

verus! {

/// The address of an instruction in the bytecode of a method, as a byte
/// offset from the start of the method's code.
#[derive(Debug, PartialEq, Eq, Clone, Copy, PartialOrd, Ord, Structural)]
pub struct ProgramCounter(pub u16);

} // verus!
