use vstd::prelude::*;
use crate::line_number::LineNumber;
use crate::program_counter::ProgramCounter;

verus! {

/// One entry of a line-number table: a program counter and the source line
/// that the code at that address was compiled from.
#[derive(Debug, PartialEq, Eq, Clone, Copy, Structural)]
pub struct LineNumberTableEntry {
    pub program_counter: ProgramCounter,
    pub line_number: LineNumber,
}

impl LineNumberTableEntry {
    pub fn new(program_counter: ProgramCounter, line_number: LineNumber) -> (r: Self)
        ensures
            r == (LineNumberTableEntry { program_counter, line_number }),
    {
        LineNumberTableEntry { program_counter, line_number }
    }
}

/// The line-number table of a method's code, in declaration order.
#[derive(Debug, PartialEq)]
pub struct LineNumberTable {
    pub entries: Vec<LineNumberTableEntry>,
}

impl View for LineNumberTable {
    type V = Seq<LineNumberTableEntry>;

    open spec fn view(&self) -> Seq<LineNumberTableEntry> {
        self.entries@
    }
}

impl DeepView for LineNumberTable {
    type V = Seq<LineNumberTableEntry>;

    open spec fn deep_view(&self) -> Seq<LineNumberTableEntry> {
        self.entries@
    }
}

impl LineNumberTable {
    pub fn new(entries: Vec<LineNumberTableEntry>) -> (r: Self)
        ensures
            r@ == entries@,
    {
        LineNumberTable { entries }
    }
}

} // verus!
