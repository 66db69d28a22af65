use core::ops::Range;
use vstd::prelude::*;
use crate::program_counter::ProgramCounter;

verus! {

/// The mathematical shape of an exception-table entry.
#[verifier::ext_equal]
pub ghost struct ExceptionTableEntryView {
    pub start: ProgramCounter,
    pub end: ProgramCounter,
    pub handler_pc: ProgramCounter,
    pub catch_class: Option<Seq<char>>,
}

/// One entry of a method's exception table: a half-open program-counter
/// range, the handler address, and the class filter (`None` catches
/// everything, as a finally-style handler does).
#[derive(Debug, PartialEq)]
pub struct ExceptionTableEntry {
    /// The half-open range of program counters that this entry covers.
    pub range: Range<ProgramCounter>,
    /// The address of the handler of this entry.
    pub handler_pc: ProgramCounter,
    /// The class or superclass that matches this entry.
    pub catch_class: Option<String>,
}

impl View for ExceptionTableEntry {
    type V = ExceptionTableEntryView;

    open spec fn view(&self) -> ExceptionTableEntryView {
        ExceptionTableEntryView {
            start: self.range.start,
            end: self.range.end,
            handler_pc: self.handler_pc,
            catch_class: match &self.catch_class {
                Some(s) => Some(s@),
                None => None,
            },
        }
    }
}

impl DeepView for ExceptionTableEntry {
    type V = ExceptionTableEntryView;

    open spec fn deep_view(&self) -> ExceptionTableEntryView {
        self.view()
    }
}

impl Clone for ExceptionTableEntry {
    fn clone(&self) -> (r: Self)
        ensures
            r@ == self@,
    {
        ExceptionTableEntry {
            range: Range { start: self.range.start, end: self.range.end },
            handler_pc: self.handler_pc,
            catch_class: match &self.catch_class {
                Some(s) => Some(s.clone()),
                None => None,
            },
        }
    }
}

/// Whether an entry covers a program counter: its range is half-open, so
/// `start` is covered and `end` is not.
pub open spec fn spec_entry_covers(e: ExceptionTableEntryView, pc: ProgramCounter) -> bool {
    e.start.0 <= pc.0 < e.end.0
}

/// The exception table of a method's code, in declaration order.
#[derive(Debug, PartialEq)]
pub struct ExceptionTable {
    pub entries: Vec<ExceptionTableEntry>,
}

impl View for ExceptionTable {
    type V = Seq<ExceptionTableEntryView>;

    open spec fn view(&self) -> Seq<ExceptionTableEntryView> {
        self.entries.deep_view()
    }
}

impl DeepView for ExceptionTable {
    type V = Seq<ExceptionTableEntryView>;

    open spec fn deep_view(&self) -> Seq<ExceptionTableEntryView> {
        self.entries.deep_view()
    }
}

impl ExceptionTable {
    pub fn new(entries: Vec<ExceptionTableEntry>) -> (r: Self)
        ensures
            r@ == entries.deep_view(),
    {
        ExceptionTable { entries }
    }

    /// The entries whose half-open range covers `pc`, in declaration order:
    /// of overlapping entries, the first-declared comes first.
    #[verifier::loop_isolation(false)]
    pub fn lookup(&self, pc: ProgramCounter) -> (r: Vec<&ExceptionTableEntry>)
        ensures
            r.deep_view() == self@.filter(|e: ExceptionTableEntryView| spec_entry_covers(e, pc)),
    {
        let ghost pred = |e: ExceptionTableEntryView| spec_entry_covers(e, pc);
        let mut result: Vec<&ExceptionTableEntry> = Vec::new();
        let mut i: usize = 0;
        proof {
            assert(result.deep_view() =~= self@.subrange(0, 0).filter(pred));
        }
        while i < self.entries.len()
            invariant
                i <= self.entries.len(),
                result.deep_view() == self@.subrange(0, i as int).filter(pred),
            decreases self.entries.len() - i,
        {
            let entry = &self.entries[i];
            let ghost prefix = self@.subrange(0, i as int);
            let ghost before = result.deep_view();
            if entry.range.start.0 <= pc.0 && pc.0 < entry.range.end.0 {
                result.push(entry);
                proof {
                    assert(result.deep_view() =~= before.push(entry@));
                }
            }
            proof {
                reveal_with_fuel(Seq::<_>::filter, 2);
                let single = seq![entry@];
                let extended = self@.subrange(0, i + 1);
                assert(extended =~= prefix + single);
                Seq::<ExceptionTableEntryView>::filter_distributes_over_add(prefix, single, pred);
                assert(single.drop_last() =~= Seq::<ExceptionTableEntryView>::empty());
                if spec_entry_covers(entry@, pc) {
                    assert(single.filter(pred) =~= single);
                    assert(prefix.filter(pred) + single =~= prefix.filter(pred).push(entry@));
                } else {
                    assert(single.filter(pred) =~= Seq::<ExceptionTableEntryView>::empty());
                    assert(prefix.filter(pred) + single.filter(pred) =~= prefix.filter(pred));
                }
                assert(result.deep_view() =~= extended.filter(pred));
            }
            i = i + 1;
        }
        proof {
            assert(self@.subrange(0, self@.len() as int) =~= self@);
        }
        result
    }
}

} // verus!
