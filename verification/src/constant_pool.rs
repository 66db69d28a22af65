use vstd::prelude::*;
use vstd::string::StringExecFns;
use crate::numerals::dec_i64;
use crate::numerals::dec_u64;
use crate::numerals::hex_u64;
use crate::numerals::spec_dec_int;
use crate::numerals::spec_dec_nat;
use crate::numerals::spec_hex_nat;

verus! {

/// The mathematical shape of a constant-pool entry.
#[verifier::ext_equal]
pub ghost enum ConstantPoolEntryView {
    Utf8(Seq<char>),
    Integer(i32),
    Float(u32),
    Long(i64),
    Double(u64),
    ClassReference(u16),
    StringReference(u16),
    FieldReference(u16, u16),
    MethodReference(u16, u16),
    InterfaceMethodReference(u16, u16),
    NameAndTypeDescriptor(u16, u16),
}

/// One constant in the pool of a class. Floating-point constants are kept as
/// their raw IEEE-754 bit patterns; this reader never interprets them
/// numerically, and diagnostics render the bit pattern in hexadecimal.
#[derive(Debug, PartialEq)]
pub enum ConstantPoolEntry {
    Utf8(String),
    Integer(i32),
    /// The bits of a 32-bit IEEE-754 floating-point constant.
    Float(u32),
    Long(i64),
    /// The bits of a 64-bit IEEE-754 floating-point constant.
    Double(u64),
    ClassReference(u16),
    StringReference(u16),
    FieldReference(u16, u16),
    MethodReference(u16, u16),
    InterfaceMethodReference(u16, u16),
    NameAndTypeDescriptor(u16, u16),
}

impl View for ConstantPoolEntry {
    type V = ConstantPoolEntryView;

    open spec fn view(&self) -> ConstantPoolEntryView {
        match self {
            ConstantPoolEntry::Utf8(s) => ConstantPoolEntryView::Utf8(s@),
            ConstantPoolEntry::Integer(v) => ConstantPoolEntryView::Integer(*v),
            ConstantPoolEntry::Float(v) => ConstantPoolEntryView::Float(*v),
            ConstantPoolEntry::Long(v) => ConstantPoolEntryView::Long(*v),
            ConstantPoolEntry::Double(v) => ConstantPoolEntryView::Double(*v),
            ConstantPoolEntry::ClassReference(v) => ConstantPoolEntryView::ClassReference(*v),
            ConstantPoolEntry::StringReference(v) => ConstantPoolEntryView::StringReference(*v),
            ConstantPoolEntry::FieldReference(a, b) => ConstantPoolEntryView::FieldReference(
                *a,
                *b,
            ),
            ConstantPoolEntry::MethodReference(a, b) => ConstantPoolEntryView::MethodReference(
                *a,
                *b,
            ),
            ConstantPoolEntry::InterfaceMethodReference(a, b) => {
                ConstantPoolEntryView::InterfaceMethodReference(*a, *b)
            },
            ConstantPoolEntry::NameAndTypeDescriptor(a, b) => {
                ConstantPoolEntryView::NameAndTypeDescriptor(*a, *b)
            },
        }
    }
}

impl DeepView for ConstantPoolEntry {
    type V = ConstantPoolEntryView;

    open spec fn deep_view(&self) -> ConstantPoolEntryView {
        self.view()
    }
}

impl Clone for ConstantPoolEntry {
    fn clone(&self) -> (r: Self)
        ensures
            r@ == self@,
    {
        match self {
            ConstantPoolEntry::Utf8(s) => ConstantPoolEntry::Utf8(s.clone()),
            ConstantPoolEntry::Integer(v) => ConstantPoolEntry::Integer(*v),
            ConstantPoolEntry::Float(v) => ConstantPoolEntry::Float(*v),
            ConstantPoolEntry::Long(v) => ConstantPoolEntry::Long(*v),
            ConstantPoolEntry::Double(v) => ConstantPoolEntry::Double(*v),
            ConstantPoolEntry::ClassReference(v) => ConstantPoolEntry::ClassReference(*v),
            ConstantPoolEntry::StringReference(v) => ConstantPoolEntry::StringReference(*v),
            ConstantPoolEntry::FieldReference(a, b) => ConstantPoolEntry::FieldReference(*a, *b),
            ConstantPoolEntry::MethodReference(a, b) => ConstantPoolEntry::MethodReference(*a, *b),
            ConstantPoolEntry::InterfaceMethodReference(a, b) => {
                ConstantPoolEntry::InterfaceMethodReference(*a, *b)
            },
            ConstantPoolEntry::NameAndTypeDescriptor(a, b) => {
                ConstantPoolEntry::NameAndTypeDescriptor(*a, *b)
            },
        }
    }
}

/// Whether an entry occupies two logical pool slots.
pub open spec fn entry_is_wide(e: ConstantPoolEntryView) -> bool {
    e is Long || e is Double
}

/// The mathematical shape of one physical pool slot.
#[verifier::ext_equal]
pub ghost enum PhysicalEntryView {
    Entry(ConstantPoolEntryView),
    Tombstone,
}

/// One physical slot of the pool: a live entry, or the unaddressable
/// placeholder that fills the second slot consumed by a wide entry.
#[derive(Debug, PartialEq)]
pub enum ConstantPoolPhysicalEntry {
    Entry(ConstantPoolEntry),
    MultiByteEntryTombstone,
}

impl View for ConstantPoolPhysicalEntry {
    type V = PhysicalEntryView;

    open spec fn view(&self) -> PhysicalEntryView {
        match self {
            ConstantPoolPhysicalEntry::Entry(e) => PhysicalEntryView::Entry(e@),
            ConstantPoolPhysicalEntry::MultiByteEntryTombstone => PhysicalEntryView::Tombstone,
        }
    }
}

impl DeepView for ConstantPoolPhysicalEntry {
    type V = PhysicalEntryView;

    open spec fn deep_view(&self) -> PhysicalEntryView {
        self.view()
    }
}

impl Clone for ConstantPoolPhysicalEntry {
    fn clone(&self) -> (r: Self)
        ensures
            r@ == self@,
    {
        match self {
            ConstantPoolPhysicalEntry::Entry(e) => ConstantPoolPhysicalEntry::Entry(e.clone()),
            ConstantPoolPhysicalEntry::MultiByteEntryTombstone => {
                ConstantPoolPhysicalEntry::MultiByteEntryTombstone
            },
        }
    }
}

/// The constant pool of a class: the 1-based, index-addressable table of
/// literals and symbolic references. Wide (long or double) entries are
/// followed by a tombstone slot that keeps index arithmetic intact and is
/// never independently addressable.
#[derive(Debug)]
pub struct ConstantPool {
    pub entries: Vec<ConstantPoolPhysicalEntry>,
}

impl View for ConstantPool {
    type V = Seq<PhysicalEntryView>;

    open spec fn view(&self) -> Seq<PhysicalEntryView> {
        self.entries.deep_view()
    }
}

/// The structural invariant of the pool: every wide entry is followed by a
/// tombstone, and every tombstone follows a wide entry.
pub open spec fn spec_pool_wf(pool: Seq<PhysicalEntryView>) -> bool {
    forall|i: int|
        0 <= i < pool.len() ==> match #[trigger] pool[i] {
            PhysicalEntryView::Entry(e) => {
                entry_is_wide(e) ==> i + 1 < pool.len() && pool[i + 1] is Tombstone
            },
            PhysicalEntryView::Tombstone => {
                i > 0 && (pool[i - 1] matches PhysicalEntryView::Entry(e) && entry_is_wide(e))
            },
        }
}

/// What a 1-based lookup yields: the live entry, or the offending index for
/// index zero, an out-of-range index, and a tombstone index alike.
pub open spec fn spec_get(pool: Seq<PhysicalEntryView>, index: u16) -> Result<
    ConstantPoolEntryView,
    u16,
> {
    if index == 0 || index > pool.len() {
        Err(index)
    } else {
        match pool[index - 1] {
            PhysicalEntryView::Entry(e) => Ok(e),
            PhysicalEntryView::Tombstone => Err(index),
        }
    }
}

/// The textual rendering of a 32-bit floating-point constant: its raw bit
/// pattern in hexadecimal.
pub open spec fn spec_float_bits_text(bits: u32) -> Seq<char> {
    "0x"@ + spec_hex_nat(bits as nat, 8)
}

/// The textual rendering of a 64-bit floating-point constant: its raw bit
/// pattern in hexadecimal.
pub open spec fn spec_double_bits_text(bits: u64) -> Seq<char> {
    "0x"@ + spec_hex_nat(bits as nat, 16)
}

/// What resolving `index` to text yields, with a recursion budget of `fuel`:
/// literals stringify directly, class and string references resolve through
/// one indirection, member references resolve to `owner.member`, and
/// name-and-type entries to `name: descriptor`. A lookup failure, or an
/// exhausted budget, yields the offending index.
pub open spec fn spec_text_of(pool: Seq<PhysicalEntryView>, index: u16, fuel: nat) -> Result<
    Seq<char>,
    u16,
>
    decreases fuel,
{
    if fuel == 0 {
        Err(index)
    } else {
        match spec_get(pool, index) {
            Err(i) => Err(i),
            Ok(entry) => match entry {
                ConstantPoolEntryView::Utf8(s) => Ok(s),
                ConstantPoolEntryView::Integer(v) => Ok(spec_dec_int(v as int)),
                ConstantPoolEntryView::Float(bits) => Ok(spec_float_bits_text(bits)),
                ConstantPoolEntryView::Long(v) => Ok(spec_dec_int(v as int)),
                ConstantPoolEntryView::Double(bits) => Ok(spec_double_bits_text(bits)),
                ConstantPoolEntryView::ClassReference(n) => spec_text_of(
                    pool,
                    n,
                    (fuel - 1) as nat,
                ),
                ConstantPoolEntryView::StringReference(n) => spec_text_of(
                    pool,
                    n,
                    (fuel - 1) as nat,
                ),
                ConstantPoolEntryView::FieldReference(i, j) => {
                    match spec_text_of(pool, i, (fuel - 1) as nat) {
                        Err(x) => Err(x),
                        Ok(a) => match spec_text_of(pool, j, (fuel - 1) as nat) {
                            Err(x) => Err(x),
                            Ok(b) => Ok(a + "."@ + b),
                        },
                    }
                },
                ConstantPoolEntryView::MethodReference(i, j) => {
                    match spec_text_of(pool, i, (fuel - 1) as nat) {
                        Err(x) => Err(x),
                        Ok(a) => match spec_text_of(pool, j, (fuel - 1) as nat) {
                            Err(x) => Err(x),
                            Ok(b) => Ok(a + "."@ + b),
                        },
                    }
                },
                ConstantPoolEntryView::InterfaceMethodReference(i, j) => {
                    match spec_text_of(pool, i, (fuel - 1) as nat) {
                        Err(x) => Err(x),
                        Ok(a) => match spec_text_of(pool, j, (fuel - 1) as nat) {
                            Err(x) => Err(x),
                            Ok(b) => Ok(a + "."@ + b),
                        },
                    }
                },
                ConstantPoolEntryView::NameAndTypeDescriptor(i, j) => {
                    match spec_text_of(pool, i, (fuel - 1) as nat) {
                        Err(x) => Err(x),
                        Ok(a) => match spec_text_of(pool, j, (fuel - 1) as nat) {
                            Err(x) => Err(x),
                            Ok(b) => Ok(a + ": "@ + b),
                        },
                    }
                },
            },
        }
    }
}

/// What rendering the entry at `index` for a pool dump yields, with a
/// recursion budget of `fuel`: each entry is shown with its variant name,
/// and references also show the entries they point at.
pub open spec fn spec_fmt_entry(pool: Seq<PhysicalEntryView>, index: u16, fuel: nat) -> Result<
    Seq<char>,
    u16,
>
    decreases fuel, 0int,
{
    if fuel == 0 {
        Err(index)
    } else {
        match spec_get(pool, index) {
            Err(i) => Err(i),
            Ok(entry) => match entry {
                ConstantPoolEntryView::Utf8(s) => Ok("String: \""@ + s + "\""@),
                ConstantPoolEntryView::Integer(v) => Ok("Integer: "@ + spec_dec_int(v as int)),
                ConstantPoolEntryView::Float(bits) => Ok("Float: "@ + spec_float_bits_text(bits)),
                ConstantPoolEntryView::Long(v) => Ok("Long: "@ + spec_dec_int(v as int)),
                ConstantPoolEntryView::Double(bits) => Ok(
                    "Double: "@ + spec_double_bits_text(bits),
                ),
                ConstantPoolEntryView::ClassReference(n) => {
                    match spec_fmt_entry(pool, n, (fuel - 1) as nat) {
                        Err(x) => Err(x),
                        Ok(t) => Ok(
                            "ClassReference: "@ + spec_dec_nat(n as nat) + " => ("@ + t + ")"@,
                        ),
                    }
                },
                ConstantPoolEntryView::StringReference(n) => {
                    match spec_fmt_entry(pool, n, (fuel - 1) as nat) {
                        Err(x) => Err(x),
                        Ok(t) => Ok(
                            "StringReference: "@ + spec_dec_nat(n as nat) + " => ("@ + t + ")"@,
                        ),
                    }
                },
                ConstantPoolEntryView::FieldReference(i, j) => {
                    spec_fmt_entry_pair(pool, "FieldReference: "@, i, j, (fuel - 1) as nat)
                },
                ConstantPoolEntryView::MethodReference(i, j) => {
                    spec_fmt_entry_pair(pool, "MethodReference: "@, i, j, (fuel - 1) as nat)
                },
                ConstantPoolEntryView::InterfaceMethodReference(i, j) => {
                    spec_fmt_entry_pair(
                        pool,
                        "InterfaceMethodReference: "@,
                        i,
                        j,
                        (fuel - 1) as nat,
                    )
                },
                ConstantPoolEntryView::NameAndTypeDescriptor(i, j) => {
                    spec_fmt_entry_pair(pool, "NameAndTypeDescriptor: "@, i, j, (fuel - 1) as nat)
                },
            },
        }
    }
}

/// The dump rendering shared by the two-index entry kinds:
/// `label i, j => (entry at i), (entry at j)`.
pub open spec fn spec_fmt_entry_pair(
    pool: Seq<PhysicalEntryView>,
    label: Seq<char>,
    i: u16,
    j: u16,
    fuel: nat,
) -> Result<Seq<char>, u16>
    decreases fuel, 1int,
{
    match spec_fmt_entry(pool, i, fuel) {
        Err(x) => Err(x),
        Ok(a) => match spec_fmt_entry(pool, j, fuel) {
            Err(x) => Err(x),
            Ok(b) => Ok(
                label + spec_dec_nat(i as nat) + ", "@ + spec_dec_nat(j as nat) + " => ("@ + a
                    + "), ("@ + b + ")"@,
            ),
        },
    }
}

/// Renders a 32-bit float constant's bit pattern.
fn float_bits_text(bits: u32) -> (r: String)
    ensures
        r@ == spec_float_bits_text(bits),
{
    String::from_str("0x").concat(hex_u64(bits as u64, 8).as_str())
}

/// Renders a 64-bit float constant's bit pattern.
fn double_bits_text(bits: u64) -> (r: String)
    ensures
        r@ == spec_double_bits_text(bits),
{
    String::from_str("0x").concat(hex_u64(bits, 16).as_str())
}

/// The diagnostic text of a failed pool lookup.
pub open spec fn spec_index_error_message(index: u16) -> Seq<char> {
    "invalid constant pool index: "@ + spec_dec_nat(index as nat)
}

/// Signals an attempt to access a non-existing constant-pool entry.
#[derive(Debug, PartialEq, Eq, Clone, Copy, Structural)]
pub struct InvalidConstantPoolIndexError {
    pub index: u16,
}

impl InvalidConstantPoolIndexError {
    pub fn new(index: u16) -> (r: Self)
        ensures
            r == (InvalidConstantPoolIndexError { index }),
    {
        InvalidConstantPoolIndexError { index }
    }

    /// The human-readable rendering of this error.
    pub fn message(&self) -> (r: String)
        ensures
            r@ == spec_index_error_message(self.index),
    {
        String::from_str("invalid constant pool index: ").concat(dec_u64(self.index as u64).as_str())
    }
}

impl Default for ConstantPool {
    /// An empty pool.
    fn default() -> (r: ConstantPool)
        ensures
            r@ == Seq::<PhysicalEntryView>::empty(),
    {
        ConstantPool::new()
    }
}

impl ConstantPool {
    pub fn new() -> (r: ConstantPool)
        ensures
            r@ == Seq::<PhysicalEntryView>::empty(),
    {
        let pool = ConstantPool { entries: Vec::new() };
        proof {
            assert(pool@ =~= Seq::<PhysicalEntryView>::empty());
        }
        pool
    }

    /// Appends an entry; a wide entry also claims the following slot with a
    /// tombstone.
    pub fn add(&mut self, entry: ConstantPoolEntry)
        ensures
            final(self)@ == if entry_is_wide(entry@) {
                old(self)@ + seq![
                    PhysicalEntryView::Entry(entry@),
                    PhysicalEntryView::Tombstone,
                ]
            } else {
                old(self)@ + seq![PhysicalEntryView::Entry(entry@)]
            },
            spec_pool_wf(old(self)@) ==> spec_pool_wf(final(self)@),
    {
        let add_tombstone = match &entry {
            ConstantPoolEntry::Long(_) => true,
            ConstantPoolEntry::Double(_) => true,
            _ => false,
        };
        let ghost old_view = self@;
        let ghost entry_view = entry@;
        self.entries.push(ConstantPoolPhysicalEntry::Entry(entry));
        if add_tombstone {
            self.entries.push(ConstantPoolPhysicalEntry::MultiByteEntryTombstone);
            proof {
                assert(self@ =~= old_view + seq![
                    PhysicalEntryView::Entry(entry_view),
                    PhysicalEntryView::Tombstone,
                ]);
            }
        } else {
            proof {
                assert(self@ =~= old_view + seq![PhysicalEntryView::Entry(entry_view)]);
            }
        }
    }

    /// Resolves an index to its human-readable text: literals stringify
    /// directly, references resolve through the pool. The resolution depth is
    /// bounded by the pool size, so an adversarially cyclic pool fails with
    /// the index at which the bound ran out instead of recursing forever.
    pub fn text_of(&self, idx: u16) -> (r: Result<String, InvalidConstantPoolIndexError>)
        ensures
            match spec_text_of(self@, idx, self@.len() as nat) {
                Ok(s) => r matches Ok(text) && text@ == s,
                Err(i) => r == Err::<String, InvalidConstantPoolIndexError>(
                    InvalidConstantPoolIndexError { index: i },
                ),
            },
    {
        let fuel = self.entries.len();
        self.text_of_impl(idx, fuel)
    }

    fn text_of_impl(&self, idx: u16, fuel: usize) -> (r: Result<
        String,
        InvalidConstantPoolIndexError,
    >)
        ensures
            match spec_text_of(self@, idx, fuel as nat) {
                Ok(s) => r matches Ok(text) && text@ == s,
                Err(i) => r == Err::<String, InvalidConstantPoolIndexError>(
                    InvalidConstantPoolIndexError { index: i },
                ),
            },
        decreases fuel,
    {
        if fuel == 0 {
            return Err(InvalidConstantPoolIndexError::new(idx));
        }
        let entry = match self.get(idx) {
            Ok(e) => e,
            Err(e) => {
                return Err(e);
            },
        };
        match entry {
            ConstantPoolEntry::Utf8(s) => Ok(s.clone()),
            ConstantPoolEntry::Integer(v) => Ok(dec_i64(*v as i64)),
            ConstantPoolEntry::Float(bits) => Ok(float_bits_text(*bits)),
            ConstantPoolEntry::Long(v) => Ok(dec_i64(*v)),
            ConstantPoolEntry::Double(bits) => Ok(double_bits_text(*bits)),
            ConstantPoolEntry::ClassReference(n) => self.text_of_impl(*n, fuel - 1),
            ConstantPoolEntry::StringReference(n) => self.text_of_impl(*n, fuel - 1),
            ConstantPoolEntry::FieldReference(i, j) => {
                let a = match self.text_of_impl(*i, fuel - 1) {
                    Ok(t) => t,
                    Err(e) => {
                        return Err(e);
                    },
                };
                let b = match self.text_of_impl(*j, fuel - 1) {
                    Ok(t) => t,
                    Err(e) => {
                        return Err(e);
                    },
                };
                Ok(a.concat(".").concat(b.as_str()))
            },
            ConstantPoolEntry::MethodReference(i, j) => {
                let a = match self.text_of_impl(*i, fuel - 1) {
                    Ok(t) => t,
                    Err(e) => {
                        return Err(e);
                    },
                };
                let b = match self.text_of_impl(*j, fuel - 1) {
                    Ok(t) => t,
                    Err(e) => {
                        return Err(e);
                    },
                };
                Ok(a.concat(".").concat(b.as_str()))
            },
            ConstantPoolEntry::InterfaceMethodReference(i, j) => {
                let a = match self.text_of_impl(*i, fuel - 1) {
                    Ok(t) => t,
                    Err(e) => {
                        return Err(e);
                    },
                };
                let b = match self.text_of_impl(*j, fuel - 1) {
                    Ok(t) => t,
                    Err(e) => {
                        return Err(e);
                    },
                };
                Ok(a.concat(".").concat(b.as_str()))
            },
            ConstantPoolEntry::NameAndTypeDescriptor(i, j) => {
                let a = match self.text_of_impl(*i, fuel - 1) {
                    Ok(t) => t,
                    Err(e) => {
                        return Err(e);
                    },
                };
                let b = match self.text_of_impl(*j, fuel - 1) {
                    Ok(t) => t,
                    Err(e) => {
                        return Err(e);
                    },
                };
                Ok(a.concat(": ").concat(b.as_str()))
            },
        }
    }

    /// Renders the entry at a 1-based index for a pool dump, labelling each
    /// entry with its variant and following references. The recursion depth
    /// is bounded exactly as in [`ConstantPool::text_of`].
    pub fn fmt_entry(&self, idx: u16) -> (r: Result<String, InvalidConstantPoolIndexError>)
        ensures
            match spec_fmt_entry(self@, idx, self@.len() as nat) {
                Ok(s) => r matches Ok(text) && text@ == s,
                Err(i) => r == Err::<String, InvalidConstantPoolIndexError>(
                    InvalidConstantPoolIndexError { index: i },
                ),
            },
    {
        let fuel = self.entries.len();
        self.fmt_entry_impl(idx, fuel)
    }

    fn fmt_entry_impl(&self, idx: u16, fuel: usize) -> (r: Result<
        String,
        InvalidConstantPoolIndexError,
    >)
        ensures
            match spec_fmt_entry(self@, idx, fuel as nat) {
                Ok(s) => r matches Ok(text) && text@ == s,
                Err(i) => r == Err::<String, InvalidConstantPoolIndexError>(
                    InvalidConstantPoolIndexError { index: i },
                ),
            },
        decreases fuel, 0int,
    {
        if fuel == 0 {
            return Err(InvalidConstantPoolIndexError::new(idx));
        }
        let entry = match self.get(idx) {
            Ok(e) => e,
            Err(e) => {
                return Err(e);
            },
        };
        match entry {
            ConstantPoolEntry::Utf8(s) => Ok(
                String::from_str("String: \"").concat(s.as_str()).concat("\""),
            ),
            ConstantPoolEntry::Integer(v) => Ok(
                String::from_str("Integer: ").concat(dec_i64(*v as i64).as_str()),
            ),
            ConstantPoolEntry::Float(bits) => Ok(
                String::from_str("Float: ").concat(float_bits_text(*bits).as_str()),
            ),
            ConstantPoolEntry::Long(v) => Ok(
                String::from_str("Long: ").concat(dec_i64(*v).as_str()),
            ),
            ConstantPoolEntry::Double(bits) => Ok(
                String::from_str("Double: ").concat(double_bits_text(*bits).as_str()),
            ),
            ConstantPoolEntry::ClassReference(n) => {
                let t = match self.fmt_entry_impl(*n, fuel - 1) {
                    Ok(t) => t,
                    Err(e) => {
                        return Err(e);
                    },
                };
                Ok(
                    String::from_str("ClassReference: ").concat(dec_u64(*n as u64).as_str()).concat(
                        " => (",
                    ).concat(t.as_str()).concat(")"),
                )
            },
            ConstantPoolEntry::StringReference(n) => {
                let t = match self.fmt_entry_impl(*n, fuel - 1) {
                    Ok(t) => t,
                    Err(e) => {
                        return Err(e);
                    },
                };
                Ok(
                    String::from_str("StringReference: ").concat(
                        dec_u64(*n as u64).as_str(),
                    ).concat(" => (").concat(t.as_str()).concat(")"),
                )
            },
            ConstantPoolEntry::FieldReference(i, j) => {
                self.fmt_entry_pair("FieldReference: ", *i, *j, fuel - 1)
            },
            ConstantPoolEntry::MethodReference(i, j) => {
                self.fmt_entry_pair("MethodReference: ", *i, *j, fuel - 1)
            },
            ConstantPoolEntry::InterfaceMethodReference(i, j) => {
                self.fmt_entry_pair("InterfaceMethodReference: ", *i, *j, fuel - 1)
            },
            ConstantPoolEntry::NameAndTypeDescriptor(i, j) => {
                self.fmt_entry_pair("NameAndTypeDescriptor: ", *i, *j, fuel - 1)
            },
        }
    }

    fn fmt_entry_pair(&self, label: &str, i: u16, j: u16, fuel: usize) -> (r: Result<
        String,
        InvalidConstantPoolIndexError,
    >)
        ensures
            match spec_fmt_entry_pair(self@, label@, i, j, fuel as nat) {
                Ok(s) => r matches Ok(text) && text@ == s,
                Err(x) => r == Err::<String, InvalidConstantPoolIndexError>(
                    InvalidConstantPoolIndexError { index: x },
                ),
            },
        decreases fuel, 1int,
    {
        let a = match self.fmt_entry_impl(i, fuel) {
            Ok(t) => t,
            Err(e) => {
                return Err(e);
            },
        };
        let b = match self.fmt_entry_impl(j, fuel) {
            Ok(t) => t,
            Err(e) => {
                return Err(e);
            },
        };
        Ok(
            label.to_owned().concat(dec_u64(i as u64).as_str()).concat(", ").concat(
                dec_u64(j as u64).as_str(),
            ).concat(" => (").concat(a.as_str()).concat("), (").concat(b.as_str()).concat(")"),
        )
    }

    /// Accesses an entry given its 1-based index. Index zero, indices past
    /// the end, and tombstone indices fail uniformly.
    pub fn get(&self, input_index: u16) -> (r: Result<
        &ConstantPoolEntry,
        InvalidConstantPoolIndexError,
    >)
        ensures
            match spec_get(self@, input_index) {
                Ok(e) => r matches Ok(entry) && entry@ == e,
                Err(i) => r == Err::<&ConstantPoolEntry, InvalidConstantPoolIndexError>(
                    InvalidConstantPoolIndexError { index: i },
                ),
            },
    {
        if input_index == 0 || input_index as usize > self.entries.len() {
            Err(InvalidConstantPoolIndexError::new(input_index))
        } else {
            let i = (input_index - 1) as usize;
            match &self.entries[i] {
                ConstantPoolPhysicalEntry::Entry(entry) => Ok(entry),
                ConstantPoolPhysicalEntry::MultiByteEntryTombstone => Err(
                    InvalidConstantPoolIndexError::new(input_index),
                ),
            }
        }
    }

    /// A restartable walk over the live entries in physical order, with their
    /// 1-based indices, silently skipping tombstones.
    pub fn iter(&self) -> (r: ConstantPoolIterator)
        ensures
            r.pool == self,
            r.index == 0,
    {
        ConstantPoolIterator { pool: self, index: 0 }
    }
}

/// The physical position of the first live entry at or after `i`, or the
/// pool length when only tombstones remain.
pub open spec fn spec_next_live(pool: Seq<PhysicalEntryView>, i: int) -> int
    decreases pool.len() - i,
{
    if i < 0 || i >= pool.len() {
        pool.len() as int
    } else if pool[i] is Entry {
        i
    } else {
        spec_next_live(pool, i + 1)
    }
}

/// Walks the live entries of a pool in physical order.
pub struct ConstantPoolIterator<'a> {
    pub pool: &'a ConstantPool,
    pub index: usize,
}

impl<'a> ConstantPoolIterator<'a> {
    /// Yields the next live entry and its 1-based index, skipping tombstone
    /// slots.
    pub fn next(&mut self) -> (r: Option<(usize, &'a ConstantPoolEntry)>)
        requires
            old(self).index <= old(self).pool@.len(),
        ensures
            final(self).pool == old(self).pool,
            final(self).index <= final(self).pool@.len(),
            ({
                let pool = old(self).pool@;
                let j = spec_next_live(pool, old(self).index as int);
                if j < pool.len() {
                    r matches Some((index, entry)) && index == j + 1 && (pool[j] matches
                        PhysicalEntryView::Entry(e)
                        && entry@ == e) && final(self).index == j + 1
                } else {
                    r is None && final(self).index == pool.len()
                }
            }),
    {
        loop
            invariant
                self.pool == old(self).pool,
                old(self).index <= self.index <= self.pool@.len(),
                spec_next_live(self.pool@, old(self).index as int) == spec_next_live(
                    self.pool@,
                    self.index as int,
                ),
            decreases self.pool@.len() - self.index,
        {
            if self.index >= self.pool.entries.len() {
                return None;
            }
            let current = self.index;
            match &self.pool.entries[current] {
                ConstantPoolPhysicalEntry::Entry(entry) => {
                    self.index = current + 1;
                    return Some((current + 1, entry));
                },
                ConstantPoolPhysicalEntry::MultiByteEntryTombstone => {
                    self.index = current + 1;
                },
            }
        }
    }
}

/// Law: lookups are 1-based, so index zero always fails, yielding index zero
/// as the offending index.
pub proof fn lemma_pool_get_zero_fails(pool: Seq<PhysicalEntryView>)
    ensures
        spec_get(pool, 0) == Err::<ConstantPoolEntryView, u16>(0u16),
{
}

/// Law: in a well-formed pool holding a wide (long or double) entry at
/// 1-based index `i`, looking up `i` succeeds, while looking up `i + 1` (the
/// tombstone slot) fails with exactly the shape of an out-of-range lookup:
/// the offending index `i + 1`.
pub proof fn lemma_wide_entry_second_slot_unaddressable(pool: Seq<PhysicalEntryView>, i: u16)
    requires
        spec_pool_wf(pool),
        1 <= i,
        i < 0xFFFF,
        i as int <= pool.len(),
        (pool[i - 1] matches PhysicalEntryView::Entry(e) && entry_is_wide(e)),
    ensures
        (spec_get(pool, i) matches Ok(e) && entry_is_wide(e)),
        spec_get(pool, (i + 1) as u16) == Err::<ConstantPoolEntryView, u16>((i + 1) as u16),
{
    assert(pool[i - 1] is Entry);
    assert(pool[i as int] is Tombstone);
}

} // verus!
