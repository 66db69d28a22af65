use vstd::prelude::*;

verus! {

/// The access-flag bitmask of a class. Only the known flag bits may be set;
/// the decoder rejects any other bit.
#[derive(Debug, PartialEq, Eq, Clone, Copy, Structural)]
pub struct ClassAccessFlags {
    pub bits: u16,
}

impl ClassAccessFlags {
    pub const PUBLIC: u16 = 0x0001;

    pub const FINAL: u16 = 0x0010;

    pub const SUPER: u16 = 0x0020;

    pub const INTERFACE: u16 = 0x0200;

    pub const ABSTRACT: u16 = 0x0400;

    pub const SYNTHETIC: u16 = 0x1000;

    pub const ANNOTATION: u16 = 0x2000;

    pub const ENUM: u16 = 0x4000;

    /// The union of all known class flags.
    pub const KNOWN: u16 = 0x0001 | 0x0010 | 0x0020 | 0x0200 | 0x0400 | 0x1000 | 0x2000 | 0x4000;

    /// A mask is valid when it sets known bits only.
    pub open spec fn spec_valid_bits(bits: u16) -> bool {
        bits & !ClassAccessFlags::KNOWN == 0
    }

    pub fn empty() -> (r: Self)
        ensures
            r.bits == 0,
    {
        ClassAccessFlags { bits: 0 }
    }

    /// Accepts a bitmask that sets known flags only.
    pub fn from_bits(bits: u16) -> (r: Option<Self>)
        ensures
            Self::spec_valid_bits(bits) ==> r == Some(ClassAccessFlags { bits }),
            !Self::spec_valid_bits(bits) ==> r is None,
    {
        if bits & !ClassAccessFlags::KNOWN == 0 {
            Some(ClassAccessFlags { bits })
        } else {
            None
        }
    }

    /// Whether every bit of `mask` is set.
    pub fn contains(&self, mask: u16) -> (r: bool)
        ensures
            r == (self.bits & mask == mask),
    {
        self.bits & mask == mask
    }
}

impl Default for ClassAccessFlags {
    fn default() -> (r: Self)
        ensures
            r.bits == 0,
    {
        ClassAccessFlags { bits: 0 }
    }
}

} // verus!
