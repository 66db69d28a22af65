use vstd::prelude::*;

verus! {

/// The access-flag bitmask of a field. Only the known flag bits may be set;
/// the decoder rejects any other bit.
#[derive(Debug, PartialEq, Eq, Clone, Copy, Structural)]
pub struct FieldFlags {
    pub bits: u16,
}

impl FieldFlags {
    pub const PUBLIC: u16 = 0x0001;

    pub const PRIVATE: u16 = 0x0002;

    pub const PROTECTED: u16 = 0x0004;

    pub const STATIC: u16 = 0x0008;

    pub const FINAL: u16 = 0x0010;

    pub const VOLATILE: u16 = 0x0040;

    pub const TRANSIENT: u16 = 0x0080;

    pub const SYNTHETIC: u16 = 0x1000;

    pub const ENUM: u16 = 0x4000;

    /// The union of all known field flags.
    pub const KNOWN: u16 = 0x0001 | 0x0002 | 0x0004 | 0x0008 | 0x0010 | 0x0040 | 0x0080 | 0x1000
        | 0x4000;

    /// A mask is valid when it sets known bits only.
    pub open spec fn spec_valid_bits(bits: u16) -> bool {
        bits & !FieldFlags::KNOWN == 0
    }

    pub fn empty() -> (r: Self)
        ensures
            r.bits == 0,
    {
        FieldFlags { bits: 0 }
    }

    /// Accepts a bitmask that sets known flags only.
    pub fn from_bits(bits: u16) -> (r: Option<Self>)
        ensures
            Self::spec_valid_bits(bits) ==> r == Some(FieldFlags { bits }),
            !Self::spec_valid_bits(bits) ==> r is None,
    {
        if bits & !FieldFlags::KNOWN == 0 {
            Some(FieldFlags { bits })
        } else {
            None
        }
    }

    /// Whether every bit of `mask` is set.
    pub fn contains(&self, mask: u16) -> (r: bool)
        ensures
            r == (self.bits & mask == mask),
    {
        self.bits & mask == mask
    }
}

} // verus!
