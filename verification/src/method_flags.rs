use vstd::prelude::*;

verus! {

/// The access-flag bitmask of a method. Only the known flag bits may be set;
/// the decoder rejects any other bit.
#[derive(Debug, PartialEq, Eq, Clone, Copy, Structural)]
pub struct MethodFlags {
    pub bits: u16,
}

impl MethodFlags {
    pub const PUBLIC: u16 = 0x0001;

    pub const PRIVATE: u16 = 0x0002;

    pub const PROTECTED: u16 = 0x0004;

    pub const STATIC: u16 = 0x0008;

    pub const FINAL: u16 = 0x0010;

    pub const SYNCHRONIZED: u16 = 0x0020;

    pub const BRIDGE: u16 = 0x0040;

    pub const VARARGS: u16 = 0x0080;

    pub const NATIVE: u16 = 0x0100;

    pub const ABSTRACT: u16 = 0x0400;

    pub const STRICT: u16 = 0x0800;

    pub const SYNTHETIC: u16 = 0x1000;

    /// The union of all known method flags.
    pub const KNOWN: u16 = 0x0001 | 0x0002 | 0x0004 | 0x0008 | 0x0010 | 0x0020 | 0x0040 | 0x0080
        | 0x0100 | 0x0400 | 0x0800 | 0x1000;

    /// A mask is valid when it sets known bits only.
    pub open spec fn spec_valid_bits(bits: u16) -> bool {
        bits & !MethodFlags::KNOWN == 0
    }

    /// Whether a method with these flags is native or abstract, and so
    /// carries no code block.
    pub open spec fn spec_is_native_or_abstract(self) -> bool {
        self.bits & MethodFlags::NATIVE == MethodFlags::NATIVE || self.bits
            & MethodFlags::ABSTRACT == MethodFlags::ABSTRACT
    }

    pub fn empty() -> (r: Self)
        ensures
            r.bits == 0,
    {
        MethodFlags { bits: 0 }
    }

    /// Accepts a bitmask that sets known flags only.
    pub fn from_bits(bits: u16) -> (r: Option<Self>)
        ensures
            Self::spec_valid_bits(bits) ==> r == Some(MethodFlags { bits }),
            !Self::spec_valid_bits(bits) ==> r is None,
    {
        if bits & !MethodFlags::KNOWN == 0 {
            Some(MethodFlags { bits })
        } else {
            None
        }
    }

    /// Whether every bit of `mask` is set.
    pub fn contains(&self, mask: u16) -> (r: bool)
        ensures
            r == (self.bits & mask == mask),
    {
        self.bits & mask == mask
    }
}

} // verus!
