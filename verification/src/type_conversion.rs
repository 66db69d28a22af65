use vstd::prelude::*;

verus! {

/// Conversion of the narrow integer types that the class-file format uses
/// into `usize`, for values that are known to fit.
pub trait ToUsizeSafe {
    /// The mathematical value being converted.
    spec fn spec_int_value(&self) -> int;

    /// The value as a `usize`; callers must know it is not negative.
    fn into_usize_safe(self) -> (r: usize) where Self: Sized
        requires
            0 <= self.spec_int_value() < usize::MAX as int + 1,
        ensures
            r as int == self.spec_int_value(),
    ;
}

impl ToUsizeSafe for u8 {
    open spec fn spec_int_value(&self) -> int {
        *self as int
    }

    fn into_usize_safe(self) -> usize {
        self as usize
    }
}

impl ToUsizeSafe for u16 {
    open spec fn spec_int_value(&self) -> int {
        *self as int
    }

    fn into_usize_safe(self) -> usize {
        self as usize
    }
}

impl ToUsizeSafe for u32 {
    open spec fn spec_int_value(&self) -> int {
        *self as int
    }

    fn into_usize_safe(self) -> usize {
        self as usize
    }
}

impl ToUsizeSafe for i32 {
    open spec fn spec_int_value(&self) -> int {
        *self as int
    }

    fn into_usize_safe(self) -> usize {
        self as usize
    }
}

} // verus!
