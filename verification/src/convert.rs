//! Conversions that may come back empty.
use vstd::prelude::*;

verus! {

/// A conversion from `T` that yields nothing where `T` has no counterpart.
pub trait MaybeFrom<T>: Sized {
    /// What the conversion yields.
    spec fn converted(value: T) -> Option<Self>;

    /// Performs the conversion.
    fn maybe_from(value: T) -> (r: Option<Self>)
        ensures
            r == Self::converted(value),
    ;
}

/// The conversion seen from the value that is converted.
pub trait MaybeInto<T>: Sized {
    /// What the conversion yields.
    spec fn converted_into(self) -> Option<T>;

    /// Performs the conversion.
    fn maybe_into(self) -> (r: Option<T>)
        ensures
            r == self.converted_into(),
    ;
}

impl<T, U: MaybeFrom<T>> MaybeInto<U> for T {
    open spec fn converted_into(self) -> Option<U> {
        U::converted(self)
    }

    fn maybe_into(self) -> (r: Option<U>) {
        U::maybe_from(self)
    }
}

/// A value converts to its own type, and that never fails.
impl<T> MaybeFrom<T> for T {
    open spec fn converted(value: T) -> Option<T> {
        Some(value)
    }

    fn maybe_from(value: T) -> (r: Option<T>) {
        Some(value)
    }
}

impl MaybeFrom<i128> for i64 {
    open spec fn converted(value: i128) -> Option<i64> {
        if i64::MIN <= value <= i64::MAX {
            Some(value as i64)
        } else {
            None
        }
    }

    fn maybe_from(value: i128) -> (r: Option<i64>) {
        if -0x8000_0000_0000_0000 <= value && value <= 0x7fff_ffff_ffff_ffff {
            Some(value as i64)
        } else {
            None
        }
    }
}

impl MaybeFrom<i64> for i32 {
    open spec fn converted(value: i64) -> Option<i32> {
        if i32::MIN <= value <= i32::MAX {
            Some(value as i32)
        } else {
            None
        }
    }

    fn maybe_from(value: i64) -> (r: Option<i32>) {
        if -0x8000_0000 <= value && value <= 0x7fff_ffff {
            Some(value as i32)
        } else {
            None
        }
    }
}

impl MaybeFrom<i32> for i16 {
    open spec fn converted(value: i32) -> Option<i16> {
        if i16::MIN <= value <= i16::MAX {
            Some(value as i16)
        } else {
            None
        }
    }

    fn maybe_from(value: i32) -> (r: Option<i16>) {
        if -0x8000 <= value && value <= 0x7fff {
            Some(value as i16)
        } else {
            None
        }
    }
}

impl MaybeFrom<i16> for i8 {
    open spec fn converted(value: i16) -> Option<i8> {
        if i8::MIN <= value <= i8::MAX {
            Some(value as i8)
        } else {
            None
        }
    }

    fn maybe_from(value: i16) -> (r: Option<i8>) {
        if -0x80 <= value && value <= 0x7f {
            Some(value as i8)
        } else {
            None
        }
    }
}

impl MaybeFrom<u128> for u64 {
    open spec fn converted(value: u128) -> Option<u64> {
        if value <= u64::MAX {
            Some(value as u64)
        } else {
            None
        }
    }

    fn maybe_from(value: u128) -> (r: Option<u64>) {
        if value <= 0xffff_ffff_ffff_ffff {
            Some(value as u64)
        } else {
            None
        }
    }
}

impl MaybeFrom<u64> for u32 {
    open spec fn converted(value: u64) -> Option<u32> {
        if value <= u32::MAX {
            Some(value as u32)
        } else {
            None
        }
    }

    fn maybe_from(value: u64) -> (r: Option<u32>) {
        if value <= 0xffff_ffff {
            Some(value as u32)
        } else {
            None
        }
    }
}

impl MaybeFrom<u32> for u16 {
    open spec fn converted(value: u32) -> Option<u16> {
        if value <= u16::MAX {
            Some(value as u16)
        } else {
            None
        }
    }

    fn maybe_from(value: u32) -> (r: Option<u16>) {
        if value <= 0xffff {
            Some(value as u16)
        } else {
            None
        }
    }
}

impl MaybeFrom<u16> for u8 {
    open spec fn converted(value: u16) -> Option<u8> {
        if value <= u8::MAX {
            Some(value as u8)
        } else {
            None
        }
    }

    fn maybe_from(value: u16) -> (r: Option<u8>) {
        if value <= 0xff {
            Some(value as u8)
        } else {
            None
        }
    }
}

} // verus!
