//! The conversion table of the checked numeric casts: one `TryCast`
//! implementation per (source, target) pair of integer element types.
//!
//! Widenings that preserve every value carry no check; narrowings and
//! sign changes check the target's range and report `Overflow` outside
//! it.  No integer-to-integer conversion can lose precision.

use vstd::prelude::*;
use crate::cast::CastError;
use crate::cast::TryCast;

verus! {
//
// Conversions from i8
//

impl TryCast<u8> for i8 {
    fn try_cast(&self) -> (r: Result<u8, CastError>) {
        if *self < 0 {
            return Err(CastError::Overflow);
        }
        Ok(*self as u8)
    }
}

impl TryCast<i16> for i8 {
    fn try_cast(&self) -> (r: Result<i16, CastError>) {
        Ok(*self as i16)
    }
}

impl TryCast<u16> for i8 {
    fn try_cast(&self) -> (r: Result<u16, CastError>) {
        if *self < 0 {
            return Err(CastError::Overflow);
        }
        Ok(*self as u16)
    }
}

impl TryCast<i32> for i8 {
    fn try_cast(&self) -> (r: Result<i32, CastError>) {
        Ok(*self as i32)
    }
}

impl TryCast<u32> for i8 {
    fn try_cast(&self) -> (r: Result<u32, CastError>) {
        if *self < 0 {
            return Err(CastError::Overflow);
        }
        Ok(*self as u32)
    }
}

impl TryCast<i64> for i8 {
    fn try_cast(&self) -> (r: Result<i64, CastError>) {
        Ok(*self as i64)
    }
}

impl TryCast<u64> for i8 {
    fn try_cast(&self) -> (r: Result<u64, CastError>) {
        if *self < 0 {
            return Err(CastError::Overflow);
        }
        Ok(*self as u64)
    }
}
//
// Conversions from u8
//

impl TryCast<i8> for u8 {
    fn try_cast(&self) -> (r: Result<i8, CastError>) {
        if *self > i8::MAX as u8 {
            return Err(CastError::Overflow);
        }
        Ok(*self as i8)
    }
}

impl TryCast<i16> for u8 {
    fn try_cast(&self) -> (r: Result<i16, CastError>) {
        Ok(*self as i16)
    }
}

impl TryCast<u16> for u8 {
    fn try_cast(&self) -> (r: Result<u16, CastError>) {
        Ok(*self as u16)
    }
}

impl TryCast<i32> for u8 {
    fn try_cast(&self) -> (r: Result<i32, CastError>) {
        Ok(*self as i32)
    }
}

impl TryCast<u32> for u8 {
    fn try_cast(&self) -> (r: Result<u32, CastError>) {
        Ok(*self as u32)
    }
}

impl TryCast<i64> for u8 {
    fn try_cast(&self) -> (r: Result<i64, CastError>) {
        Ok(*self as i64)
    }
}

impl TryCast<u64> for u8 {
    fn try_cast(&self) -> (r: Result<u64, CastError>) {
        Ok(*self as u64)
    }
}
//
// Conversions from i16
//

impl TryCast<u8> for i16 {
    fn try_cast(&self) -> (r: Result<u8, CastError>) {
        if *self < 0 || *self > u8::MAX as i16 {
            return Err(CastError::Overflow);
        }
        Ok(*self as u8)
    }
}

impl TryCast<i8> for i16 {
    fn try_cast(&self) -> (r: Result<i8, CastError>) {
        if *self < i8::MIN as i16 || *self > i8::MAX as i16 {
            return Err(CastError::Overflow);
        }
        Ok(*self as i8)
    }
}

impl TryCast<u16> for i16 {
    fn try_cast(&self) -> (r: Result<u16, CastError>) {
        if *self < 0 {
            return Err(CastError::Overflow);
        }
        Ok(*self as u16)
    }
}

impl TryCast<i32> for i16 {
    fn try_cast(&self) -> (r: Result<i32, CastError>) {
        Ok(*self as i32)
    }
}

impl TryCast<u32> for i16 {
    fn try_cast(&self) -> (r: Result<u32, CastError>) {
        if *self < 0 {
            return Err(CastError::Overflow);
        }
        Ok(*self as u32)
    }
}

impl TryCast<i64> for i16 {
    fn try_cast(&self) -> (r: Result<i64, CastError>) {
        Ok(*self as i64)
    }
}

impl TryCast<u64> for i16 {
    fn try_cast(&self) -> (r: Result<u64, CastError>) {
        if *self < 0 {
            return Err(CastError::Overflow);
        }
        Ok(*self as u64)
    }
}
//
// Conversions from u16
//

impl TryCast<u8> for u16 {
    fn try_cast(&self) -> (r: Result<u8, CastError>) {
        if *self > u8::MAX as u16 {
            return Err(CastError::Overflow);
        }
        Ok(*self as u8)
    }
}

impl TryCast<i8> for u16 {
    fn try_cast(&self) -> (r: Result<i8, CastError>) {
        if *self > i8::MAX as u16 {
            return Err(CastError::Overflow);
        }
        Ok(*self as i8)
    }
}

impl TryCast<i16> for u16 {
    fn try_cast(&self) -> (r: Result<i16, CastError>) {
        if *self > i16::MAX as u16 {
            return Err(CastError::Overflow);
        }
        Ok(*self as i16)
    }
}

impl TryCast<i32> for u16 {
    fn try_cast(&self) -> (r: Result<i32, CastError>) {
        Ok(*self as i32)
    }
}

impl TryCast<u32> for u16 {
    fn try_cast(&self) -> (r: Result<u32, CastError>) {
        Ok(*self as u32)
    }
}

impl TryCast<i64> for u16 {
    fn try_cast(&self) -> (r: Result<i64, CastError>) {
        Ok(*self as i64)
    }
}

impl TryCast<u64> for u16 {
    fn try_cast(&self) -> (r: Result<u64, CastError>) {
        Ok(*self as u64)
    }
}
//
// Conversions from i64
//

impl TryCast<u8> for i64 {
    fn try_cast(&self) -> (r: Result<u8, CastError>) {
        if *self < 0 || *self > u8::MAX as i64 {
            return Err(CastError::Overflow);
        }
        Ok(*self as u8)
    }
}

impl TryCast<i8> for i64 {
    fn try_cast(&self) -> (r: Result<i8, CastError>) {
        if *self < i8::MIN as i64 || *self > i8::MAX as i64 {
            return Err(CastError::Overflow);
        }
        Ok(*self as i8)
    }
}

impl TryCast<i16> for i64 {
    fn try_cast(&self) -> (r: Result<i16, CastError>) {
        if *self < i16::MIN as i64 || *self > i16::MAX as i64 {
            return Err(CastError::Overflow);
        }
        Ok(*self as i16)
    }
}

impl TryCast<u16> for i64 {
    fn try_cast(&self) -> (r: Result<u16, CastError>) {
        if *self < 0 || *self > u16::MAX as i64 {
            return Err(CastError::Overflow);
        }
        Ok(*self as u16)
    }
}

impl TryCast<i32> for i64 {
    fn try_cast(&self) -> (r: Result<i32, CastError>) {
        if *self < i32::MIN as i64 || *self > i32::MAX as i64 {
            return Err(CastError::Overflow);
        }
        Ok(*self as i32)
    }
}

impl TryCast<u32> for i64 {
    fn try_cast(&self) -> (r: Result<u32, CastError>) {
        if *self < 0 || *self > u32::MAX as i64 {
            return Err(CastError::Overflow);
        }
        Ok(*self as u32)
    }
}

impl TryCast<u64> for i64 {
    fn try_cast(&self) -> (r: Result<u64, CastError>) {
        if *self < 0 {
            return Err(CastError::Overflow);
        }
        Ok(*self as u64)
    }
}
//
// Conversions from u64
//

impl TryCast<u8> for u64 {
    fn try_cast(&self) -> (r: Result<u8, CastError>) {
        if *self > u8::MAX as u64 {
            return Err(CastError::Overflow);
        }
        Ok(*self as u8)
    }
}

impl TryCast<i8> for u64 {
    fn try_cast(&self) -> (r: Result<i8, CastError>) {
        if *self > i8::MAX as u64 {
            return Err(CastError::Overflow);
        }
        Ok(*self as i8)
    }
}

impl TryCast<i16> for u64 {
    fn try_cast(&self) -> (r: Result<i16, CastError>) {
        if *self > i16::MAX as u64 {
            return Err(CastError::Overflow);
        }
        Ok(*self as i16)
    }
}

impl TryCast<u16> for u64 {
    fn try_cast(&self) -> (r: Result<u16, CastError>) {
        if *self > u16::MAX as u64 {
            return Err(CastError::Overflow);
        }
        Ok(*self as u16)
    }
}

impl TryCast<i32> for u64 {
    fn try_cast(&self) -> (r: Result<i32, CastError>) {
        if *self > i32::MAX as u64 {
            return Err(CastError::Overflow);
        }
        Ok(*self as i32)
    }
}

impl TryCast<u32> for u64 {
    fn try_cast(&self) -> (r: Result<u32, CastError>) {
        if *self > u32::MAX as u64 {
            return Err(CastError::Overflow);
        }
        Ok(*self as u32)
    }
}

impl TryCast<i64> for u64 {
    fn try_cast(&self) -> (r: Result<i64, CastError>) {
        if *self > i64::MAX as u64 {
            return Err(CastError::Overflow);
        }
        Ok(*self as i64)
    }
}

} // verus!
