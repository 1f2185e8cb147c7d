//! Checked conversions from the two floating-point formats to every
//! fixed-width integer type, including the pointer-sized pair.
//!
//! Each implementation instantiates the conversion engine with the
//! target's range `[min, max]` and maps the integer the engine returns
//! into the target type; its contract is exactly the decision procedure
//! over the value of the bit pattern.
use vstd::prelude::*;

verus! {

use crate::ExactFrom;
use crate::fp32::Fp32;
use crate::fp32::fp32_convert_spec;
use crate::fp32::fp32_to_signed;
use crate::fp32::fp32_to_unsigned;
use crate::fp64::Fp64;
use crate::fp64::fp64_convert_spec;
use crate::fp64::fp64_to_signed;
use crate::fp64::fp64_to_unsigned;
use crate::model::ExactError;

impl ExactFrom<Fp32> for u8 {
    type Error = ExactError;

    open spec fn exact_from_spec(value: Fp32) -> Result<u8, ExactError> {
        (match fp32_convert_spec(value.bits, 0, 0x100) {
            Ok(i) => Ok(i as u8),
            Err(e) => Err(e),
        })
    }

    fn exact_from(value: Fp32) -> (r: Result<u8, ExactError>) {
        match fp32_to_unsigned(value, 0xFFu128) {
            Ok(x) => Ok(x as u8),
            Err(e) => Err(e),
        }
    }
}

impl ExactFrom<Fp32> for u16 {
    type Error = ExactError;

    open spec fn exact_from_spec(value: Fp32) -> Result<u16, ExactError> {
        (match fp32_convert_spec(value.bits, 0, 0x10000) {
            Ok(i) => Ok(i as u16),
            Err(e) => Err(e),
        })
    }

    fn exact_from(value: Fp32) -> (r: Result<u16, ExactError>) {
        match fp32_to_unsigned(value, 0xFFFFu128) {
            Ok(x) => Ok(x as u16),
            Err(e) => Err(e),
        }
    }
}

impl ExactFrom<Fp32> for u32 {
    type Error = ExactError;

    open spec fn exact_from_spec(value: Fp32) -> Result<u32, ExactError> {
        (match fp32_convert_spec(value.bits, 0, 0x100000000) {
            Ok(i) => Ok(i as u32),
            Err(e) => Err(e),
        })
    }

    fn exact_from(value: Fp32) -> (r: Result<u32, ExactError>) {
        match fp32_to_unsigned(value, 0xFFFFFFFFu128) {
            Ok(x) => Ok(x as u32),
            Err(e) => Err(e),
        }
    }
}

impl ExactFrom<Fp32> for u64 {
    type Error = ExactError;

    open spec fn exact_from_spec(value: Fp32) -> Result<u64, ExactError> {
        (match fp32_convert_spec(value.bits, 0, 0x10000000000000000) {
            Ok(i) => Ok(i as u64),
            Err(e) => Err(e),
        })
    }

    fn exact_from(value: Fp32) -> (r: Result<u64, ExactError>) {
        match fp32_to_unsigned(value, 0xFFFFFFFFFFFFFFFFu128) {
            Ok(x) => Ok(x as u64),
            Err(e) => Err(e),
        }
    }
}

impl ExactFrom<Fp32> for u128 {
    type Error = ExactError;

    open spec fn exact_from_spec(value: Fp32) -> Result<u128, ExactError> {
        (match fp32_convert_spec(value.bits, 0, 0x100000000000000000000000000000000int) {
            Ok(i) => Ok(i as u128),
            Err(e) => Err(e),
        })
    }

    fn exact_from(value: Fp32) -> (r: Result<u128, ExactError>) {
        match fp32_to_unsigned(value, 0xFFFFFFFFFFFFFFFFFFFFFFFFFFFFFFFFu128) {
            Ok(x) => Ok(x as u128),
            Err(e) => Err(e),
        }
    }
}

impl ExactFrom<Fp32> for usize {
    type Error = ExactError;

    open spec fn exact_from_spec(value: Fp32) -> Result<usize, ExactError> {
        (match fp32_convert_spec(value.bits, 0, (usize::MAX as int) + 1) {
            Ok(i) => Ok(i as usize),
            Err(e) => Err(e),
        })
    }

    fn exact_from(value: Fp32) -> (r: Result<usize, ExactError>) {
        match fp32_to_unsigned(value, usize::MAX as u128) {
            Ok(x) => Ok(x as usize),
            Err(e) => Err(e),
        }
    }
}

impl ExactFrom<Fp32> for i8 {
    type Error = ExactError;

    open spec fn exact_from_spec(value: Fp32) -> Result<i8, ExactError> {
        (match fp32_convert_spec(value.bits, -0x80, 0x80) {
            Ok(i) => Ok(i as i8),
            Err(e) => Err(e),
        })
    }

    fn exact_from(value: Fp32) -> (r: Result<i8, ExactError>) {
        match fp32_to_signed(value, 0x80u128, 0x7Fu128) {
            Ok(x) => Ok(x as i8),
            Err(e) => Err(e),
        }
    }
}

impl ExactFrom<Fp32> for i16 {
    type Error = ExactError;

    open spec fn exact_from_spec(value: Fp32) -> Result<i16, ExactError> {
        (match fp32_convert_spec(value.bits, -0x8000, 0x8000) {
            Ok(i) => Ok(i as i16),
            Err(e) => Err(e),
        })
    }

    fn exact_from(value: Fp32) -> (r: Result<i16, ExactError>) {
        match fp32_to_signed(value, 0x8000u128, 0x7FFFu128) {
            Ok(x) => Ok(x as i16),
            Err(e) => Err(e),
        }
    }
}

impl ExactFrom<Fp32> for i32 {
    type Error = ExactError;

    open spec fn exact_from_spec(value: Fp32) -> Result<i32, ExactError> {
        (match fp32_convert_spec(value.bits, -0x80000000, 0x80000000) {
            Ok(i) => Ok(i as i32),
            Err(e) => Err(e),
        })
    }

    fn exact_from(value: Fp32) -> (r: Result<i32, ExactError>) {
        match fp32_to_signed(value, 0x80000000u128, 0x7FFFFFFFu128) {
            Ok(x) => Ok(x as i32),
            Err(e) => Err(e),
        }
    }
}

impl ExactFrom<Fp32> for i64 {
    type Error = ExactError;

    open spec fn exact_from_spec(value: Fp32) -> Result<i64, ExactError> {
        (match fp32_convert_spec(value.bits, -0x8000000000000000int, 0x8000000000000000int) {
            Ok(i) => Ok(i as i64),
            Err(e) => Err(e),
        })
    }

    fn exact_from(value: Fp32) -> (r: Result<i64, ExactError>) {
        match fp32_to_signed(value, 0x8000000000000000u128, 0x7FFFFFFFFFFFFFFFu128) {
            Ok(x) => Ok(x as i64),
            Err(e) => Err(e),
        }
    }
}

impl ExactFrom<Fp32> for i128 {
    type Error = ExactError;

    open spec fn exact_from_spec(value: Fp32) -> Result<i128, ExactError> {
        (match fp32_convert_spec(value.bits, -0x80000000000000000000000000000000int, 0x80000000000000000000000000000000int) {
            Ok(i) => Ok(i as i128),
            Err(e) => Err(e),
        })
    }

    fn exact_from(value: Fp32) -> (r: Result<i128, ExactError>) {
        match fp32_to_signed(value, 0x80000000000000000000000000000000u128, 0x7FFFFFFFFFFFFFFFFFFFFFFFFFFFFFFFu128) {
            Ok(x) => Ok(x as i128),
            Err(e) => Err(e),
        }
    }
}

impl ExactFrom<Fp32> for isize {
    type Error = ExactError;

    open spec fn exact_from_spec(value: Fp32) -> Result<isize, ExactError> {
        (match fp32_convert_spec(value.bits, isize::MIN as int, (isize::MAX as int) + 1) {
            Ok(i) => Ok(i as isize),
            Err(e) => Err(e),
        })
    }

    fn exact_from(value: Fp32) -> (r: Result<isize, ExactError>) {
        match fp32_to_signed(value, (isize::MAX as u128) + 1, isize::MAX as u128) {
            Ok(x) => Ok(x as isize),
            Err(e) => Err(e),
        }
    }
}

impl ExactFrom<Fp64> for u8 {
    type Error = ExactError;

    open spec fn exact_from_spec(value: Fp64) -> Result<u8, ExactError> {
        (match fp64_convert_spec(value.bits, 0, 0x100) {
            Ok(i) => Ok(i as u8),
            Err(e) => Err(e),
        })
    }

    fn exact_from(value: Fp64) -> (r: Result<u8, ExactError>) {
        match fp64_to_unsigned(value, 0xFFu128) {
            Ok(x) => Ok(x as u8),
            Err(e) => Err(e),
        }
    }
}

impl ExactFrom<Fp64> for u16 {
    type Error = ExactError;

    open spec fn exact_from_spec(value: Fp64) -> Result<u16, ExactError> {
        (match fp64_convert_spec(value.bits, 0, 0x10000) {
            Ok(i) => Ok(i as u16),
            Err(e) => Err(e),
        })
    }

    fn exact_from(value: Fp64) -> (r: Result<u16, ExactError>) {
        match fp64_to_unsigned(value, 0xFFFFu128) {
            Ok(x) => Ok(x as u16),
            Err(e) => Err(e),
        }
    }
}

impl ExactFrom<Fp64> for u32 {
    type Error = ExactError;

    open spec fn exact_from_spec(value: Fp64) -> Result<u32, ExactError> {
        (match fp64_convert_spec(value.bits, 0, 0x100000000) {
            Ok(i) => Ok(i as u32),
            Err(e) => Err(e),
        })
    }

    fn exact_from(value: Fp64) -> (r: Result<u32, ExactError>) {
        match fp64_to_unsigned(value, 0xFFFFFFFFu128) {
            Ok(x) => Ok(x as u32),
            Err(e) => Err(e),
        }
    }
}

impl ExactFrom<Fp64> for u64 {
    type Error = ExactError;

    open spec fn exact_from_spec(value: Fp64) -> Result<u64, ExactError> {
        (match fp64_convert_spec(value.bits, 0, 0x10000000000000000) {
            Ok(i) => Ok(i as u64),
            Err(e) => Err(e),
        })
    }

    fn exact_from(value: Fp64) -> (r: Result<u64, ExactError>) {
        match fp64_to_unsigned(value, 0xFFFFFFFFFFFFFFFFu128) {
            Ok(x) => Ok(x as u64),
            Err(e) => Err(e),
        }
    }
}

impl ExactFrom<Fp64> for u128 {
    type Error = ExactError;

    open spec fn exact_from_spec(value: Fp64) -> Result<u128, ExactError> {
        (match fp64_convert_spec(value.bits, 0, 0x100000000000000000000000000000000int) {
            Ok(i) => Ok(i as u128),
            Err(e) => Err(e),
        })
    }

    fn exact_from(value: Fp64) -> (r: Result<u128, ExactError>) {
        match fp64_to_unsigned(value, 0xFFFFFFFFFFFFFFFFFFFFFFFFFFFFFFFFu128) {
            Ok(x) => Ok(x as u128),
            Err(e) => Err(e),
        }
    }
}

impl ExactFrom<Fp64> for usize {
    type Error = ExactError;

    open spec fn exact_from_spec(value: Fp64) -> Result<usize, ExactError> {
        (match fp64_convert_spec(value.bits, 0, (usize::MAX as int) + 1) {
            Ok(i) => Ok(i as usize),
            Err(e) => Err(e),
        })
    }

    fn exact_from(value: Fp64) -> (r: Result<usize, ExactError>) {
        match fp64_to_unsigned(value, usize::MAX as u128) {
            Ok(x) => Ok(x as usize),
            Err(e) => Err(e),
        }
    }
}

impl ExactFrom<Fp64> for i8 {
    type Error = ExactError;

    open spec fn exact_from_spec(value: Fp64) -> Result<i8, ExactError> {
        (match fp64_convert_spec(value.bits, -0x80, 0x80) {
            Ok(i) => Ok(i as i8),
            Err(e) => Err(e),
        })
    }

    fn exact_from(value: Fp64) -> (r: Result<i8, ExactError>) {
        match fp64_to_signed(value, 0x80u128, 0x7Fu128) {
            Ok(x) => Ok(x as i8),
            Err(e) => Err(e),
        }
    }
}

impl ExactFrom<Fp64> for i16 {
    type Error = ExactError;

    open spec fn exact_from_spec(value: Fp64) -> Result<i16, ExactError> {
        (match fp64_convert_spec(value.bits, -0x8000, 0x8000) {
            Ok(i) => Ok(i as i16),
            Err(e) => Err(e),
        })
    }

    fn exact_from(value: Fp64) -> (r: Result<i16, ExactError>) {
        match fp64_to_signed(value, 0x8000u128, 0x7FFFu128) {
            Ok(x) => Ok(x as i16),
            Err(e) => Err(e),
        }
    }
}

impl ExactFrom<Fp64> for i32 {
    type Error = ExactError;

    open spec fn exact_from_spec(value: Fp64) -> Result<i32, ExactError> {
        (match fp64_convert_spec(value.bits, -0x80000000, 0x80000000) {
            Ok(i) => Ok(i as i32),
            Err(e) => Err(e),
        })
    }

    fn exact_from(value: Fp64) -> (r: Result<i32, ExactError>) {
        match fp64_to_signed(value, 0x80000000u128, 0x7FFFFFFFu128) {
            Ok(x) => Ok(x as i32),
            Err(e) => Err(e),
        }
    }
}

impl ExactFrom<Fp64> for i64 {
    type Error = ExactError;

    open spec fn exact_from_spec(value: Fp64) -> Result<i64, ExactError> {
        (match fp64_convert_spec(value.bits, -0x8000000000000000int, 0x8000000000000000int) {
            Ok(i) => Ok(i as i64),
            Err(e) => Err(e),
        })
    }

    fn exact_from(value: Fp64) -> (r: Result<i64, ExactError>) {
        match fp64_to_signed(value, 0x8000000000000000u128, 0x7FFFFFFFFFFFFFFFu128) {
            Ok(x) => Ok(x as i64),
            Err(e) => Err(e),
        }
    }
}

impl ExactFrom<Fp64> for i128 {
    type Error = ExactError;

    open spec fn exact_from_spec(value: Fp64) -> Result<i128, ExactError> {
        (match fp64_convert_spec(value.bits, -0x80000000000000000000000000000000int, 0x80000000000000000000000000000000int) {
            Ok(i) => Ok(i as i128),
            Err(e) => Err(e),
        })
    }

    fn exact_from(value: Fp64) -> (r: Result<i128, ExactError>) {
        match fp64_to_signed(value, 0x80000000000000000000000000000000u128, 0x7FFFFFFFFFFFFFFFFFFFFFFFFFFFFFFFu128) {
            Ok(x) => Ok(x as i128),
            Err(e) => Err(e),
        }
    }
}

impl ExactFrom<Fp64> for isize {
    type Error = ExactError;

    open spec fn exact_from_spec(value: Fp64) -> Result<isize, ExactError> {
        (match fp64_convert_spec(value.bits, isize::MIN as int, (isize::MAX as int) + 1) {
            Ok(i) => Ok(i as isize),
            Err(e) => Err(e),
        })
    }

    fn exact_from(value: Fp64) -> (r: Result<isize, ExactError>) {
        match fp64_to_signed(value, (isize::MAX as u128) + 1, isize::MAX as u128) {
            Ok(x) => Ok(x as isize),
            Err(e) => Err(e),
        }
    }
}

} // verus!
