use vstd::prelude::*;

use crate::error::ErrorCode;

verus! {

/// Checked addition on unsigned amounts and durations: fails with
/// `ArithmeticOverflow` instead of wrapping when `a + b` exceeds the
/// integer width.
pub fn try_add(a: u64, b: u64) -> (r: Result<u64, ErrorCode>)
    ensures
        a + b <= u64::MAX ==> r == Ok::<u64, ErrorCode>((a + b) as u64),
        a + b > u64::MAX ==> r == Err::<u64, ErrorCode>(ErrorCode::ArithmeticOverflow),
{
    match a.checked_add(b) {
        Some(v) => Ok(v),
        None => Err(ErrorCode::ArithmeticOverflow),
    }
}

/// Checked subtraction on unsigned amounts and durations: fails with
/// `ArithmeticUnderflow` instead of wrapping when `b` exceeds `a`.
pub fn try_sub(a: u64, b: u64) -> (r: Result<u64, ErrorCode>)
    ensures
        b <= a ==> r == Ok::<u64, ErrorCode>((a - b) as u64),
        b > a ==> r == Err::<u64, ErrorCode>(ErrorCode::ArithmeticUnderflow),
{
    match a.checked_sub(b) {
        Some(v) => Ok(v),
        None => Err(ErrorCode::ArithmeticUnderflow),
    }
}

/// Checked in-place addition: on success the target holds the sum, on
/// overflow it is left untouched and `ArithmeticOverflow` is reported.
pub fn try_add_assign(a: &mut u64, b: u64) -> (r: Result<(), ErrorCode>)
    ensures
        *old(a) + b <= u64::MAX ==> r == Ok::<(), ErrorCode>(())
            && *final(a) == *old(a) + b,
        *old(a) + b > u64::MAX ==> r == Err::<(), ErrorCode>(ErrorCode::ArithmeticOverflow)
            && *final(a) == *old(a),
{
    match (*a).checked_add(b) {
        Some(v) => {
            *a = v;
            Ok(())
        },
        None => Err(ErrorCode::ArithmeticOverflow),
    }
}

} // verus!
