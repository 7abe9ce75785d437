//! Checked arithmetic on counters: a result out of range is a failure, never
//! a wrapped value.

use vstd::prelude::*;
use crate::error::PackError;

verus! {

/// Checked arithmetic on a fixed-width unsigned integer. Every operation is
/// a pure function of its operands: it gives the exact result where that
/// fits the integer, and a failure where it does not.
pub trait SafeMath<T>: Sized {
    /// The value plus one, or `Overflow` at the largest value.
    spec fn incremented(self) -> Result<T, PackError>;

    /// The sum, or `Overflow` where it exceeds the largest value.
    spec fn added(self, rhs: T) -> Result<T, PackError>;

    /// The difference, or `Underflow` where it would be negative.
    spec fn subtracted(self, rhs: T) -> Result<T, PackError>;

    /// The value minus one, or `Underflow` at zero.
    spec fn decremented(self) -> Result<T, PackError>;

    /// The product, or `Overflow` where it exceeds the largest value.
    spec fn multiplied(self, rhs: T) -> Result<T, PackError>;

    /// The quotient rounded down, or `Underflow` where the divisor is zero.
    spec fn divided(self, rhs: T) -> Result<T, PackError>;

    /// The value plus one.
    fn error_increment(self) -> (r: Result<T, PackError>)
        ensures
            r == self.incremented(),
    ;

    /// The sum of the value and `rhs`.
    fn error_add(self, rhs: T) -> (r: Result<T, PackError>)
        ensures
            r == self.added(rhs),
    ;

    /// The value minus `rhs`.
    fn error_sub(self, rhs: T) -> (r: Result<T, PackError>)
        ensures
            r == self.subtracted(rhs),
    ;

    /// The value minus one.
    fn error_decrement(self) -> (r: Result<T, PackError>)
        ensures
            r == self.decremented(),
    ;

    /// The product of the value and `rhs`.
    fn error_mul(self, rhs: T) -> (r: Result<T, PackError>)
        ensures
            r == self.multiplied(rhs),
    ;

    /// The quotient of the value by `rhs`, rounded down.
    fn error_div(self, rhs: T) -> (r: Result<T, PackError>)
        ensures
            r == self.divided(rhs),
    ;
}

/// What incrementing a 32-bit counter gives.
pub open spec fn spec_increment_u32(x: u32) -> Result<u32, PackError> {
    if x < u32::MAX {
        Ok((x + 1) as u32)
    } else {
        Err(PackError::Overflow)
    }
}

/// What decrementing a 32-bit counter gives.
pub open spec fn spec_decrement_u32(x: u32) -> Result<u32, PackError> {
    if x > 0 {
        Ok((x - 1) as u32)
    } else {
        Err(PackError::Underflow)
    }
}

impl SafeMath<u32> for u32 {
    open spec fn incremented(self) -> Result<u32, PackError> {
        spec_increment_u32(self)
    }

    open spec fn added(self, rhs: u32) -> Result<u32, PackError> {
        if self + rhs <= u32::MAX {
            Ok((self + rhs) as u32)
        } else {
            Err(PackError::Overflow)
        }
    }

    open spec fn subtracted(self, rhs: u32) -> Result<u32, PackError> {
        if self >= rhs {
            Ok((self - rhs) as u32)
        } else {
            Err(PackError::Underflow)
        }
    }

    open spec fn decremented(self) -> Result<u32, PackError> {
        spec_decrement_u32(self)
    }

    open spec fn multiplied(self, rhs: u32) -> Result<u32, PackError> {
        if self * rhs <= u32::MAX {
            Ok((self * rhs) as u32)
        } else {
            Err(PackError::Overflow)
        }
    }

    open spec fn divided(self, rhs: u32) -> Result<u32, PackError> {
        if rhs != 0 {
            Ok((self / rhs) as u32)
        } else {
            Err(PackError::Underflow)
        }
    }

    fn error_increment(self) -> (r: Result<u32, PackError>) {
        match self.checked_add(1) {
            Some(v) => Ok(v),
            None => Err(PackError::Overflow),
        }
    }

    fn error_decrement(self) -> (r: Result<u32, PackError>) {
        match self.checked_sub(1) {
            Some(v) => Ok(v),
            None => Err(PackError::Underflow),
        }
    }

    fn error_add(self, rhs: u32) -> (r: Result<u32, PackError>) {
        match self.checked_add(rhs) {
            Some(v) => Ok(v),
            None => Err(PackError::Overflow),
        }
    }

    fn error_sub(self, rhs: u32) -> (r: Result<u32, PackError>) {
        match self.checked_sub(rhs) {
            Some(v) => Ok(v),
            None => Err(PackError::Underflow),
        }
    }

    fn error_mul(self, rhs: u32) -> (r: Result<u32, PackError>) {
        match self.checked_mul(rhs) {
            Some(v) => Ok(v),
            None => Err(PackError::Overflow),
        }
    }

    fn error_div(self, rhs: u32) -> (r: Result<u32, PackError>) {
        match self.checked_div(rhs) {
            Some(v) => Ok(v),
            None => Err(PackError::Underflow),
        }
    }
}

/// Decrementing fails only at zero and incrementing only at the largest
/// value; everywhere else each undoes the other.
pub proof fn lemma_increment_decrement_u32(x: u32)
    ensures
        x == 0 <==> x.decremented() == Err::<u32, PackError>(PackError::Underflow),
        x == u32::MAX <==> x.incremented() == Err::<u32, PackError>(PackError::Overflow),
        x.incremented() matches Ok(y) ==> y == x + 1 && y.decremented() == Ok::<u32, PackError>(x),
        x.decremented() matches Ok(y) ==> y == x - 1 && y.incremented() == Ok::<u32, PackError>(x),
{
}

/// No operation wraps: a result is exact, and a failure marks a result that
/// the integer cannot hold.
pub proof fn lemma_checked_results_u32(x: u32, y: u32)
    ensures
        x.added(y) matches Ok(z) ==> z == x + y,
        x.added(y) is Err <==> x + y > u32::MAX,
        x.subtracted(y) matches Ok(z) ==> z == x - y,
        x.subtracted(y) is Err <==> x - y < 0,
        x.multiplied(y) matches Ok(z) ==> z == x * y,
        x.multiplied(y) is Err <==> x * y > u32::MAX,
        x.divided(y) matches Ok(z) ==> y != 0 && z == x / y,
        x.divided(y) is Err <==> y == 0,
        x.added(y) matches Ok(z) ==> z.subtracted(y) == Ok::<u32, PackError>(x),
        x.subtracted(y) matches Ok(z) ==> z.added(y) == Ok::<u32, PackError>(x),
{
}

/// What incrementing a 64-bit counter gives.
pub open spec fn spec_increment_u64(x: u64) -> Result<u64, PackError> {
    if x < u64::MAX {
        Ok((x + 1) as u64)
    } else {
        Err(PackError::Overflow)
    }
}

/// What decrementing a 64-bit counter gives.
pub open spec fn spec_decrement_u64(x: u64) -> Result<u64, PackError> {
    if x > 0 {
        Ok((x - 1) as u64)
    } else {
        Err(PackError::Underflow)
    }
}

impl SafeMath<u64> for u64 {
    open spec fn incremented(self) -> Result<u64, PackError> {
        spec_increment_u64(self)
    }

    open spec fn added(self, rhs: u64) -> Result<u64, PackError> {
        if self + rhs <= u64::MAX {
            Ok((self + rhs) as u64)
        } else {
            Err(PackError::Overflow)
        }
    }

    open spec fn subtracted(self, rhs: u64) -> Result<u64, PackError> {
        if self >= rhs {
            Ok((self - rhs) as u64)
        } else {
            Err(PackError::Underflow)
        }
    }

    open spec fn decremented(self) -> Result<u64, PackError> {
        spec_decrement_u64(self)
    }

    open spec fn multiplied(self, rhs: u64) -> Result<u64, PackError> {
        if self * rhs <= u64::MAX {
            Ok((self * rhs) as u64)
        } else {
            Err(PackError::Overflow)
        }
    }

    open spec fn divided(self, rhs: u64) -> Result<u64, PackError> {
        if rhs != 0 {
            Ok((self / rhs) as u64)
        } else {
            Err(PackError::Underflow)
        }
    }

    fn error_increment(self) -> (r: Result<u64, PackError>) {
        match self.checked_add(1) {
            Some(v) => Ok(v),
            None => Err(PackError::Overflow),
        }
    }

    fn error_decrement(self) -> (r: Result<u64, PackError>) {
        match self.checked_sub(1) {
            Some(v) => Ok(v),
            None => Err(PackError::Underflow),
        }
    }

    fn error_add(self, rhs: u64) -> (r: Result<u64, PackError>) {
        match self.checked_add(rhs) {
            Some(v) => Ok(v),
            None => Err(PackError::Overflow),
        }
    }

    fn error_sub(self, rhs: u64) -> (r: Result<u64, PackError>) {
        match self.checked_sub(rhs) {
            Some(v) => Ok(v),
            None => Err(PackError::Underflow),
        }
    }

    fn error_mul(self, rhs: u64) -> (r: Result<u64, PackError>) {
        match self.checked_mul(rhs) {
            Some(v) => Ok(v),
            None => Err(PackError::Overflow),
        }
    }

    fn error_div(self, rhs: u64) -> (r: Result<u64, PackError>) {
        match self.checked_div(rhs) {
            Some(v) => Ok(v),
            None => Err(PackError::Underflow),
        }
    }
}

/// Decrementing fails only at zero and incrementing only at the largest
/// value; everywhere else each undoes the other.
pub proof fn lemma_increment_decrement_u64(x: u64)
    ensures
        x == 0 <==> x.decremented() == Err::<u64, PackError>(PackError::Underflow),
        x == u64::MAX <==> x.incremented() == Err::<u64, PackError>(PackError::Overflow),
        x.incremented() matches Ok(y) ==> y == x + 1 && y.decremented() == Ok::<u64, PackError>(x),
        x.decremented() matches Ok(y) ==> y == x - 1 && y.incremented() == Ok::<u64, PackError>(x),
{
}

/// No operation wraps: a result is exact, and a failure marks a result that
/// the integer cannot hold.
pub proof fn lemma_checked_results_u64(x: u64, y: u64)
    ensures
        x.added(y) matches Ok(z) ==> z == x + y,
        x.added(y) is Err <==> x + y > u64::MAX,
        x.subtracted(y) matches Ok(z) ==> z == x - y,
        x.subtracted(y) is Err <==> x - y < 0,
        x.multiplied(y) matches Ok(z) ==> z == x * y,
        x.multiplied(y) is Err <==> x * y > u64::MAX,
        x.divided(y) matches Ok(z) ==> y != 0 && z == x / y,
        x.divided(y) is Err <==> y == 0,
        x.added(y) matches Ok(z) ==> z.subtracted(y) == Ok::<u64, PackError>(x),
        x.subtracted(y) matches Ok(z) ==> z.added(y) == Ok::<u64, PackError>(x),
{
}

} // verus!
