//! Arithmetic of amounts: signed 128-bit integers, where a value out of range refuses the call.

use crate::types::VaultError;
use vstd::prelude::*;

verus! {

/// `x` is an amount that 128 signed bits hold.
pub open spec fn fits(x: int) -> bool {
    i128::MIN <= x <= i128::MAX
}

/// The quotient of `a` and `b`, rounded toward zero.
pub open spec fn quotient(a: int, b: int) -> int {
    if a >= 0 && b >= 0 {
        a / b
    } else if a < 0 && b < 0 {
        (-a) / (-b)
    } else if a < 0 {
        -((-a) / b)
    } else {
        -(a / (-b))
    }
}

/// `x` as an amount, where it is one.
pub open spec fn amount(x: int) -> Result<i128, VaultError> {
    if fits(x) {
        Ok(x as i128)
    } else {
        Err(VaultError::ArithmeticOverflow)
    }
}

/// `a * b / c`, rounded toward zero, where the product and the quotient are amounts.
pub open spec fn proportion(a: int, b: int, c: int) -> Result<i128, VaultError> {
    if fits(a * b) {
        amount(quotient(a * b, c))
    } else {
        Err(VaultError::ArithmeticOverflow)
    }
}

pub fn sum(a: i128, b: i128) -> (r: Result<i128, VaultError>)
    ensures
        r == amount(a + b),
{
    match a.checked_add(b) {
        Some(x) => Ok(x),
        None => Err(VaultError::ArithmeticOverflow),
    }
}

pub fn difference(a: i128, b: i128) -> (r: Result<i128, VaultError>)
    ensures
        r == amount(a - b),
{
    match a.checked_sub(b) {
        Some(x) => Ok(x),
        None => Err(VaultError::ArithmeticOverflow),
    }
}

pub fn product(a: i128, b: i128) -> (r: Result<i128, VaultError>)
    ensures
        r == amount(a * b),
{
    match a.checked_mul(b) {
        Some(x) => Ok(x),
        None => Err(VaultError::ArithmeticOverflow),
    }
}

pub fn divided(a: i128, b: i128) -> (r: Result<i128, VaultError>)
    requires
        b != 0,
    ensures
        r == amount(quotient(a as int, b as int)),
{
    match a.checked_div(b) {
        Some(x) => Ok(x),
        None => Err(VaultError::ArithmeticOverflow),
    }
}

pub fn scaled(a: i128, b: i128, c: i128) -> (r: Result<i128, VaultError>)
    requires
        c != 0,
    ensures
        r == proportion(a as int, b as int, c as int),
{
    let p: i128 = product(a, b)?;
    divided(p, c)
}

} // verus!
