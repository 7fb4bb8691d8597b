//! Euclidean division and remainder as capabilities, and the remainder of the primitive
//! integers.
//!
//! For the integers the Euclidean remainder is the `%` of specifications: the `r` with
//! `0 <= r < |rhs|` that differs from `self` by a multiple of `rhs`. The value comes from
//! `num_traits::Euclid`, one function for each integer type, behind the private functions
//! at the end of this file, whose contracts are assumed.
use num_traits::Euclid;
use std::ops::{Div, Rem};
use vstd::prelude::*;

verus! {

/// Closed Euclidean division: the quotient of two values has their type.
pub trait ClosedDivEuclid: Sized + Div<Self, Output = Self> + Rem<Self, Output = Self> {
    /// Whether the Euclidean quotient of `self` by `rhs` is defined.
    spec fn div_euclid_req(self, rhs: Self) -> bool;

    /// The Euclidean quotient of `self` by `rhs`.
    spec fn div_euclid_spec(self, rhs: Self) -> Self;

    /// Returns the Euclidean quotient of `self` by `rhs`.
    fn div_euclid(self, rhs: Self) -> (q: Self)
        requires
            self.div_euclid_req(rhs),
        ensures
            q == self.div_euclid_spec(rhs),
    ;
}

/// Closed Euclidean remainder: the remainder of two values has their type.
pub trait ClosedRemEuclid: Sized {
    /// Whether the Euclidean remainder of `self` by `rhs` is defined.
    spec fn rem_euclid_req(self, rhs: Self) -> bool;

    /// The Euclidean remainder of `self` by `rhs`.
    spec fn rem_euclid_spec(self, rhs: Self) -> Self;

    /// Returns the Euclidean remainder of `self` by `rhs`.
    fn rem_euclid(self, rhs: Self) -> (r: Self)
        requires
            self.rem_euclid_req(rhs),
        ensures
            r == self.rem_euclid_spec(rhs),
    ;
}

impl ClosedRemEuclid for i8 {
    /// The divisor is not zero, and the remainder does not overflow.
    open spec fn rem_euclid_req(self, rhs: Self) -> bool {
        rhs != 0 && !(self == i8::MIN && rhs == -1)
    }

    open spec fn rem_euclid_spec(self, rhs: Self) -> Self {
        (self % rhs) as i8
    }

    fn rem_euclid(self, rhs: Self) -> (r: Self)
        ensures
            r == self % rhs,
            0 <= r,
            rhs > 0 ==> r < rhs,
            rhs < 0 ==> r < -rhs,
    {
        euclid_rem_i8(self, rhs)
    }
}

impl ClosedRemEuclid for i16 {
    /// The divisor is not zero, and the remainder does not overflow.
    open spec fn rem_euclid_req(self, rhs: Self) -> bool {
        rhs != 0 && !(self == i16::MIN && rhs == -1)
    }

    open spec fn rem_euclid_spec(self, rhs: Self) -> Self {
        (self % rhs) as i16
    }

    fn rem_euclid(self, rhs: Self) -> (r: Self)
        ensures
            r == self % rhs,
            0 <= r,
            rhs > 0 ==> r < rhs,
            rhs < 0 ==> r < -rhs,
    {
        euclid_rem_i16(self, rhs)
    }
}

impl ClosedRemEuclid for i32 {
    /// The divisor is not zero, and the remainder does not overflow.
    open spec fn rem_euclid_req(self, rhs: Self) -> bool {
        rhs != 0 && !(self == i32::MIN && rhs == -1)
    }

    open spec fn rem_euclid_spec(self, rhs: Self) -> Self {
        (self % rhs) as i32
    }

    fn rem_euclid(self, rhs: Self) -> (r: Self)
        ensures
            r == self % rhs,
            0 <= r,
            rhs > 0 ==> r < rhs,
            rhs < 0 ==> r < -rhs,
    {
        euclid_rem_i32(self, rhs)
    }
}

impl ClosedRemEuclid for i64 {
    /// The divisor is not zero, and the remainder does not overflow.
    open spec fn rem_euclid_req(self, rhs: Self) -> bool {
        rhs != 0 && !(self == i64::MIN && rhs == -1)
    }

    open spec fn rem_euclid_spec(self, rhs: Self) -> Self {
        (self % rhs) as i64
    }

    fn rem_euclid(self, rhs: Self) -> (r: Self)
        ensures
            r == self % rhs,
            0 <= r,
            rhs > 0 ==> r < rhs,
            rhs < 0 ==> r < -rhs,
    {
        euclid_rem_i64(self, rhs)
    }
}

impl ClosedRemEuclid for i128 {
    /// The divisor is not zero, and the remainder does not overflow.
    open spec fn rem_euclid_req(self, rhs: Self) -> bool {
        rhs != 0 && !(self == i128::MIN && rhs == -1)
    }

    open spec fn rem_euclid_spec(self, rhs: Self) -> Self {
        (self % rhs) as i128
    }

    fn rem_euclid(self, rhs: Self) -> (r: Self)
        ensures
            r == self % rhs,
            0 <= r,
            rhs > 0 ==> r < rhs,
            rhs < 0 ==> r < -rhs,
    {
        euclid_rem_i128(self, rhs)
    }
}

impl ClosedRemEuclid for isize {
    /// The divisor is not zero, and the remainder does not overflow.
    open spec fn rem_euclid_req(self, rhs: Self) -> bool {
        rhs != 0 && !(self == isize::MIN && rhs == -1)
    }

    open spec fn rem_euclid_spec(self, rhs: Self) -> Self {
        (self % rhs) as isize
    }

    fn rem_euclid(self, rhs: Self) -> (r: Self)
        ensures
            r == self % rhs,
            0 <= r,
            rhs > 0 ==> r < rhs,
            rhs < 0 ==> r < -rhs,
    {
        euclid_rem_isize(self, rhs)
    }
}

impl ClosedRemEuclid for u8 {
    /// The divisor is not zero.
    open spec fn rem_euclid_req(self, rhs: Self) -> bool {
        rhs != 0
    }

    open spec fn rem_euclid_spec(self, rhs: Self) -> Self {
        (self % rhs) as u8
    }

    fn rem_euclid(self, rhs: Self) -> (r: Self)
        ensures
            r == self % rhs,
            r < rhs,
    {
        euclid_rem_u8(self, rhs)
    }
}

impl ClosedRemEuclid for u16 {
    /// The divisor is not zero.
    open spec fn rem_euclid_req(self, rhs: Self) -> bool {
        rhs != 0
    }

    open spec fn rem_euclid_spec(self, rhs: Self) -> Self {
        (self % rhs) as u16
    }

    fn rem_euclid(self, rhs: Self) -> (r: Self)
        ensures
            r == self % rhs,
            r < rhs,
    {
        euclid_rem_u16(self, rhs)
    }
}

impl ClosedRemEuclid for u32 {
    /// The divisor is not zero.
    open spec fn rem_euclid_req(self, rhs: Self) -> bool {
        rhs != 0
    }

    open spec fn rem_euclid_spec(self, rhs: Self) -> Self {
        (self % rhs) as u32
    }

    fn rem_euclid(self, rhs: Self) -> (r: Self)
        ensures
            r == self % rhs,
            r < rhs,
    {
        euclid_rem_u32(self, rhs)
    }
}

impl ClosedRemEuclid for u64 {
    /// The divisor is not zero.
    open spec fn rem_euclid_req(self, rhs: Self) -> bool {
        rhs != 0
    }

    open spec fn rem_euclid_spec(self, rhs: Self) -> Self {
        (self % rhs) as u64
    }

    fn rem_euclid(self, rhs: Self) -> (r: Self)
        ensures
            r == self % rhs,
            r < rhs,
    {
        euclid_rem_u64(self, rhs)
    }
}

impl ClosedRemEuclid for u128 {
    /// The divisor is not zero.
    open spec fn rem_euclid_req(self, rhs: Self) -> bool {
        rhs != 0
    }

    open spec fn rem_euclid_spec(self, rhs: Self) -> Self {
        (self % rhs) as u128
    }

    fn rem_euclid(self, rhs: Self) -> (r: Self)
        ensures
            r == self % rhs,
            r < rhs,
    {
        euclid_rem_u128(self, rhs)
    }
}

impl ClosedRemEuclid for usize {
    /// The divisor is not zero.
    open spec fn rem_euclid_req(self, rhs: Self) -> bool {
        rhs != 0
    }

    open spec fn rem_euclid_spec(self, rhs: Self) -> Self {
        (self % rhs) as usize
    }

    fn rem_euclid(self, rhs: Self) -> (r: Self)
        ensures
            r == self % rhs,
            r < rhs,
    {
        euclid_rem_usize(self, rhs)
    }
}

/// `num_traits::Euclid::rem_euclid` of `i8`, which hands on to `i8::rem_euclid` of std:
/// the least nonnegative remainder of `a` modulo `b`. It panics where `b` is zero and
/// where the remainder overflows; both are left out.
#[verifier::external_body]
fn euclid_rem_i8(a: i8, b: i8) -> (r: i8)
    requires
        b != 0,
        !(a == i8::MIN && b == -1),
    ensures
        r == a % b,
{
    Euclid::rem_euclid(&a, &b)
}

/// `num_traits::Euclid::rem_euclid` of `i16`, which hands on to `i16::rem_euclid` of std:
/// the least nonnegative remainder of `a` modulo `b`. It panics where `b` is zero and
/// where the remainder overflows; both are left out.
#[verifier::external_body]
fn euclid_rem_i16(a: i16, b: i16) -> (r: i16)
    requires
        b != 0,
        !(a == i16::MIN && b == -1),
    ensures
        r == a % b,
{
    Euclid::rem_euclid(&a, &b)
}

/// `num_traits::Euclid::rem_euclid` of `i32`, which hands on to `i32::rem_euclid` of std:
/// the least nonnegative remainder of `a` modulo `b`. It panics where `b` is zero and
/// where the remainder overflows; both are left out.
#[verifier::external_body]
fn euclid_rem_i32(a: i32, b: i32) -> (r: i32)
    requires
        b != 0,
        !(a == i32::MIN && b == -1),
    ensures
        r == a % b,
{
    Euclid::rem_euclid(&a, &b)
}

/// `num_traits::Euclid::rem_euclid` of `i64`, which hands on to `i64::rem_euclid` of std:
/// the least nonnegative remainder of `a` modulo `b`. It panics where `b` is zero and
/// where the remainder overflows; both are left out.
#[verifier::external_body]
fn euclid_rem_i64(a: i64, b: i64) -> (r: i64)
    requires
        b != 0,
        !(a == i64::MIN && b == -1),
    ensures
        r == a % b,
{
    Euclid::rem_euclid(&a, &b)
}

/// `num_traits::Euclid::rem_euclid` of `i128`, which hands on to `i128::rem_euclid` of std:
/// the least nonnegative remainder of `a` modulo `b`. It panics where `b` is zero and
/// where the remainder overflows; both are left out.
#[verifier::external_body]
fn euclid_rem_i128(a: i128, b: i128) -> (r: i128)
    requires
        b != 0,
        !(a == i128::MIN && b == -1),
    ensures
        r == a % b,
{
    Euclid::rem_euclid(&a, &b)
}

/// `num_traits::Euclid::rem_euclid` of `isize`, which hands on to `isize::rem_euclid` of std:
/// the least nonnegative remainder of `a` modulo `b`. It panics where `b` is zero and
/// where the remainder overflows; both are left out.
#[verifier::external_body]
fn euclid_rem_isize(a: isize, b: isize) -> (r: isize)
    requires
        b != 0,
        !(a == isize::MIN && b == -1),
    ensures
        r == a % b,
{
    Euclid::rem_euclid(&a, &b)
}

/// `num_traits::Euclid::rem_euclid` of `u8`, which hands on to `u8::rem_euclid` of std:
/// the remainder of `a` modulo `b`. It panics where `b` is zero, which is left out.
#[verifier::external_body]
fn euclid_rem_u8(a: u8, b: u8) -> (r: u8)
    requires
        b != 0,
    ensures
        r == a % b,
{
    Euclid::rem_euclid(&a, &b)
}

/// `num_traits::Euclid::rem_euclid` of `u16`, which hands on to `u16::rem_euclid` of std:
/// the remainder of `a` modulo `b`. It panics where `b` is zero, which is left out.
#[verifier::external_body]
fn euclid_rem_u16(a: u16, b: u16) -> (r: u16)
    requires
        b != 0,
    ensures
        r == a % b,
{
    Euclid::rem_euclid(&a, &b)
}

/// `num_traits::Euclid::rem_euclid` of `u32`, which hands on to `u32::rem_euclid` of std:
/// the remainder of `a` modulo `b`. It panics where `b` is zero, which is left out.
#[verifier::external_body]
fn euclid_rem_u32(a: u32, b: u32) -> (r: u32)
    requires
        b != 0,
    ensures
        r == a % b,
{
    Euclid::rem_euclid(&a, &b)
}

/// `num_traits::Euclid::rem_euclid` of `u64`, which hands on to `u64::rem_euclid` of std:
/// the remainder of `a` modulo `b`. It panics where `b` is zero, which is left out.
#[verifier::external_body]
fn euclid_rem_u64(a: u64, b: u64) -> (r: u64)
    requires
        b != 0,
    ensures
        r == a % b,
{
    Euclid::rem_euclid(&a, &b)
}

/// `num_traits::Euclid::rem_euclid` of `u128`, which hands on to `u128::rem_euclid` of std:
/// the remainder of `a` modulo `b`. It panics where `b` is zero, which is left out.
#[verifier::external_body]
fn euclid_rem_u128(a: u128, b: u128) -> (r: u128)
    requires
        b != 0,
    ensures
        r == a % b,
{
    Euclid::rem_euclid(&a, &b)
}

/// `num_traits::Euclid::rem_euclid` of `usize`, which hands on to `usize::rem_euclid` of std:
/// the remainder of `a` modulo `b`. It panics where `b` is zero, which is left out.
#[verifier::external_body]
fn euclid_rem_usize(a: usize, b: usize) -> (r: usize)
    requires
        b != 0,
    ensures
        r == a % b,
{
    Euclid::rem_euclid(&a, &b)
}

} // verus!
