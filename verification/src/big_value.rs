//! Integers of arbitrary size.
//!
//! A value is held as plain bytes. The arithmetic on it is done by the
//! `num-bigint` crate; each function that calls it states what it returns
//! over the integer that the bytes stand for. Such a function turns the bytes
//! into a `BigInt` by `BigInt::from_signed_bytes_le` and the result back by
//! `BigInt::to_signed_bytes_le`, which read and write bytes as [`signed_le`]
//! says.

use vstd::arithmetic::power::pow;
use vstd::prelude::*;

verus! {

/// The number that little-endian base 256 digits stand for.
pub open spec fn unsigned_le(bytes: Seq<u8>) -> nat
    decreases bytes.len(),
{
    if bytes.len() == 0 {
        0
    } else {
        bytes[0] as nat + 256 * unsigned_le(bytes.drop_first())
    }
}

/// The integer that little-endian bytes in two's complement stand for.
pub open spec fn signed_le(bytes: Seq<u8>) -> int {
    if bytes.len() > 0 && bytes.last() >= 0x80 {
        unsigned_le(bytes) - pow(256, bytes.len())
    } else {
        unsigned_le(bytes) as int
    }
}

/// Whether `x` is the inverse of `a` modulo `m`, taken from 0 up to `m`.
pub open spec fn is_inverse(a: int, x: int, m: int) -> bool {
    0 <= x < m && (a * x) % m == 1int % m
}

/// An integer of arbitrary size, held as little-endian bytes in two's
/// complement. The empty sequence stands for zero.
#[derive(Debug)]
pub struct BigValue {
    pub bytes: Vec<u8>,
}

impl View for BigValue {
    type V = int;

    open spec fn view(&self) -> int {
        signed_le(self.bytes@)
    }
}

impl Clone for BigValue {
    fn clone(&self) -> (r: Self)
        ensures
            r.bytes@ == self.bytes@,
            r@ == self@,
    {
        let r = BigValue { bytes: self.bytes.clone() };
        assert(r.bytes@ =~= self.bytes@);
        r
    }
}

/// Calls `BigInt::from` on a `u128`: the result stands for the same number.
#[verifier::external_body]
fn bigint_from_u128(x: u128) -> (r: BigValue)
    ensures
        r@ == x,
{
    BigValue { bytes: num_bigint::BigInt::from(x).to_signed_bytes_le() }
}

/// Calls `u128::try_from` on a `BigInt`: it succeeds exactly for the numbers
/// from 0 to `u128::MAX`, and then gives the number itself.
#[verifier::external_body]
fn bigint_to_u128(v: &BigValue) -> (r: Option<u128>)
    ensures
        r == (if 0 <= v@ <= u128::MAX {
            Some(v@ as u128)
        } else {
            None
        }),
{
    u128::try_from(&num_bigint::BigInt::from_signed_bytes_le(&v.bytes)).ok()
}

/// Calls `num_traits::Zero::is_zero` on a `BigInt`: whether the number is 0.
#[verifier::external_body]
fn bigint_is_zero(v: &BigValue) -> (r: bool)
    ensures
        r == (v@ == 0),
{
    num_traits::Zero::is_zero(&num_bigint::BigInt::from_signed_bytes_le(&v.bytes))
}

/// Calls `+` of `BigInt`: the sum.
#[verifier::external_body]
fn bigint_add(a: &BigValue, b: &BigValue) -> (r: BigValue)
    ensures
        r@ == a@ + b@,
{
    let x = num_bigint::BigInt::from_signed_bytes_le(&a.bytes);
    let y = num_bigint::BigInt::from_signed_bytes_le(&b.bytes);
    BigValue { bytes: (x + y).to_signed_bytes_le() }
}

/// Calls `-` of `BigInt`: the difference.
#[verifier::external_body]
fn bigint_sub(a: &BigValue, b: &BigValue) -> (r: BigValue)
    ensures
        r@ == a@ - b@,
{
    let x = num_bigint::BigInt::from_signed_bytes_le(&a.bytes);
    let y = num_bigint::BigInt::from_signed_bytes_le(&b.bytes);
    BigValue { bytes: (x - y).to_signed_bytes_le() }
}

/// Calls `*` of `BigInt`: the product.
#[verifier::external_body]
fn bigint_mul(a: &BigValue, b: &BigValue) -> (r: BigValue)
    ensures
        r@ == a@ * b@,
{
    let x = num_bigint::BigInt::from_signed_bytes_le(&a.bytes);
    let y = num_bigint::BigInt::from_signed_bytes_le(&b.bytes);
    BigValue { bytes: (x * y).to_signed_bytes_le() }
}

/// Calls `num_integer::Integer::div_floor` of `BigInt`, which panics on a zero
/// divisor: for a positive divisor, the quotient rounded down.
#[verifier::external_body]
pub(crate) fn bigint_div_floor(a: &BigValue, m: &BigValue) -> (r: BigValue)
    requires
        m@ > 0,
    ensures
        r@ == a@ / m@,
{
    let x = num_bigint::BigInt::from_signed_bytes_le(&a.bytes);
    let y = num_bigint::BigInt::from_signed_bytes_le(&m.bytes);
    BigValue { bytes: num_integer::Integer::div_floor(&x, &y).to_signed_bytes_le() }
}

/// Calls `num_integer::Integer::mod_floor` of `BigInt`, which panics on a zero
/// modulus: for a positive modulus, the remainder from 0 up to the modulus.
#[verifier::external_body]
pub(crate) fn bigint_mod_floor(a: &BigValue, m: &BigValue) -> (r: BigValue)
    requires
        m@ > 0,
    ensures
        r@ == a@ % m@,
{
    let x = num_bigint::BigInt::from_signed_bytes_le(&a.bytes);
    let y = num_bigint::BigInt::from_signed_bytes_le(&m.bytes);
    BigValue { bytes: num_integer::Integer::mod_floor(&x, &y).to_signed_bytes_le() }
}

/// Calls `BigInt::modinv`, which panics on a zero modulus: for a modulus
/// above 1 it gives the inverse from 0 up to the modulus where one exists, and
/// nothing where none does.
#[verifier::external_body]
pub(crate) fn bigint_modinv(a: &BigValue, m: &BigValue) -> (r: Option<BigValue>)
    requires
        m@ > 1,
    ensures
        match r {
            Some(x) => is_inverse(a@, x@, m@),
            None => forall|x: int| !#[trigger] is_inverse(a@, x, m@),
        },
{
    let x = num_bigint::BigInt::from_signed_bytes_le(&a.bytes);
    let y = num_bigint::BigInt::from_signed_bytes_le(&m.bytes);
    match x.modinv(&y) {
        Some(inverse) => Some(BigValue { bytes: inverse.to_signed_bytes_le() }),
        None => None,
    }
}

impl BigValue {
    /// The value of a `u128`.
    pub fn from_u128(x: u128) -> (r: BigValue)
        ensures
            r@ == x,
    {
        bigint_from_u128(x)
    }

    /// The value as a `u128`, where it is one.
    pub fn to_u128(&self) -> (r: Option<u128>)
        ensures
            r == (if 0 <= self@ <= u128::MAX {
                Some(self@ as u128)
            } else {
                None
            }),
    {
        bigint_to_u128(self)
    }

    /// Whether the value is zero.
    pub fn is_zero(&self) -> (r: bool)
        ensures
            r == (self@ == 0),
    {
        bigint_is_zero(self)
    }

    /// The sum of two values.
    pub fn add(&self, other: &BigValue) -> (r: BigValue)
        ensures
            r@ == self@ + other@,
    {
        bigint_add(self, other)
    }

    /// The difference of two values.
    pub fn sub(&self, other: &BigValue) -> (r: BigValue)
        ensures
            r@ == self@ - other@,
    {
        bigint_sub(self, other)
    }

    /// The product of two values.
    pub fn mul(&self, other: &BigValue) -> (r: BigValue)
        ensures
            r@ == self@ * other@,
    {
        bigint_mul(self, other)
    }
}

} // verus!
