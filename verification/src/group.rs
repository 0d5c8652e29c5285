//! The boundary around the curv library's secp256k1 arithmetic.
//!
//! `GroupPoint` and `FieldScalar` are opaque shells around curv's curve
//! point and scalar; Verus sees nothing inside them. The secp256k1 group is
//! cyclic of prime order with the curve generator as a primitive element, so
//! every group element is `d·G` for exactly one `d` below the group order,
//! and two elements are equal exactly when their logarithms are.
//! `point_value` names that logarithm; `scalar_value` names the integer
//! value of a field scalar, which curv keeps below the group order. The
//! contracts of the trusted wrappers state, over these two model values,
//! what the curv source shows of each operation; the group and field
//! arithmetic itself stays inside curv.
use crate::math::{add_mod, be_int, group_order, mul_mod};
use curv::arithmetic::Converter;
use curv::elliptic::curves::{Point, Scalar, Secp256k1};
use curv::BigInt;
use vstd::prelude::*;

verus! {

/// An element of the secp256k1 group, opaque to verification.
#[verifier::external_body]
pub struct GroupPoint {
    point: Point<Secp256k1>,
}

/// An element of the scalar field of secp256k1, opaque to verification.
#[verifier::external_body]
pub struct FieldScalar {
    scalar: Scalar<Secp256k1>,
}

/// The discrete logarithm of a group element with respect to the curve
/// generator, reduced modulo the group order: the mathematical value that
/// models an opaque curve point.
pub uninterp spec fn point_value(p: GroupPoint) -> nat;

/// The integer value of a field scalar, below the group order: the
/// mathematical value that models an opaque scalar.
pub uninterp spec fn scalar_value(s: FieldScalar) -> nat;

/// The uncompressed serialization of the group element whose discrete
/// logarithm is `dlog`: a fixed encoding, a function of the element alone,
/// named rather than spelled out.
pub uninterp spec fn point_ser(dlog: nat) -> Seq<u8>;

/// Relies on curv's `Point::generator`: the distinguished base point `G`,
/// whose discrete logarithm with respect to itself is 1.
#[verifier::external_body]
fn raw_generator() -> (r: GroupPoint)
    ensures
        point_value(r) == 1,
{
    GroupPoint { point: Point::generator().to_point() }
}

/// Relies on curv's point addition, which adds in the group: the logarithm
/// of a sum is the sum of the logarithms modulo the group order.
#[verifier::external_body]
fn raw_point_add(a: &GroupPoint, b: &GroupPoint) -> (r: GroupPoint)
    ensures
        point_value(r) == add_mod(point_value(*a), point_value(*b)),
{
    GroupPoint { point: &a.point + &b.point }
}

/// Relies on curv's scalar multiplication of a point: multiplying the
/// element `d·G` by the scalar `s` yields the element `(d·s)·G`.
#[verifier::external_body]
fn raw_point_mul(p: &GroupPoint, s: &FieldScalar) -> (r: GroupPoint)
    ensures
        point_value(r) == mul_mod(point_value(*p), scalar_value(*s)),
{
    GroupPoint { point: &p.point * &s.scalar }
}

/// Relies on curv's `PartialEq` for points, which compares group elements;
/// in a cyclic group two elements are equal exactly when their discrete
/// logarithms with respect to the generator are.
#[verifier::external_body]
fn raw_point_eq(a: &GroupPoint, b: &GroupPoint) -> (r: bool)
    ensures
        r == (point_value(*a) == point_value(*b)),
{
    a.point == b.point
}

/// Relies on curv's `Clone` for points, which yields the same group element.
#[verifier::external_body]
fn raw_point_clone(p: &GroupPoint) -> (r: GroupPoint)
    ensures
        point_value(r) == point_value(*p),
{
    GroupPoint { point: p.point.clone() }
}

/// Relies on curv's `Point::to_bytes` with the uncompressed flag: a fixed
/// serialization that depends on the group element alone.
#[verifier::external_body]
fn raw_point_bytes(p: &GroupPoint) -> (r: Vec<u8>)
    ensures
        r@ == point_ser(point_value(*p)),
{
    p.point.to_bytes(false).as_ref().to_vec()
}

/// Relies on curv's scalar addition, performed modulo the group order.
#[verifier::external_body]
fn raw_scalar_add(a: &FieldScalar, b: &FieldScalar) -> (r: FieldScalar)
    ensures
        scalar_value(r) == add_mod(scalar_value(*a), scalar_value(*b)),
{
    FieldScalar { scalar: &a.scalar + &b.scalar }
}

/// Relies on curv's scalar multiplication, performed modulo the group order.
#[verifier::external_body]
fn raw_scalar_mul(a: &FieldScalar, b: &FieldScalar) -> (r: FieldScalar)
    ensures
        scalar_value(r) == mul_mod(scalar_value(*a), scalar_value(*b)),
{
    FieldScalar { scalar: &a.scalar * &b.scalar }
}

/// Relies on curv's `Scalar::random`, which samples a nonzero scalar below
/// the group order from a cryptographically secure source. Two draws are
/// unrelated, so nothing beyond the range of every outcome is stated.
#[verifier::external_body]
fn raw_random_scalar() -> (r: FieldScalar)
    ensures
        0 < scalar_value(r) < group_order(),
{
    FieldScalar { scalar: Scalar::random() }
}

/// Relies on curv's `PartialEq` for scalars, which compares field values.
#[verifier::external_body]
fn raw_scalar_eq(a: &FieldScalar, b: &FieldScalar) -> (r: bool)
    ensures
        r == (scalar_value(*a) == scalar_value(*b)),
{
    a.scalar == b.scalar
}

/// Relies on curv's `Scalar::is_zero`: whether the scalar is the additive
/// identity of the field.
#[verifier::external_body]
fn raw_scalar_is_zero(s: &FieldScalar) -> (r: bool)
    ensures
        r == (scalar_value(*s) == 0),
{
    s.scalar.is_zero()
}

/// Relies on curv's `BigInt::from_bytes`, which reads bytes as a big-endian
/// unsigned integer, composed with `Scalar::from_bigint`, which reduces that
/// integer modulo the group order.
#[verifier::external_body]
fn raw_scalar_from_bytes(bytes: &[u8]) -> (r: FieldScalar)
    ensures
        scalar_value(r) == be_int(bytes@) % group_order(),
{
    let n = BigInt::from_bytes(bytes);
    FieldScalar { scalar: Scalar::from_bigint(&n) }
}

/// The distinguished generator `G` of the group.
pub fn generator() -> (r: GroupPoint)
    ensures
        point_value(r) == 1,
{
    raw_generator()
}

/// The group sum of two elements.
pub fn point_add(a: &GroupPoint, b: &GroupPoint) -> (r: GroupPoint)
    ensures
        point_value(r) == add_mod(point_value(*a), point_value(*b)),
{
    raw_point_add(a, b)
}

/// The element `p` multiplied by the scalar `s`.
pub fn point_mul(p: &GroupPoint, s: &FieldScalar) -> (r: GroupPoint)
    ensures
        point_value(r) == mul_mod(point_value(*p), scalar_value(*s)),
{
    raw_point_mul(p, s)
}

/// Exact equality of group elements.
pub fn point_eq(a: &GroupPoint, b: &GroupPoint) -> (r: bool)
    ensures
        r == (point_value(*a) == point_value(*b)),
{
    raw_point_eq(a, b)
}

/// A copy of a group element.
pub fn point_clone(p: &GroupPoint) -> (r: GroupPoint)
    ensures
        point_value(r) == point_value(*p),
{
    raw_point_clone(p)
}

/// A fresh uniformly random nonzero scalar.
pub fn random_scalar() -> (r: FieldScalar)
    ensures
        0 < scalar_value(r) < group_order(),
{
    raw_random_scalar()
}

/// Exact equality of field scalars.
pub fn scalar_eq(a: &FieldScalar, b: &FieldScalar) -> (r: bool)
    ensures
        r == (scalar_value(*a) == scalar_value(*b)),
{
    raw_scalar_eq(a, b)
}


/// The uncompressed serialization of a group element.
pub fn point_bytes(p: &GroupPoint) -> (r: Vec<u8>)
    ensures
        r@ == point_ser(point_value(*p)),
{
    raw_point_bytes(p)
}

/// The field sum of two scalars.
pub fn scalar_add(a: &FieldScalar, b: &FieldScalar) -> (r: FieldScalar)
    ensures
        scalar_value(r) == add_mod(scalar_value(*a), scalar_value(*b)),
{
    raw_scalar_add(a, b)
}

/// The field product of two scalars.
pub fn scalar_mul(a: &FieldScalar, b: &FieldScalar) -> (r: FieldScalar)
    ensures
        scalar_value(r) == mul_mod(scalar_value(*a), scalar_value(*b)),
{
    raw_scalar_mul(a, b)
}

/// Whether a scalar is the additive identity of the field.
pub fn scalar_is_zero(s: &FieldScalar) -> (r: bool)
    ensures
        r == (scalar_value(*s) == 0),
{
    raw_scalar_is_zero(s)
}

/// The scalar spelt by a byte string read as a big-endian unsigned integer,
/// reduced modulo the group order.
pub fn scalar_from_bytes(bytes: &[u8]) -> (r: FieldScalar)
    ensures
        scalar_value(r) == be_int(bytes@) % group_order(),
{
    raw_scalar_from_bytes(bytes)
}

} // verus!
