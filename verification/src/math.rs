//! The arithmetic model of the scalar field: every scalar and every group
//! element is modelled by a natural number below the group order (a group
//! element by its discrete logarithm with respect to the generator), and the
//! protocol's algebra is stated over these numbers modulo the group order.
use vstd::arithmetic::div_mod::{
    lemma_add_mod_noop, lemma_mod_bound, lemma_mod_twice, lemma_mul_mod_noop_left,
    lemma_mul_mod_noop_right, lemma_small_mod,
};
use vstd::prelude::*;

verus! {

/// The order of the secp256k1 group: the modulus of all scalar arithmetic,
/// and the number of elements of the cyclic group the protocol works in.
pub open spec fn group_order() -> nat {
    0xFFFFFFFF_FFFFFFFF_FFFFFFFF_FFFFFFFE_BAAEDCE6_AF48A03B_BFD25E8C_D0364141nat
}

/// The value of a byte string read as a big-endian unsigned integer.
pub open spec fn be_int(s: Seq<u8>) -> nat
    decreases s.len(),
{
    if s.len() == 0 {
        0
    } else {
        be_int(s.drop_last()) * 256 + (s.last() as nat)
    }
}

/// Addition in the scalar field.
pub open spec fn add_mod(a: nat, b: nat) -> nat {
    (a + b) % group_order()
}

/// Multiplication in the scalar field.
pub open spec fn mul_mod(a: nat, b: nat) -> nat {
    (a * b) % group_order()
}

/// Values reduced modulo `m` that agree after adding a common offset are equal.
pub proof fn lemma_mod_add_cancel(r: nat, a: nat, b: nat, m: nat)
    requires
        m > 0,
        a < m,
        b < m,
        (r + a) % m == (r + b) % m,
    ensures
        a == b,
{
    let ri = (r % m);
    lemma_mod_bound(r as int, m as int);
    lemma_add_mod_noop(r as int, a as int, m as int);
    lemma_add_mod_noop(r as int, b as int, m as int);
    lemma_mod_twice(a as int, m as int);
    lemma_mod_twice(b as int, m as int);
    lemma_small_mod(a, m);
    lemma_small_mod(b, m);
    assert((ri + a) % m == (ri + b) % m);
    lemma_shifted_mod_value(ri, a, m);
    lemma_shifted_mod_value(ri, b, m);
}

/// The value of `(r + a) % m` when both summands are already reduced.
proof fn lemma_shifted_mod_value(r: nat, a: nat, m: nat)
    requires
        m > 0,
        r < m,
        a < m,
    ensures
        r + a < m ==> (r + a) % m == r + a,
        r + a >= m ==> (r + a) % m == r + a - m,
{
    if r + a < m {
        lemma_small_mod((r + a) as nat, m);
    } else {
        vstd::arithmetic::div_mod::lemma_mod_sub_multiples_vanish((r + a) as int, m as int);
        lemma_small_mod((r + a - m) as nat, m);
    }
}

/// The algebraic heart of completeness: a response built as `k + x*c` makes
/// the verifier's two sides agree when the public value is `x*b`.
pub proof fn lemma_schnorr_equation(b: nat, x: nat, k: nat, c: nat)
    ensures
        mul_mod(b, add_mod(k, mul_mod(x, c))) == add_mod(mul_mod(b, k), mul_mod(mul_mod(x, b), c)),
{
    let m = group_order();
    let xc = (x * c) % m;
    lemma_mul_mod_noop_right(b as int, (k + xc) as int, m as int);
    assert(b * (k + xc) == b * k + b * xc) by (nonlinear_arith);
    lemma_add_mod_noop((b * k) as int, (b * xc) as int, m as int);
    lemma_mul_mod_noop_right(b as int, (x * c) as int, m as int);
    assert(b * (x * c) == (x * b) * c) by (nonlinear_arith);
    lemma_mul_mod_noop_left((x * b) as int, c as int, m as int);
    assert(((b * k) % m + ((x * b) % m) * c % m) % m == ((b * k) % m + (b * xc) % m) % m);
}

} // verus!
