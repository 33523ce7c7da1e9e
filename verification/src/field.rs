//! The scalar field of the scheme: wrappers around `bls12_381::Scalar`
//! together with a mathematical model of the field as the integers modulo
//! `fr_order()`.
//!
//! Every `Fr` value carries a ghost integer; its view is that integer reduced
//! modulo the field order, so every view lies in `[0, fr_order())`.  The
//! arithmetic wrappers are trusted to relate the real field operations to
//! `fadd`, `fmul` and `fneg` on views.

use vstd::arithmetic::div_mod::lemma_add_mod_noop;
use vstd::arithmetic::div_mod::lemma_add_mod_noop_right;
use vstd::arithmetic::div_mod::lemma_mul_mod_noop_general;
use vstd::arithmetic::div_mod::lemma_mul_mod_noop_right;
use vstd::arithmetic::div_mod::lemma_sub_mod_noop;
use vstd::arithmetic::div_mod::lemma_sub_mod_noop_right;
use vstd::prelude::*;

verus! {

/// The order of the BLS12-381 scalar field (a prime), as documented in
/// `bls12_381::Scalar`.
pub open spec fn fr_order() -> int {
    0x73eda753299d7d483339d80809a1d80553bda402fffe5bfeffffffff00000001int
}

/// Field addition on the model: addition of representatives modulo the order.
pub open spec fn fadd(a: int, b: int) -> int {
    (a + b) % fr_order()
}

/// Field multiplication on the model.
pub open spec fn fmul(a: int, b: int) -> int {
    (a * b) % fr_order()
}

/// Field negation on the model.
pub open spec fn fneg(a: int) -> int {
    (-a) % fr_order()
}

/// A reduction of either summand does not change a field sum.
pub proof fn lemma_fadd_mod(x: int, y: int)
    ensures
        fadd(x % fr_order(), y) == (x + y) % fr_order(),
        fadd(x, y % fr_order()) == (x + y) % fr_order(),
        fadd(x % fr_order(), y % fr_order()) == (x + y) % fr_order(),
{
    lemma_add_mod_noop(x, y, fr_order());
    lemma_add_mod_noop_right(x, y, fr_order());
    lemma_add_mod_noop_right(y, x, fr_order());
}

/// A reduction of either factor does not change a field product.
pub proof fn lemma_fmul_mod(x: int, y: int)
    ensures
        fmul(x % fr_order(), y) == (x * y) % fr_order(),
        fmul(x, y % fr_order()) == (x * y) % fr_order(),
        fmul(x % fr_order(), y % fr_order()) == (x * y) % fr_order(),
{
    lemma_mul_mod_noop_general(x, y, fr_order());
}

/// A reduction does not change a field negation.
pub proof fn lemma_fneg_mod(x: int)
    ensures
        fneg(x % fr_order()) == (-x) % fr_order(),
{
    lemma_sub_mod_noop_right(0, x, fr_order());
}

/// Congruent integers modulo the field order have equal reductions; stated
/// as: the difference of congruent integers reduces to zero.
pub proof fn lemma_congruent_diff_zero(m1: int, m2: int)
    requires
        m1 % fr_order() == m2 % fr_order(),
    ensures
        (m1 - m2) % fr_order() == 0,
{
    lemma_sub_mod_noop(m1, m2, fr_order());
}

/// Adding any multiple of a value that reduces to zero does not change a
/// reduction.
pub proof fn lemma_add_multiple_of_zero(base: int, k: int, d: int)
    requires
        d % fr_order() == 0,
    ensures
        (base + k * d) % fr_order() == base % fr_order(),
{
    lemma_mul_mod_noop_right(k, d, fr_order());
    lemma_add_mod_noop_right(base, k * d, fr_order());
}

#[verifier::external_type_specification]
#[verifier::external_body]
pub struct ExScalar(bls12_381::Scalar);

/// An element of the scalar field.  The ghost component is a representative
/// of the element as an integer; the view reduces it modulo `fr_order()`.
#[derive(Clone, Copy)]
pub struct Fr {
    pub(crate) inner: bls12_381::Scalar,
    pub(crate) rep: Ghost<int>,
}

impl View for Fr {
    type V = int;

    closed spec fn view(&self) -> int {
        self.rep@ % fr_order()
    }
}

/// Relies on `core::ops::Add` for `bls12_381::Scalar`: addition in the field
/// of order `fr_order()`.
#[verifier::external_body]
pub(crate) fn fr_add(a: &Fr, b: &Fr) -> (r: Fr)
    ensures
        r@ == fadd(a@, b@),
{
    Fr { inner: a.inner + b.inner, rep: Ghost(arbitrary()) }
}

/// Relies on `core::ops::Mul` for `bls12_381::Scalar`: multiplication in the
/// field of order `fr_order()`.
#[verifier::external_body]
pub(crate) fn fr_mul(a: &Fr, b: &Fr) -> (r: Fr)
    ensures
        r@ == fmul(a@, b@),
{
    Fr { inner: a.inner * b.inner, rep: Ghost(arbitrary()) }
}

/// Relies on `core::ops::Neg` for `bls12_381::Scalar`: additive inverse in
/// the field.
#[verifier::external_body]
pub(crate) fn fr_neg(a: &Fr) -> (r: Fr)
    ensures
        r@ == fneg(a@),
{
    Fr { inner: -a.inner, rep: Ghost(arbitrary()) }
}

/// Relies on `bls12_381::Scalar::invert`: returns the multiplicative inverse,
/// or nothing exactly when the element is zero.
#[verifier::external_body]
pub(crate) fn fr_invert(a: &Fr) -> (r: Option<Fr>)
    ensures
        a@ == 0 <==> r is None,
        r is Some ==> fmul(a@, r->Some_0@) == 1,
{
    Option::from(a.inner.invert()).map(|s| Fr { inner: s, rep: Ghost(arbitrary()) })
}

/// Relies on `From<u64>` for `bls12_381::Scalar`: the field's one.
#[verifier::external_body]
pub(crate) fn fr_one() -> (r: Fr)
    ensures
        r@ == 1,
{
    Fr { inner: bls12_381::Scalar::from(1u64), rep: Ghost(arbitrary()) }
}

/// Relies on `PartialEq` for `bls12_381::Scalar`: two field elements are
/// equal exactly when they are the same element.
#[verifier::external_body]
pub(crate) fn fr_eq(a: &Fr, b: &Fr) -> (r: bool)
    ensures
        r == (a@ == b@),
{
    a.inner == b.inner
}

} // verus!
