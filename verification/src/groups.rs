//! The three pairing groups, modelled by discrete logarithms.
//!
//! `G1Elem`, `G2Elem` and `GtElem` wrap the corresponding `bls12_381` group
//! elements.  All three groups are cyclic of prime order `fr_order()`, so an
//! element is determined by its discrete logarithm to a fixed generator: the
//! curve generators for the first two, and `pairing(g1, g2)` for the target
//! group.  The ghost component of each wrapper is a representative of that
//! logarithm, and the view reduces it modulo the group order.  The trusted
//! wrappers state how each group operation acts on the logarithms.

use group::Curve;
use group::Group;
use vstd::prelude::*;

use crate::field::fadd;
use crate::field::fmul;
use crate::field::fneg;
use crate::field::fr_order;
use crate::field::Fr;

verus! {

#[verifier::external_type_specification]
#[verifier::external_body]
pub struct ExG1(bls12_381::G1Projective);

#[verifier::external_type_specification]
#[verifier::external_body]
pub struct ExG2(bls12_381::G2Projective);

#[verifier::external_type_specification]
#[verifier::external_body]
pub struct ExGt(bls12_381::Gt);

/// The canonical compressed encoding of the `G1` element whose discrete
/// logarithm is `log`.
pub uninterp spec fn g1_enc(log: int) -> Seq<u8>;

/// The canonical byte encoding of the target-group element whose discrete
/// logarithm is `log`.
pub uninterp spec fn gt_enc(log: int) -> Seq<u8>;

/// An element of the first pairing group, with the representative of its
/// discrete logarithm to the curve generator as ghost component.
#[derive(Clone, Copy)]
pub struct G1Elem {
    pub(crate) inner: bls12_381::G1Projective,
    pub(crate) rep: Ghost<int>,
}

/// An element of the second pairing group, modelled like `G1Elem`.
#[derive(Clone, Copy)]
pub struct G2Elem {
    pub(crate) inner: bls12_381::G2Projective,
    pub(crate) rep: Ghost<int>,
}

/// An element of the pairing target group, with the representative of its
/// discrete logarithm to `pairing(g1, g2)` as ghost component.
#[derive(Clone, Copy)]
pub struct GtElem {
    pub(crate) inner: bls12_381::Gt,
    pub(crate) rep: Ghost<int>,
}

impl View for G1Elem {
    type V = int;

    closed spec fn view(&self) -> int {
        self.rep@ % fr_order()
    }
}

impl View for G2Elem {
    type V = int;

    closed spec fn view(&self) -> int {
        self.rep@ % fr_order()
    }
}

impl View for GtElem {
    type V = int;

    closed spec fn view(&self) -> int {
        self.rep@ % fr_order()
    }
}

/// The capability set that the compound proof engine needs from a group:
/// scalar multiplication, addition, an equality test and a canonical
/// encoding, together with the discrete-log model they act on.
pub trait GroupVal: Sized {
    /// The discrete logarithm of this element to the group's fixed generator.
    spec fn dlog(&self) -> int;

    /// The canonical encoding of the element whose discrete logarithm is
    /// `log`.
    spec fn enc(log: int) -> Seq<u8>;

    fn mul_scalar(&self, s: &Fr) -> (r: Self)
        ensures
            r.dlog() == fmul(self.dlog(), s@),
    ;

    fn add_el(&self, other: &Self) -> (r: Self)
        ensures
            r.dlog() == fadd(self.dlog(), other.dlog()),
    ;

    fn eq_el(&self, other: &Self) -> (r: bool)
        ensures
            r == (self.dlog() == other.dlog()),
    ;

    fn encode(&self) -> (r: Vec<u8>)
        ensures
            r@ == Self::enc(self.dlog()),
    ;
}

impl GroupVal for G1Elem {
    open spec fn dlog(&self) -> int {
        self@
    }

    open spec fn enc(log: int) -> Seq<u8> {
        g1_enc(log)
    }

    fn mul_scalar(&self, s: &Fr) -> (r: Self) {
        g1_mul(self, s)
    }

    fn add_el(&self, other: &Self) -> (r: Self) {
        g1_add(self, other)
    }

    fn eq_el(&self, other: &Self) -> (r: bool) {
        g1_eq(self, other)
    }

    fn encode(&self) -> (r: Vec<u8>) {
        g1_to_bytes(self)
    }
}

impl GroupVal for GtElem {
    open spec fn dlog(&self) -> int {
        self@
    }

    open spec fn enc(log: int) -> Seq<u8> {
        gt_enc(log)
    }

    fn mul_scalar(&self, s: &Fr) -> (r: Self) {
        gt_mul(self, s)
    }

    fn add_el(&self, other: &Self) -> (r: Self) {
        gt_add(self, other)
    }

    fn eq_el(&self, other: &Self) -> (r: bool) {
        gt_eq(self, other)
    }

    fn encode(&self) -> (r: Vec<u8>) {
        gt_to_bytes(self)
    }
}

/// Relies on `bls12_381::G1Projective::generator`: the fixed generator, of
/// discrete logarithm one to itself.
#[verifier::external_body]
pub(crate) fn g1_generator() -> (r: G1Elem)
    ensures
        r@ == 1,
{
    G1Elem { inner: bls12_381::G1Projective::generator(), rep: Ghost(arbitrary()) }
}

/// Relies on `Mul<Scalar>` for `bls12_381::G1Projective`: scalar
/// multiplication multiplies the discrete logarithm by the scalar.
#[verifier::external_body]
pub(crate) fn g1_mul(p: &G1Elem, s: &Fr) -> (r: G1Elem)
    ensures
        r@ == fmul(p@, s@),
{
    G1Elem { inner: p.inner * s.inner, rep: Ghost(arbitrary()) }
}

/// Relies on `Add` for `bls12_381::G1Projective`: the group operation adds
/// discrete logarithms.
#[verifier::external_body]
pub(crate) fn g1_add(p: &G1Elem, q: &G1Elem) -> (r: G1Elem)
    ensures
        r@ == fadd(p@, q@),
{
    G1Elem { inner: p.inner + q.inner, rep: Ghost(arbitrary()) }
}

/// Relies on `PartialEq` for `bls12_381::G1Projective`: equality of group
/// elements is equality of discrete logarithms in a cyclic group of prime
/// order.
#[verifier::external_body]
pub(crate) fn g1_eq(p: &G1Elem, q: &G1Elem) -> (r: bool)
    ensures
        r == (p@ == q@),
{
    p.inner == q.inner
}

/// Relies on `group::Curve::to_affine` and
/// `bls12_381::G1Affine::to_compressed`: the canonical compressed encoding,
/// a function of the element alone.
#[verifier::external_body]
pub(crate) fn g1_to_bytes(p: &G1Elem) -> (r: Vec<u8>)
    ensures
        r@ == g1_enc(p@),
{
    p.inner.to_affine().to_compressed().to_vec()
}

/// Relies on `bls12_381::G2Projective::generator`: the fixed generator, of
/// discrete logarithm one to itself.
#[verifier::external_body]
pub(crate) fn g2_generator() -> (r: G2Elem)
    ensures
        r@ == 1,
{
    G2Elem { inner: bls12_381::G2Projective::generator(), rep: Ghost(arbitrary()) }
}

/// Relies on `Mul<Scalar>` for `bls12_381::G2Projective`: scalar
/// multiplication multiplies the discrete logarithm by the scalar.
#[verifier::external_body]
pub(crate) fn g2_mul(p: &G2Elem, s: &Fr) -> (r: G2Elem)
    ensures
        r@ == fmul(p@, s@),
{
    G2Elem { inner: p.inner * s.inner, rep: Ghost(arbitrary()) }
}

/// Relies on `Add` for `bls12_381::G2Projective`: the group operation adds
/// discrete logarithms.
#[verifier::external_body]
pub(crate) fn g2_add(p: &G2Elem, q: &G2Elem) -> (r: G2Elem)
    ensures
        r@ == fadd(p@, q@),
{
    G2Elem { inner: p.inner + q.inner, rep: Ghost(arbitrary()) }
}

/// Relies on `bls12_381::Gt::generator`, which is `pairing(g1, g2)` for the
/// two curve generators: the base of the target group's discrete logarithms,
/// so its own logarithm is one.
#[verifier::external_body]
pub(crate) fn gt_generator() -> (r: GtElem)
    ensures
        r@ == 1,
{
    GtElem { inner: bls12_381::Gt::generator(), rep: Ghost(arbitrary()) }
}

/// Relies on `bls12_381::Gt::identity`: the group identity, of discrete
/// logarithm zero.
#[verifier::external_body]
pub(crate) fn gt_identity() -> (r: GtElem)
    ensures
        r@ == 0,
{
    GtElem { inner: bls12_381::Gt::identity(), rep: Ghost(arbitrary()) }
}

/// Relies on `Mul<Scalar>` for `bls12_381::Gt`: scalar multiplication
/// multiplies the discrete logarithm by the scalar.
#[verifier::external_body]
pub(crate) fn gt_mul(p: &GtElem, s: &Fr) -> (r: GtElem)
    ensures
        r@ == fmul(p@, s@),
{
    GtElem { inner: p.inner * s.inner, rep: Ghost(arbitrary()) }
}

/// Relies on `Add` for `bls12_381::Gt`: the group operation adds discrete
/// logarithms.
#[verifier::external_body]
pub(crate) fn gt_add(p: &GtElem, q: &GtElem) -> (r: GtElem)
    ensures
        r@ == fadd(p@, q@),
{
    GtElem { inner: p.inner + q.inner, rep: Ghost(arbitrary()) }
}

/// Relies on `Neg` for `bls12_381::Gt`: inversion negates the discrete
/// logarithm.
#[verifier::external_body]
pub(crate) fn gt_neg(p: &GtElem) -> (r: GtElem)
    ensures
        r@ == fneg(p@),
{
    GtElem { inner: -p.inner, rep: Ghost(arbitrary()) }
}

/// Relies on `PartialEq` for `bls12_381::Gt`: equality of group elements is
/// equality of discrete logarithms in a cyclic group of prime order.
#[verifier::external_body]
pub(crate) fn gt_eq(p: &GtElem, q: &GtElem) -> (r: bool)
    ensures
        r == (p@ == q@),
{
    p.inner == q.inner
}

/// Relies on the `Debug` formatting of `bls12_381::Gt`, which prints the
/// element's unique internal representation: a deterministic, injective
/// function of the element alone.  The crate offers no compressed encoding
/// of the target group.
#[verifier::external_body]
pub(crate) fn gt_to_bytes(p: &GtElem) -> (r: Vec<u8>)
    ensures
        r@ == gt_enc(p@),
{
    format!("{:?}", p.inner).into_bytes()
}

} // verus!
