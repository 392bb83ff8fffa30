//! The field elements that the circuit computes over.
//!
//! The field itself is an outside capability: its arithmetic is opaque to the
//! rest of the library, which only ever forms sums, compares for equality, and
//! builds elements from small integers. Each of those operations is a function
//! of its arguments alone, so each gets a name that the contracts of the rest
//! of the library speak of.

use vstd::prelude::*;
use halo2_proofs::pasta::group::ff::PrimeField;
use halo2_proofs::pasta::Fp;

verus! {

#[verifier::external_type_specification]
#[verifier::external_body]
pub struct ExFp(Fp);

/// The field element that `<Fp as From<u64>>::from` builds from a small
/// integer; a function of `x` alone.
pub uninterp spec fn fp_of(x: u64) -> Fp;

/// The field sum that `<Fp as core::ops::Add>::add` returns; a function of its
/// two operands alone.
pub uninterp spec fn sum_of(a: Fp, b: Fp) -> Fp;

/// Relies on `<Fp as From<u64>>::from`: the canonical field element of an
/// unsigned integer.
#[verifier::external_body]
pub(crate) fn fp_from(x: u64) -> (r: Fp)
    ensures
        r == fp_of(x),
{
    Fp::from(x)
}

/// Relies on `<Fp as core::ops::Add>::add`: addition in the field.
#[verifier::external_body]
pub(crate) fn fp_add(a: Fp, b: Fp) -> (r: Fp)
    ensures
        r == sum_of(a, b),
{
    a + b
}

/// Relies on `<Fp as PartialEq>::eq`: exact equality of field elements, which
/// compares the (always reduced) limbs of the two values.
#[verifier::external_body]
pub(crate) fn fp_eq(a: &Fp, b: &Fp) -> (r: bool)
    ensures
        r == (a == b),
{
    a == b
}

/// The canonical 32-byte little-endian encoding that
/// `<Fp as PrimeField>::to_repr` gives a field element; a function of the
/// element alone.
pub uninterp spec fn repr_of(f: Fp) -> Seq<u8>;

/// Relies on `<Fp as PrimeField>::to_repr`: the canonical byte encoding of
/// the element, 32 bytes, distinct for distinct elements (the encoding is the
/// unique reduced form).
#[verifier::external_body]
pub(crate) fn fp_to_repr(f: &Fp) -> (r: Vec<u8>)
    ensures
        r@ == repr_of(*f),
        r@.len() == 32,
        forall|g: Fp| repr_of(g) == r@ ==> g == *f,
{
    f.to_repr().to_vec()
}

/// Relies on `<Fp as PrimeField>::from_repr`: decodes exactly the canonical
/// 32-byte encodings, and decoding the canonical encoding of an element gives
/// that element back.
#[verifier::external_body]
pub(crate) fn fp_from_repr(bytes: &[u8]) -> (r: Option<Fp>)
    ensures
        r matches Some(f) ==> repr_of(f) == bytes@,
        forall|f: Fp| repr_of(f) == bytes@ ==> r == Some(f),
{
    let arr: [u8; 32] = match bytes.try_into() {
        Ok(a) => a,
        Err(_) => return None,
    };
    Fp::from_repr(arr).into()
}

}
