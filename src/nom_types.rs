//! Declarations of the nom types that the parse results are made of.
use vstd::prelude::*;

verus! {

/// nom's "how much more input is needed" signal, carried through unchanged.
#[verifier::external_type_specification]
#[verifier::external_body]
pub struct ExNeeded(nom::Needed);

/// nom's error code, carried through unchanged.
#[verifier::external_type_specification]
#[verifier::external_body]
#[verifier::reject_recursive_types(E)]
pub struct ExErrorKind<E>(nom::ErrorKind<E>);

/// nom's three-way parse result: `Done(remaining, output)`, `Error(e)` or
/// `Incomplete(needed)`. Its variants are visible to the proofs.
#[verifier::external_type_specification]
#[verifier::reject_recursive_types(I)]
#[verifier::reject_recursive_types(O)]
#[verifier::reject_recursive_types(E)]
pub struct ExIResult<I, O, E>(nom::IResult<I, O, E>);

} // verus!
