//! Laws relating the wrapper and the composition primitives.
use vstd::prelude::*;

use crate::configured::{lemma_wrapper_from_parts, Configured};
use crate::primitives::rewraps;
use nom::IResult;
use vstd::std_specs::cmp::PartialEqSpec;

verus! {

/// When a bare-stream parser succeeds under `lift_config`, the remaining
/// wrapper carries exactly the configuration that went in, around exactly
/// the input that the bare parser left.
pub proof fn lemma_lift_keeps_config<T, I, O, E>(
    config: T,
    bare: IResult<I, O, E>,
    wrapped: IResult<Configured<T, I>, O, E>,
)
    requires
        rewraps(config, bare, wrapped),
        bare matches IResult::Done(_, _),
    ensures
        match (bare, wrapped) {
            (IResult::Done(i, o), IResult::Done(w, o2)) => w.spec_config() == config
                && w.spec_input() == i && o2 == o,
            _ => false,
        },
{
}

/// Errors and incomplete signals of a bare-stream parser come out of
/// `lift_config` unchanged.
pub proof fn lemma_lift_passes_failures<T, I, O, E>(
    config: T,
    bare: IResult<I, O, E>,
    wrapped: IResult<Configured<T, I>, O, E>,
)
    requires
        rewraps(config, bare, wrapped),
    ensures
        bare matches IResult::Error(e) ==> wrapped == IResult::<Configured<T, I>, O, E>::Error(e),
        bare matches IResult::Incomplete(n) ==> wrapped
            == IResult::<Configured<T, I>, O, E>::Incomplete(n),
        bare matches IResult::Done(_, _) <==> wrapped matches IResult::Done(_, _),
{
}

/// Equality of byte-stream wrappers ignores the configuration: wrappers over
/// the same bytes are equal whatever their configurations, and wrappers over
/// different bytes are not.
pub proof fn lemma_eq_ignores_config<'a, T>(a: Configured<T, &'a [u8]>, b: Configured<T, &'a [u8]>)
    ensures
        a.bytes() == b.bytes() ==> a.eq_spec(&b),
        a.bytes() != b.bytes() ==> !a.eq_spec(&b),
{
}

/// A configuration-aware parser that runs on what `lift_config` left sees
/// the very wrapper it would see if called directly on a wrapper built by
/// hand from the same configuration and the same remaining input: nesting
/// adds no second layer and changes no configuration.
pub proof fn lemma_nested_call_sees_plain_wrapper<T, I, O, E>(
    config: T,
    bare: IResult<I, O, E>,
    wrapped: IResult<Configured<T, I>, O, E>,
    by_hand: Configured<T, I>,
)
    requires
        rewraps(config, bare, wrapped),
        bare matches IResult::Done(i, _) && by_hand.spec_input() == i,
        by_hand.spec_config() == config,
    ensures
        wrapped matches IResult::Done(w, _) && w == by_hand,
{
    if let IResult::Done(w, _) = wrapped {
        lemma_wrapper_from_parts(w, by_hand);
    }
}

} // verus!
