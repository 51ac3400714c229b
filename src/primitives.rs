//! Composition primitives that read or carry the configuration across
//! parser boundaries.
use vstd::prelude::*;

use crate::configured::Configured;
use nom::IResult;

verus! {

/// `wrapped` is `bare` with its remaining input re-attached to `config`:
/// a success keeps its output and gets a wrapper of `config` and the bare
/// remaining input; an error or an incomplete signal is kept as it is.
pub open spec fn rewraps<T, I, O, E>(
    config: T,
    bare: IResult<I, O, E>,
    wrapped: IResult<Configured<T, I>, O, E>,
) -> bool {
    match (bare, wrapped) {
        (IResult::Done(i, o), IResult::Done(w, o2)) => w.spec_config() == config
            && w.spec_input() == i && o2 == o,
        (IResult::Error(e), IResult::Error(e2)) => e2 == e,
        (IResult::Incomplete(n), IResult::Incomplete(n2)) => n2 == n,
        _ => false,
    }
}

/// Reads the configuration as a parse result, consuming nothing: the whole
/// wrapper comes back as the remaining input and a duplicate of its
/// configuration as the output. It always succeeds.
pub fn config_read<T: Clone, I, E>(i: Configured<T, I>) -> (r: IResult<Configured<T, I>, T, E>)
    ensures
        r matches IResult::Done(rest, c) && rest == i && cloned(i.spec_config(), c),
{
    let c = i.config().clone();
    IResult::Done(i, c)
}

/// Re-attaches `config` to the remaining input of a bare-stream parse
/// result; errors and incomplete signals pass through unchanged.
pub fn rewrap<T, I, O, E>(config: T, bare: IResult<I, O, E>) -> (r: IResult<Configured<T, I>, O, E>)
    ensures
        rewraps(config, bare, r),
{
    match bare {
        IResult::Done(i, o) => IResult::Done(Configured::new(config, i), o),
        IResult::Error(e) => IResult::Error(e),
        IResult::Incomplete(n) => IResult::Incomplete(n),
    }
}

/// Runs a parser that knows nothing of configuration on the wrapped stream,
/// and re-attaches the original configuration to what it leaves.
pub fn lift_config<T, I, O, E, F>(i: Configured<T, I>, parser: F) -> (r: IResult<Configured<T, I>, O, E>)
    where
        F: Fn(I) -> IResult<I, O, E>,
    requires
        parser.requires((i.spec_input(),)),
    ensures
        exists|bare: IResult<I, O, E>|
            parser.ensures((i.spec_input(),), bare) && rewraps(i.spec_config(), bare, r),
{
    let (config, input) = i.into_parts();
    let bare = parser(input);
    rewrap(config, bare)
}

} // verus!
