//! The configuration-carrying input wrapper.
use vstd::prelude::*;

verus! {

/// A parser input paired with a configuration value.
///
/// The configuration is never changed by this type: every wrapper derived
/// from another one (by slicing, or by re-attaching the configuration after a
/// bare-stream parser ran) carries the same configuration.
#[derive(Clone, Copy, Debug)]
pub struct Configured<T, I> {
    config: T,
    input: I,
}

impl<T, I> Configured<T, I> {
    /// The configuration carried by this wrapper.
    pub closed spec fn spec_config(&self) -> T {
        self.config
    }

    /// The stream carried by this wrapper.
    pub closed spec fn spec_input(&self) -> I {
        self.input
    }

    /// Creates a new wrapper holding both values unchanged.
    pub fn new(config: T, input: I) -> (r: Self)
        ensures
            r.spec_config() == config,
            r.spec_input() == input,
    {
        Configured { config, input }
    }

    /// Returns a reference to the configuration.
    pub fn config(&self) -> (r: &T)
        ensures
            *r == self.spec_config(),
    {
        &self.config
    }

    /// Returns a reference to the input.
    pub fn input(&self) -> (r: &I)
        ensures
            *r == self.spec_input(),
    {
        &self.input
    }

    /// Consumes the wrapper and yields the configuration and the input.
    pub fn into_parts(self) -> (r: (T, I))
        ensures
            r.0 == self.spec_config(),
            r.1 == self.spec_input(),
    {
        (self.config, self.input)
    }
}

/// Two wrappers with the same configuration and the same stream are the
/// same wrapper.
pub proof fn lemma_wrapper_from_parts<T, I>(a: Configured<T, I>, b: Configured<T, I>)
    requires
        a.spec_config() == b.spec_config(),
        a.spec_input() == b.spec_input(),
    ensures
        a == b,
{
}

} // verus!
