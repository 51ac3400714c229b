//! The stream capabilities of a wrapper over a byte slice, each delegated to
//! the wrapped bytes.
use vstd::prelude::*;

use crate::configured::Configured;
use vstd::slice::slice_subrange;

verus! {

impl<'a, T> Configured<T, &'a [u8]> {
    /// The bytes of the wrapped stream.
    pub open spec fn bytes(&self) -> Seq<u8> {
        self.spec_input()@
    }

    /// Number of bytes left in the wrapped stream.
    pub fn input_len(&self) -> (r: usize)
        ensures
            r == self.bytes().len(),
    {
        self.input().len()
    }

    /// The wrapped stream as raw bytes.
    pub fn as_bytes(&self) -> (r: &'a [u8])
        ensures
            r@ == self.bytes(),
    {
        *self.input()
    }

    /// `Some(count)` when the stream holds at least `count` bytes, else `None`.
    pub fn slice_index(&self, count: usize) -> (r: Option<usize>)
        ensures
            r == (if count <= self.bytes().len() { Some(count) } else { None::<usize> }),
    {
        if self.input().len() >= count {
            Some(count)
        } else {
            None
        }
    }

    /// Index of the first byte on which `predicate` holds, if any.
    pub fn position<P>(&self, predicate: P) -> (r: Option<usize>)
        where
            P: Fn(u8) -> bool,
        requires
            forall|b: u8| predicate.requires((b,)),
        ensures
            match r {
                Some(k) => k < self.bytes().len() && predicate.ensures((self.bytes()[k as int],), true)
                    && forall|j: int| 0 <= j < k ==> predicate.ensures((#[trigger] self.bytes()[j],), false),
                None => forall|j: int|
                    0 <= j < self.bytes().len() ==> predicate.ensures((#[trigger] self.bytes()[j],), false),
            },
    {
        let s: &[u8] = *self.input();
        let mut k: usize = 0;
        while k < s.len()
            invariant
                s@ == self.bytes(),
                k <= s@.len(),
                forall|b: u8| predicate.requires((b,)),
                forall|j: int| 0 <= j < k ==> predicate.ensures((#[trigger] self.bytes()[j],), false),
            decreases s@.len() - k,
        {
            if predicate(s[k]) {
                return Some(k);
            }
            k = k + 1;
        }
        None
    }
}

impl<'a, T: Clone> Configured<T, &'a [u8]> {
    /// The bytes from `start` to the end, with a duplicate of the configuration.
    pub fn slice_from(&self, start: usize) -> (r: Self)
        requires
            start <= self.bytes().len(),
        ensures
            r.bytes() == self.bytes().subrange(start as int, self.bytes().len() as int),
            cloned(self.spec_config(), r.spec_config()),
    {
        let s: &'a [u8] = *self.input();
        Configured::new(self.config().clone(), slice_subrange(s, start, s.len()))
    }

    /// The bytes before `end`, with a duplicate of the configuration.
    pub fn slice_to(&self, end: usize) -> (r: Self)
        requires
            end <= self.bytes().len(),
        ensures
            r.bytes() == self.bytes().subrange(0, end as int),
            cloned(self.spec_config(), r.spec_config()),
    {
        let s: &'a [u8] = *self.input();
        Configured::new(self.config().clone(), slice_subrange(s, 0, end))
    }

    /// The bytes from `start` up to `end`, with a duplicate of the configuration.
    pub fn slice_range(&self, start: usize, end: usize) -> (r: Self)
        requires
            start <= end <= self.bytes().len(),
        ensures
            r.bytes() == self.bytes().subrange(start as int, end as int),
            cloned(self.spec_config(), r.spec_config()),
    {
        let s: &'a [u8] = *self.input();
        Configured::new(self.config().clone(), slice_subrange(s, start, end))
    }
}

/// Equality looks at the wrapped bytes only; the configurations are not
/// compared.
impl<'a, T> PartialEq for Configured<T, &'a [u8]> {
    fn eq(&self, other: &Self) -> (r: bool) {
        let a: &[u8] = *self.input();
        let b: &[u8] = *other.input();
        if a.len() != b.len() {
            return false;
        }
        let mut k: usize = 0;
        while k < a.len()
            invariant
                a@ == self.bytes(),
                b@ == other.bytes(),
                a@.len() == b@.len(),
                k <= a@.len(),
                a@.subrange(0, k as int) == b@.subrange(0, k as int),
            decreases a@.len() - k,
        {
            if a[k] != b[k] {
                return false;
            }
            assert(a@.subrange(0, k + 1) == a@.subrange(0, k as int).push(a@[k as int]));
            assert(b@.subrange(0, k + 1) == b@.subrange(0, k as int).push(b@[k as int]));
            k = k + 1;
        }
        assert(a@ == a@.subrange(0, k as int));
        assert(b@ == b@.subrange(0, k as int));
        true
    }
}

impl<'a, T> vstd::std_specs::cmp::PartialEqSpecImpl for Configured<T, &'a [u8]> {
    open spec fn obeys_eq_spec() -> bool {
        true
    }

    open spec fn eq_spec(&self, other: &Self) -> bool {
        self.bytes() == other.bytes()
    }
}

} // verus!
