//! A descriptor that always fails.

use vstd::prelude::*;

use crate::{Init, PinInit};
use core::marker::PhantomData;

verus! {

/// A descriptor that never writes anything and immediately reports its
/// stored error. It lets one try-or-fail code path be generic over
/// success and failure without separate branches.
pub struct Fail<T, E> {
    pub result: PhantomData<T>,
    pub meta: usize,
    pub err: E,
}

impl<T, E> Fail<T, E> {
    /// A failing descriptor with trivial size metadata.
    pub fn new(err: E) -> (r: Self)
        ensures
            r.err == err,
            r.meta == 0usize,
    {
        Fail { result: PhantomData, meta: 0, err }
    }

    /// A failing descriptor that claims the given size metadata.
    pub fn new_with_meta(meta: usize, err: E) -> (r: Self)
        ensures
            r.err == err,
            r.meta == meta,
    {
        Fail { result: PhantomData, meta, err }
    }
}

impl<T, E> PinInit<T, E, ()> for Fail<T, E> {
    open spec fn wf(&self) -> bool {
        true
    }

    open spec fn meta_spec(&self) -> nat {
        self.meta as nat
    }

    open spec fn pre(&self, extra: ()) -> bool {
        true
    }

    open spec fn post(&self, extra: (), r: Result<T, E>) -> bool {
        r == Result::<T, E>::Err(self.err)
    }

    fn metadata(&self) -> (r: usize) {
        self.meta
    }

    fn init(self, extra: ()) -> (r: Result<T, E>) {
        Err(self.err)
    }
}

impl<T, E> Init<T, E, ()> for Fail<T, E> {
}

} // verus!
