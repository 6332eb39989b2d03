//! A descriptor that performs no writes at all.

use vstd::prelude::*;

use crate::shape::{Slice, Slot};
use crate::{Init, PinInit, meta_agrees};
use core::marker::PhantomData;

verus! {

/// Build a destination of uninitialized cells by writing nothing: valid
/// only for destinations that explicitly hold the uninitialized state,
/// which [`Slot`] does by construction. Infallible.
pub struct Uninit<D> {
    pub result: PhantomData<D>,
    pub meta: usize,
}

impl<T> Uninit<Slot<T>> {
    /// One uninitialized cell.
    pub fn new() -> (r: Uninit<Slot<T>>)
        ensures
            r.meta == 0usize,
    {
        Uninit { result: PhantomData, meta: 0 }
    }

    /// A sequence of `length` uninitialized cells.
    pub fn new_slice(length: usize) -> (r: Uninit<Slice<Slot<T>>>)
        ensures
            r.meta == length,
    {
        Uninit { result: PhantomData, meta: length }
    }
}

impl<T, Error> PinInit<Slot<T>, Error, ()> for Uninit<Slot<T>> {
    open spec fn wf(&self) -> bool {
        true
    }

    open spec fn meta_spec(&self) -> nat {
        0
    }

    open spec fn pre(&self, extra: ()) -> bool {
        true
    }

    open spec fn post(&self, extra: (), r: Result<Slot<T>, Error>) -> bool {
        r matches Ok(s) && s is Vacant
    }

    fn metadata(&self) -> (r: usize) {
        0
    }

    fn init(self, extra: ()) -> (r: Result<Slot<T>, Error>) {
        Ok(Slot::new())
    }
}

impl<T, Error> Init<Slot<T>, Error, ()> for Uninit<Slot<T>> {
}

impl<T, Error> PinInit<Slice<Slot<T>>, Error, ()> for Uninit<Slice<Slot<T>>> {
    open spec fn wf(&self) -> bool {
        true
    }

    open spec fn meta_spec(&self) -> nat {
        self.meta as nat
    }

    open spec fn pre(&self, extra: ()) -> bool {
        true
    }

    open spec fn post(&self, extra: (), r: Result<Slice<Slot<T>>, Error>) -> bool {
        r matches Ok(s) && s@.len() == self.meta && (forall|j: int|
            0 <= j < s@.len() ==> (#[trigger] s@[j]) is Vacant)
    }

    fn metadata(&self) -> (r: usize) {
        self.meta
    }

    fn init(self, extra: ()) -> (r: Result<Slice<Slot<T>>, Error>) {
        let mut elems: Vec<Slot<T>> = Vec::new();
        let mut idx: usize = 0;
        while idx < self.meta
            invariant
                idx <= self.meta,
                elems@.len() == idx,
                forall|j: int| 0 <= j < idx ==> (#[trigger] elems@[j]) is Vacant,
            decreases self.meta - idx,
        {
            elems.push(Slot::new());
            idx = idx + 1;
        }
        Ok(Slice::from_vec(elems))
    }
}

impl<T, Error> Init<Slice<Slot<T>>, Error, ()> for Uninit<Slice<Slot<T>>> {
}

/// Size/length agreement law for the no-write sequence descriptor.
pub proof fn lemma_uninit_meta_agrees<T, Error>(u: Uninit<Slice<Slot<T>>>)
    ensures
        meta_agrees::<Slot<T>, Slice<Slot<T>>, Error, (), Uninit<Slice<Slot<T>>>>(u),
{
}

} // verus!
