//! A descriptor created from the context, once the context exists.

use vstd::prelude::*;

use crate::{Init, PinInit};
use core::marker::PhantomData;

verus! {

/// Build a sized value by first creating a descriptor from the supplied
/// context. The cyclic reference-counted engine, for example, supplies a
/// weak handle to the allocation being filled, and the stored function
/// turns that handle into the actual descriptor.
pub struct With<T, F> {
    pub variance: PhantomData<T>,
    pub func: F,
}

impl<T, F> With<T, F> {
    /// Build from `func`, which maps the context to a descriptor.
    pub fn new(func: F) -> (r: Self)
        ensures
            r.func == func,
    {
        With { variance: PhantomData, func }
    }
}

impl<T, Error, Extra, I: PinInit<T, Error, ()>, F: FnOnce(Extra) -> I> PinInit<
    T,
    Error,
    Extra,
> for With<T, F> {
    open spec fn wf(&self) -> bool {
        true
    }

    open spec fn meta_spec(&self) -> nat {
        0
    }

    open spec fn pre(&self, extra: Extra) -> bool {
        &&& self.func.requires((extra,))
        &&& forall|i: I| self.func.ensures((extra,), i) ==> i.wf() && i.pre(())
    }

    open spec fn post(&self, extra: Extra, r: Result<T, Error>) -> bool {
        exists|i: I| self.func.ensures((extra,), i) && i.post((), r)
    }

    fn metadata(&self) -> (r: usize) {
        0
    }

    fn init(self, extra: Extra) -> (r: Result<T, Error>) {
        let i = (self.func)(extra);
        i.init(())
    }
}

impl<T, Error, Extra, I: Init<T, Error, ()>, F: FnOnce(Extra) -> I> Init<T, Error, Extra> for With<
    T,
    F,
> {
}

} // verus!
