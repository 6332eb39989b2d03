//! A descriptor that discards the context it is handed.

use vstd::prelude::*;

use crate::{Init, PinInit};
use core::marker::PhantomData;

verus! {

/// Adapt a descriptor that needs no context so it can be used where a
/// context is supplied: the context is dropped unused.
pub struct IgnoreExtra<T, I> {
    pub result: PhantomData<T>,
    pub init: I,
}

impl<T, I> IgnoreExtra<T, I> {
    /// Wrap `init`, dropping whatever context the caller supplies.
    pub fn new(init: I) -> (r: Self)
        ensures
            r.init == init,
    {
        IgnoreExtra { result: PhantomData, init }
    }
}

impl<T, Error, Extra, I: PinInit<T, Error, ()>> PinInit<T, Error, Extra> for IgnoreExtra<T, I> {
    open spec fn wf(&self) -> bool {
        self.init.wf()
    }

    open spec fn meta_spec(&self) -> nat {
        self.init.meta_spec()
    }

    open spec fn pre(&self, extra: Extra) -> bool {
        self.init.pre(())
    }

    open spec fn post(&self, extra: Extra, r: Result<T, Error>) -> bool {
        self.init.post((), r)
    }

    fn metadata(&self) -> (r: usize) {
        self.init.metadata()
    }

    fn init(self, extra: Extra) -> (r: Result<T, Error>) {
        self.init.init(())
    }
}

impl<T, Error, Extra, I: Init<T, Error, ()>> Init<T, Error, Extra> for IgnoreExtra<T, I> {
}

} // verus!
