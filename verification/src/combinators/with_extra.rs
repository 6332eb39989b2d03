//! A descriptor with its context supplied up front.

use vstd::prelude::*;

use crate::{Init, PinInit};
use core::marker::PhantomData;

verus! {

/// Supply a descriptor's context at construction time, so the result
/// needs none.
pub struct WithExtra<T, Extra, I> {
    pub result: PhantomData<T>,
    pub extra: Extra,
    pub init: I,
}

impl<T, Extra, I> WithExtra<T, Extra, I> {
    /// Pair `init` with the context it will be run against.
    pub fn new(init: I, extra: Extra) -> (r: Self)
        ensures
            r.init == init,
            r.extra == extra,
    {
        WithExtra { result: PhantomData, extra, init }
    }
}

impl<T, Error, Extra, I: PinInit<T, Error, Extra>> PinInit<T, Error, ()> for WithExtra<
    T,
    Extra,
    I,
> {
    open spec fn wf(&self) -> bool {
        self.init.wf()
    }

    open spec fn meta_spec(&self) -> nat {
        self.init.meta_spec()
    }

    open spec fn pre(&self, extra: ()) -> bool {
        self.init.pre(self.extra)
    }

    open spec fn post(&self, extra: (), r: Result<T, Error>) -> bool {
        self.init.post(self.extra, r)
    }

    fn metadata(&self) -> (r: usize) {
        self.init.metadata()
    }

    fn init(self, extra: ()) -> (r: Result<T, Error>) {
        self.init.init(self.extra)
    }
}

impl<T, Error, Extra, I: Init<T, Error, Extra>> Init<T, Error, ()> for WithExtra<T, Extra, I> {
}

} // verus!
