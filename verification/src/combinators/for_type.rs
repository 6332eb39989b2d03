//! A descriptor restricted to one destination type.

use vstd::prelude::*;

use crate::{Init, PinInit};
use core::marker::PhantomData;

verus! {

/// A descriptor restricted to build a specific destination type.
///
/// Some descriptors can fill several destination shapes; this wrapper
/// guides type checking by pinning the destination down. It changes no
/// behaviour.
pub struct ForType<T, I> {
    pub result: PhantomData<T>,
    pub init: I,
}

impl<T, I> ForType<T, I> {
    /// Restrict `init` to the destination type `T`.
    pub fn new(init: I) -> (r: Self)
        ensures
            r.init == init,
    {
        ForType { result: PhantomData, init }
    }
}

impl<T, Error, Extra, I: PinInit<T, Error, Extra>> PinInit<T, Error, Extra> for ForType<T, I> {
    open spec fn wf(&self) -> bool {
        self.init.wf()
    }

    open spec fn meta_spec(&self) -> nat {
        self.init.meta_spec()
    }

    open spec fn pre(&self, extra: Extra) -> bool {
        self.init.pre(extra)
    }

    open spec fn post(&self, extra: Extra, r: Result<T, Error>) -> bool {
        self.init.post(extra, r)
    }

    fn metadata(&self) -> (r: usize) {
        self.init.metadata()
    }

    fn init(self, extra: Extra) -> (r: Result<T, Error>) {
        self.init.init(extra)
    }
}

impl<T, Error, Extra, I: Init<T, Error, Extra>> Init<T, Error, Extra> for ForType<T, I> {
}

} // verus!
