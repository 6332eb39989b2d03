//! An infallible descriptor presented under a fallible error type.

use vstd::prelude::*;

use crate::{Init, PinInit};
use core::marker::PhantomData;

verus! {

/// Present a descriptor that cannot fail under any error type a caller
/// needs, at no runtime cost. The wrapped descriptor's own error type is
/// `E`, and its contract must rule every error out.
pub struct Succeed<T, I, E> {
    pub result: PhantomData<T>,
    pub err: PhantomData<E>,
    pub init: I,
}

impl<T, I, E> Succeed<T, I, E> {
    /// Wrap the infallible `init`.
    pub fn new(init: I) -> (r: Self)
        ensures
            r.init == init,
    {
        Succeed { result: PhantomData, err: PhantomData, init }
    }
}

impl<T, Error, Extra, E, I: PinInit<T, E, Extra>> PinInit<T, Error, Extra> for Succeed<T, I, E> {
    open spec fn wf(&self) -> bool {
        self.init.wf()
    }

    open spec fn meta_spec(&self) -> nat {
        self.init.meta_spec()
    }

    open spec fn pre(&self, extra: Extra) -> bool {
        &&& self.init.pre(extra)
        &&& forall|e: E| !self.init.post(extra, Err(e))
    }

    open spec fn post(&self, extra: Extra, r: Result<T, Error>) -> bool {
        r matches Ok(v) && self.init.post(extra, Ok(v))
    }

    fn metadata(&self) -> (r: usize) {
        self.init.metadata()
    }

    fn init(self, extra: Extra) -> (r: Result<T, Error>) {
        match self.init.init(extra) {
            Ok(v) => Ok(v),
            Err(_) => unreached(),
        }
    }
}

impl<T, Error, Extra, E, I: Init<T, E, Extra>> Init<T, Error, Extra> for Succeed<T, I, E> {
}

} // verus!
