//! A pinned-only descriptor asserted usable as a relocatable one.

use vstd::prelude::*;

use crate::{Init, PinInit};
use core::marker::PhantomData;

verus! {

/// Present a pinned-only descriptor as a relocatable one.
///
/// In this library every destination is held by value and never exposes
/// its address, so the upgrade is sound by construction; the two
/// constructors mirror the two justifications a caller can have: the
/// descriptor already is relocatable, or the destination type has no
/// address-dependent state.
pub struct AssertPinned<T, Error, Extra, I> {
    pub result: PhantomData<T>,
    pub error: PhantomData<Error>,
    pub context: PhantomData<Extra>,
    pub init: I,
}

impl<T, Error, Extra, I> AssertPinned<T, Error, Extra, I> {
    /// Wrap a descriptor that is already relocatable.
    pub fn new(init: I) -> (r: Self)
        where I: Init<T, Error, Extra>
        ensures
            r.init == init,
    {
        AssertPinned { result: PhantomData, error: PhantomData, context: PhantomData, init }
    }

    /// Wrap a pinned-only descriptor whose destination type has no
    /// address-dependent state, so its result may move freely.
    pub fn new_unpin(init: I) -> (r: Self)
        where I: PinInit<T, Error, Extra>
        ensures
            r.init == init,
    {
        AssertPinned { result: PhantomData, error: PhantomData, context: PhantomData, init }
    }
}

impl<T, Error, Extra, I: PinInit<T, Error, Extra>> PinInit<T, Error, Extra> for AssertPinned<
    T,
    Error,
    Extra,
    I,
> {
    open spec fn wf(&self) -> bool {
        self.init.wf()
    }

    open spec fn meta_spec(&self) -> nat {
        self.init.meta_spec()
    }

    open spec fn pre(&self, extra: Extra) -> bool {
        self.init.pre(extra)
    }

    open spec fn post(&self, extra: Extra, r: Result<T, Error>) -> bool {
        self.init.post(extra, r)
    }

    fn metadata(&self) -> (r: usize) {
        self.init.metadata()
    }

    fn init(self, extra: Extra) -> (r: Result<T, Error>) {
        self.init.init(extra)
    }
}

impl<T, Error, Extra, I: PinInit<T, Error, Extra>> Init<T, Error, Extra> for AssertPinned<
    T,
    Error,
    Extra,
    I,
> {
}

} // verus!
