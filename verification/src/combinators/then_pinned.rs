//! A post-construction hook on a pinned descriptor.

use vstd::prelude::*;

use crate::{Init, PinInit};
use core::marker::PhantomData;

verus! {

/// As [`Then`][crate::Then], for descriptors whose result must be
/// treated as pinned: the hook sees the value in its final resting
/// place, and the result stays pin-only.
pub struct ThenPinned<T, I, F> {
    pub result: PhantomData<T>,
    pub init: I,
    pub func: F,
}

impl<T, I, F> ThenPinned<T, I, F> {
    /// Run `init`, then `func` on what it built, keeping the result
    /// pinned.
    pub fn new(init: I, func: F) -> (r: Self)
        ensures
            r.init == init,
            r.func == func,
    {
        ThenPinned { result: PhantomData, init, func }
    }
}

impl<
    T,
    Extra,
    Error,
    I: PinInit<T, Error, Extra>,
    F: FnOnce(T) -> Result<T, Error>,
> PinInit<T, Error, Extra> for ThenPinned<T, I, F> {
    open spec fn wf(&self) -> bool {
        self.init.wf()
    }

    open spec fn meta_spec(&self) -> nat {
        self.init.meta_spec()
    }

    open spec fn pre(&self, extra: Extra) -> bool {
        &&& self.init.pre(extra)
        &&& forall|v: T| self.init.post(extra, Ok(v)) ==> self.func.requires((v,))
    }

    open spec fn post(&self, extra: Extra, r: Result<T, Error>) -> bool {
        match r {
            Ok(w) => exists|v: T|
                #[trigger] self.init.post(extra, Ok(v)) && self.func.ensures((v,), Ok(w)),
            Err(e) => self.init.post(extra, Err(e)) || exists|v: T|
                #[trigger] self.init.post(extra, Ok(v)) && self.func.ensures((v,), Err(e)),
        }
    }

    fn metadata(&self) -> (r: usize) {
        self.init.metadata()
    }

    fn init(self, extra: Extra) -> (r: Result<T, Error>) {
        match self.init.init(extra) {
            Ok(v) => (self.func)(v),
            Err(e) => Err(e),
        }
    }
}

} // verus!
