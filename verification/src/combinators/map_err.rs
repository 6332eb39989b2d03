//! A descriptor whose error is re-typed through a caller function.

use vstd::prelude::*;

use crate::{Init, PinInit};
use core::marker::PhantomData;

verus! {

/// Run the wrapped descriptor and, if it fails, pass its error through
/// the stored function before reporting it. Success is untouched.
pub struct MapErr<T, ESrc, F, I> {
    pub result: PhantomData<T>,
    pub map: PhantomData<ESrc>,
    pub func: F,
    pub init: I,
}

impl<T, ESrc, F, I> MapErr<T, ESrc, F, I> {
    /// Wrap `init`, converting its errors through `func`.
    pub fn new(func: F, init: I) -> (r: Self)
        ensures
            r.func == func,
            r.init == init,
    {
        MapErr { result: PhantomData, map: PhantomData, func, init }
    }
}

impl<
    T,
    Extra,
    E1,
    E2,
    F: FnOnce(E1) -> E2,
    I: PinInit<T, E1, Extra>,
> PinInit<T, E2, Extra> for MapErr<T, E1, F, I> {
    open spec fn wf(&self) -> bool {
        self.init.wf()
    }

    open spec fn meta_spec(&self) -> nat {
        self.init.meta_spec()
    }

    open spec fn pre(&self, extra: Extra) -> bool {
        &&& self.init.pre(extra)
        &&& forall|e1: E1| self.init.post(extra, Err(e1)) ==> self.func.requires((e1,))
    }

    open spec fn post(&self, extra: Extra, r: Result<T, E2>) -> bool {
        match r {
            Ok(v) => self.init.post(extra, Ok(v)),
            Err(e2) => exists|e1: E1|
                self.init.post(extra, Err(e1)) && self.func.ensures((e1,), e2),
        }
    }

    fn metadata(&self) -> (r: usize) {
        self.init.metadata()
    }

    fn init(self, extra: Extra) -> (r: Result<T, E2>) {
        match self.init.init(extra) {
            Ok(v) => Ok(v),
            Err(e1) => Err((self.func)(e1)),
        }
    }
}

impl<
    T,
    Extra,
    E1,
    E2,
    F: FnOnce(E1) -> E2,
    I: Init<T, E1, Extra>,
> Init<T, E2, Extra> for MapErr<T, E1, F, I> {
}

} // verus!
