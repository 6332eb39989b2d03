//! A post-construction hook on a relocatable descriptor.

use vstd::prelude::*;

use crate::{Init, PinInit};
use core::marker::PhantomData;

verus! {

/// Run the wrapped descriptor, then pass the just-built value through a
/// caller hook that may adjust it or reject it. A rejecting hook's error
/// propagates as construction failure, and the already-built value is
/// torn down with nothing handed out.
pub struct Then<T, I, F> {
    pub result: PhantomData<T>,
    pub init: I,
    pub func: F,
}

impl<T, I, F> Then<T, I, F> {
    /// Run `init`, then `func` on what it built.
    pub fn new(init: I, func: F) -> (r: Self)
        ensures
            r.init == init,
            r.func == func,
    {
        Then { result: PhantomData, init, func }
    }
}

impl<
    T,
    Extra,
    Error,
    I: Init<T, Error, Extra>,
    F: FnOnce(T) -> Result<T, Error>,
> PinInit<T, Error, Extra> for Then<T, I, F> {
    open spec fn wf(&self) -> bool {
        self.init.wf()
    }

    open spec fn meta_spec(&self) -> nat {
        self.init.meta_spec()
    }

    open spec fn pre(&self, extra: Extra) -> bool {
        &&& self.init.pre(extra)
        &&& forall|v: T| self.init.post(extra, Ok(v)) ==> self.func.requires((v,))
    }

    open spec fn post(&self, extra: Extra, r: Result<T, Error>) -> bool {
        match r {
            Ok(w) => exists|v: T|
                #[trigger] self.init.post(extra, Ok(v)) && self.func.ensures((v,), Ok(w)),
            Err(e) => self.init.post(extra, Err(e)) || exists|v: T|
                #[trigger] self.init.post(extra, Ok(v)) && self.func.ensures((v,), Err(e)),
        }
    }

    fn metadata(&self) -> (r: usize) {
        self.init.metadata()
    }

    fn init(self, extra: Extra) -> (r: Result<T, Error>) {
        match self.init.init(extra) {
            Ok(v) => (self.func)(v),
            Err(e) => Err(e),
        }
    }
}

impl<T, Extra, Error, I: Init<T, Error, Extra>, F: FnOnce(T) -> Result<T, Error>> Init<
    T,
    Error,
    Extra,
> for Then<T, I, F> {
}

} // verus!
