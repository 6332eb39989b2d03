//! A descriptor created fallibly from the context.

use vstd::prelude::*;

use crate::{Init, PinInit};
use core::marker::PhantomData;

verus! {

/// Build a sized value by fallibly creating a descriptor from the
/// supplied context. If the stored function fails, its error is reported
/// as construction failure and nothing is built.
pub struct TryWith<T, F> {
    pub variance: PhantomData<T>,
    pub func: F,
}

impl<T, F> TryWith<T, F> {
    /// Build from `func`, which maps the context to a descriptor or an
    /// error.
    pub fn new(func: F) -> (r: Self)
        ensures
            r.func == func,
    {
        TryWith { variance: PhantomData, func }
    }
}

impl<
    T,
    Error,
    Extra,
    I: PinInit<T, Error, ()>,
    F: FnOnce(Extra) -> Result<I, Error>,
> PinInit<T, Error, Extra> for TryWith<T, F> {
    open spec fn wf(&self) -> bool {
        true
    }

    open spec fn meta_spec(&self) -> nat {
        0
    }

    open spec fn pre(&self, extra: Extra) -> bool {
        &&& self.func.requires((extra,))
        &&& forall|r0: Result<I, Error>|
            self.func.ensures((extra,), r0) && r0 is Ok ==> r0->Ok_0.wf() && r0->Ok_0.pre(())
    }

    open spec fn post(&self, extra: Extra, r: Result<T, Error>) -> bool {
        exists|r0: Result<I, Error>|
            self.func.ensures((extra,), r0) && match r0 {
                Ok(i) => i.post((), r),
                Err(e) => r == Result::<T, Error>::Err(e),
            }
    }

    fn metadata(&self) -> (r: usize) {
        0
    }

    fn init(self, extra: Extra) -> (r: Result<T, Error>) {
        match (self.func)(extra) {
            Ok(i) => {
                let ghost r0 = Result::<I, Error>::Ok(i);
                let r = i.init(());
                proof {
                    assert(self.func.ensures((extra,), r0));
                }
                r
            },
            Err(e) => Err(e),
        }
    }
}

impl<
    T,
    Error,
    Extra,
    I: Init<T, Error, ()>,
    F: FnOnce(Extra) -> Result<I, Error>,
> Init<T, Error, Extra> for TryWith<T, F> {
}

} // verus!
