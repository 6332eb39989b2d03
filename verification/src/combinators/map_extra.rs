//! A descriptor whose context is transformed, fallibly, before use.

use vstd::prelude::*;

use crate::{Init, PinInit};
use core::marker::PhantomData;

verus! {

/// Transform the supplied context through the stored function before
/// handing it to the wrapped descriptor; a failed transform is reported
/// as construction failure with nothing built.
pub struct MapExtra<T, F, I> {
    pub result: PhantomData<T>,
    pub func: F,
    pub init: I,
}

impl<T, F, I> MapExtra<T, F, I> {
    /// Wrap `init`, feeding it contexts converted through `func`.
    pub fn new(func: F, init: I) -> (r: Self)
        ensures
            r.func == func,
            r.init == init,
    {
        MapExtra { result: PhantomData, func, init }
    }
}

impl<
    T,
    Extra1,
    Extra2,
    Error,
    F: FnOnce(Extra1) -> Result<Extra2, Error>,
    I: PinInit<T, Error, Extra2>,
> PinInit<T, Error, Extra1> for MapExtra<T, F, I> {
    open spec fn wf(&self) -> bool {
        self.init.wf()
    }

    open spec fn meta_spec(&self) -> nat {
        self.init.meta_spec()
    }

    open spec fn pre(&self, extra: Extra1) -> bool {
        &&& self.func.requires((extra,))
        &&& forall|r0: Result<Extra2, Error>|
            self.func.ensures((extra,), r0) && r0 is Ok ==> self.init.pre(r0->Ok_0)
    }

    open spec fn post(&self, extra: Extra1, r: Result<T, Error>) -> bool {
        exists|r0: Result<Extra2, Error>|
            self.func.ensures((extra,), r0) && match r0 {
                Ok(e2) => self.init.post(e2, r),
                Err(e) => r == Result::<T, Error>::Err(e),
            }
    }

    fn metadata(&self) -> (r: usize) {
        self.init.metadata()
    }

    fn init(self, extra: Extra1) -> (r: Result<T, Error>) {
        match (self.func)(extra) {
            Ok(e2) => {
                let ghost r0 = Result::<Extra2, Error>::Ok(e2);
                let r = self.init.init(e2);
                proof {
                    assert(self.func.ensures((extra,), r0));
                }
                r
            },
            Err(e) => Err(e),
        }
    }
}

impl<
    T,
    Extra1,
    Extra2,
    Error,
    F: FnOnce(Extra1) -> Result<Extra2, Error>,
    I: Init<T, Error, Extra2>,
> Init<T, Error, Extra1> for MapExtra<T, F, I> {
}

} // verus!
