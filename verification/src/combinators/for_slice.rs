//! An array descriptor adapted to the sequence contract.

use vstd::prelude::*;

use crate::shape::{Array, Slice};
use crate::{Init, PinInit, meta_agrees};

verus! {

/// The descriptor `i` builds only well-formed `N`-element arrays: every
/// success its contract admits holds exactly `N` elements.
pub open spec fn builds_wf_arrays<
    T,
    const N: usize,
    Error,
    Extra,
    I: PinInit<Array<T, N>, Error, Extra>,
>(i: I) -> bool {
    forall|extra: Extra, r: Result<Array<T, N>, Error>|
        #[trigger] i.post(extra, r) ==> (r is Ok ==> r->Ok_0@.len() == N)
}

/// Present a fixed-length array descriptor as a sequence descriptor for
/// sequences of that exact length; the size is the compile-time
/// constant.
pub struct ForSlice<I, const N: usize> {
    pub init: I,
}

impl<I, const N: usize> ForSlice<I, N> {
    /// Present the array descriptor `init` as a sequence descriptor.
    pub fn new(init: I) -> (r: Self)
        ensures
            r.init == init,
    {
        ForSlice { init }
    }
}

impl<T, const N: usize, Error, Extra, I: PinInit<Array<T, N>, Error, Extra>> PinInit<
    Slice<T>,
    Error,
    Extra,
> for ForSlice<I, N> {
    open spec fn wf(&self) -> bool {
        self.init.wf()
    }

    open spec fn meta_spec(&self) -> nat {
        N as nat
    }

    open spec fn pre(&self, extra: Extra) -> bool {
        self.init.pre(extra)
    }

    open spec fn post(&self, extra: Extra, r: Result<Slice<T>, Error>) -> bool {
        match r {
            Ok(s) => exists|a: Array<T, N>| #[trigger] self.init.post(extra, Ok(a)) && s@ == a@,
            Err(e) => self.init.post(extra, Err(e)),
        }
    }

    fn metadata(&self) -> (r: usize) {
        N
    }

    fn init(self, extra: Extra) -> (r: Result<Slice<T>, Error>) {
        match self.init.init(extra) {
            Ok(a) => Ok(Slice::from_vec(a.into_vec())),
            Err(e) => Err(e),
        }
    }
}

impl<T, const N: usize, Error, Extra, I: Init<Array<T, N>, Error, Extra>> Init<
    Slice<T>,
    Error,
    Extra,
> for ForSlice<I, N> {
}

/// Size/length agreement law for the array-to-sequence adapter, given
/// that the wrapped descriptor builds well-formed arrays.
pub proof fn lemma_for_slice_meta_agrees<
    T,
    const N: usize,
    Error,
    Extra,
    I: PinInit<Array<T, N>, Error, Extra>,
>(fs: ForSlice<I, N>)
    requires
        builds_wf_arrays::<T, N, Error, Extra, I>(fs.init),
    ensures
        meta_agrees::<T, Slice<T>, Error, Extra, ForSlice<I, N>>(fs),
{
}

} // verus!
