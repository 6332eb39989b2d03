//! A sized-value descriptor presented through an unsized destination.

use vstd::prelude::*;

use crate::combinators::for_slice::builds_wf_arrays;
use crate::shape::{Array, Slice};
use crate::{Init, PinInit, meta_agrees};
use core::marker::PhantomData;

verus! {

/// Build an unsized destination by building a sized value known to be a
/// valid unsized view of it: a fixed-length array built by value and
/// presented through a sequence destination. The size comes from the
/// sized source type alone.
pub struct Unsize<T, Dst, I> {
    pub source: PhantomData<T>,
    pub result: PhantomData<Dst>,
    pub init: I,
}

impl<T, Dst, I> Unsize<T, Dst, I> {
    /// Present the sized-value descriptor `init` through the unsized
    /// destination `Dst`.
    pub fn new(init: I) -> (r: Self)
        ensures
            r.init == init,
    {
        Unsize { source: PhantomData, result: PhantomData, init }
    }
}

impl<T, const N: usize, Error, Extra, I: Init<Array<T, N>, Error, Extra>> PinInit<
    Slice<T>,
    Error,
    Extra,
> for Unsize<Array<T, N>, Slice<T>, I> {
    open spec fn wf(&self) -> bool {
        self.init.wf()
    }

    open spec fn meta_spec(&self) -> nat {
        N as nat
    }

    open spec fn pre(&self, extra: Extra) -> bool {
        self.init.pre(extra)
    }

    open spec fn post(&self, extra: Extra, r: Result<Slice<T>, Error>) -> bool {
        match r {
            Ok(s) => exists|a: Array<T, N>| #[trigger] self.init.post(extra, Ok(a)) && s@ == a@,
            Err(e) => self.init.post(extra, Err(e)),
        }
    }

    fn metadata(&self) -> (r: usize) {
        N
    }

    fn init(self, extra: Extra) -> (r: Result<Slice<T>, Error>) {
        match self.init.init(extra) {
            Ok(a) => Ok(Slice::from_vec(a.into_vec())),
            Err(e) => Err(e),
        }
    }
}

impl<T, const N: usize, Error, Extra, I: Init<Array<T, N>, Error, Extra>> Init<
    Slice<T>,
    Error,
    Extra,
> for Unsize<Array<T, N>, Slice<T>, I> {
}

/// Size/length agreement law for the unsizing wrapper, given that the
/// wrapped descriptor builds well-formed arrays.
pub proof fn lemma_unsize_meta_agrees<
    T,
    const N: usize,
    Error,
    Extra,
    I: Init<Array<T, N>, Error, Extra>,
>(u: Unsize<Array<T, N>, Slice<T>, I>)
    requires
        builds_wf_arrays::<T, N, Error, Extra, I>(u.init),
    ensures
        meta_agrees::<T, Slice<T>, Error, Extra, Unsize<Array<T, N>, Slice<T>, I>>(u),
{
}

} // verus!
