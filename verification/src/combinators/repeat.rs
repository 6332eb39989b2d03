//! One descriptor repeated for every element of an array or sequence.

use vstd::prelude::*;

use crate::shape::{Array, Slice};
use crate::util::{ConstLength, Length, RuntimeLength};
use crate::{Init, PinInit, meta_agrees};

verus! {

/// Build an array or sequence by running a copy of one descriptor for
/// every position. If any copy fails, only the elements built before it
/// exist to be torn down; the failure is reported with nothing handed
/// out.
pub struct Repeat<I, L: Length> {
    pub length: L,
    pub init: I,
}

impl<I> Repeat<I, RuntimeLength> {
    /// Build a sequence of `length` copies of what `init` builds.
    pub fn new_slice(length: usize, init: I) -> (r: Self)
        ensures
            r.length.length == length,
            r.init == init,
    {
        Repeat { length: RuntimeLength { length }, init }
    }

    /// Build an array of `N` copies of what `init` builds.
    pub fn new_array<const N: usize>(init: I) -> (r: Repeat<I, ConstLength<N>>)
        ensures
            r.init == init,
    {
        Repeat { length: ConstLength, init }
    }
}

impl<
    T,
    L: Length,
    Error,
    Extra: Copy,
    I: Copy + PinInit<T, Error, Extra>,
> PinInit<Slice<T>, Error, Extra> for Repeat<I, L> {
    open spec fn wf(&self) -> bool {
        self.init.wf()
    }

    open spec fn meta_spec(&self) -> nat {
        self.length.len_spec()
    }

    open spec fn pre(&self, extra: Extra) -> bool {
        self.init.pre(extra)
    }

    open spec fn post(&self, extra: Extra, r: Result<Slice<T>, Error>) -> bool {
        match r {
            Ok(s) => {
                &&& s@.len() == self.length.len_spec()
                &&& forall|j: int| 0 <= j < s@.len() ==> self.init.post(extra, Ok(#[trigger] s@[j]))
            },
            Err(e) => self.init.post(extra, Err(e)),
        }
    }

    fn metadata(&self) -> (r: usize) {
        self.length.length()
    }

    fn init(self, extra: Extra) -> (r: Result<Slice<T>, Error>) {
        let count = self.length.length();
        let mut elems: Vec<T> = Vec::new();
        let mut idx: usize = 0;
        while idx < count
            invariant
                count == self.length.len_spec(),
                idx <= count,
                elems@.len() == idx,
                self.init.wf(),
                self.init.pre(extra),
                forall|j: int| 0 <= j < idx ==> self.init.post(extra, Ok(#[trigger] elems@[j])),
            decreases count - idx,
        {
            let copy = self.init;
            match copy.init(extra) {
                Ok(v) => {
                    elems.push(v);
                },
                Err(e) => {
                    return Err(e);
                },
            }
            idx = idx + 1;
        }
        Ok(Slice::from_vec(elems))
    }
}

impl<T, L: Length, Error, Extra: Copy, I: Copy + Init<T, Error, Extra>> Init<
    Slice<T>,
    Error,
    Extra,
> for Repeat<I, L> {
}

impl<
    T,
    const N: usize,
    Error,
    Extra: Copy,
    I: Copy + PinInit<T, Error, Extra>,
> PinInit<Array<T, N>, Error, Extra> for Repeat<I, ConstLength<N>> {
    open spec fn wf(&self) -> bool {
        self.init.wf()
    }

    open spec fn meta_spec(&self) -> nat {
        0
    }

    open spec fn pre(&self, extra: Extra) -> bool {
        self.init.pre(extra)
    }

    open spec fn post(&self, extra: Extra, r: Result<Array<T, N>, Error>) -> bool {
        match r {
            Ok(a) => {
                &&& a@.len() == N
                &&& forall|j: int| 0 <= j < a@.len() ==> self.init.post(extra, Ok(#[trigger] a@[j]))
            },
            Err(e) => self.init.post(extra, Err(e)),
        }
    }

    fn metadata(&self) -> (r: usize) {
        0
    }

    fn init(self, extra: Extra) -> (r: Result<Array<T, N>, Error>) {
        match <Self as PinInit<Slice<T>, Error, Extra>>::init(self, extra) {
            Ok(s) => Ok(Array::from_vec(s.into_vec())),
            Err(e) => Err(e),
        }
    }
}

impl<T, const N: usize, Error, Extra: Copy, I: Copy + Init<T, Error, Extra>> Init<
    Array<T, N>,
    Error,
    Extra,
> for Repeat<I, ConstLength<N>> {
}

/// Size/length agreement law for repeated construction.
pub proof fn lemma_repeat_meta_agrees<
    T,
    L: Length,
    Error,
    Extra: Copy,
    I: Copy + PinInit<T, Error, Extra>,
>(rp: Repeat<I, L>)
    ensures
        meta_agrees::<T, Slice<T>, Error, Extra, Repeat<I, L>>(rp),
{
}

} // verus!
