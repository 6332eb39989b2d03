//! Per-index construction of every element of an array or sequence.

use vstd::prelude::*;

use crate::shape::{Array, Slice};
use crate::util::{ConstLength, Length, RuntimeLength};
use crate::{Init, PinInit, meta_agrees};

verus! {

/// Element `j`'s built value: some descriptor the function can return
/// for position `j` admits `v` as its successful outcome under `extra`.
pub open spec fn built_from_index<T, Error, Extra, I: PinInit<T, Error, Extra>, F: Fn(usize) -> I>(
    func: F,
    extra: Extra,
    j: usize,
    v: T,
) -> bool {
    exists|i: I| #[trigger] func.ensures((j,), i) && i.post(extra, Ok(v))
}

/// Position `m` is buildable: some descriptor the function can return
/// for position `m` admits a success under `extra`.
pub open spec fn index_buildable<T, Error, Extra, I: PinInit<T, Error, Extra>, F: Fn(usize) -> I>(
    func: F,
    extra: Extra,
    m: usize,
) -> bool {
    exists|v: T| built_from_index(func, extra, m, v)
}

/// Build an array or sequence by asking a caller-supplied function for a
/// descriptor for each position, in order, position `0` first. If any
/// element's construction fails, only the elements built before it exist
/// to be torn down; the destination itself reports the failure with
/// nothing handed out.
pub struct ForEach<F, L: Length> {
    pub length: L,
    pub func: F,
}

impl<F> ForEach<F, RuntimeLength> {
    /// Build a sequence of `length` elements, element `j` from
    /// `func(j)`.
    pub fn new_slice(length: usize, func: F) -> (r: Self)
        ensures
            r.length.length == length,
            r.func == func,
    {
        ForEach { length: RuntimeLength { length }, func }
    }

    /// Build an array of `N` elements, element `j` from `func(j)`.
    pub fn new_array<const N: usize>(func: F) -> (r: ForEach<F, ConstLength<N>>)
        ensures
            r.func == func,
    {
        ForEach { length: ConstLength, func }
    }
}

impl<
    T,
    L: Length,
    Error,
    Extra: Copy,
    I: PinInit<T, Error, Extra>,
    F: Fn(usize) -> I,
> PinInit<Slice<T>, Error, Extra> for ForEach<F, L> {
    open spec fn wf(&self) -> bool {
        &&& forall|j: usize| j < self.length.len_spec() ==> self.func.requires((j,))
        &&& forall|j: usize, i: I|
            j < self.length.len_spec() && #[trigger] self.func.ensures((j,), i) ==> i.wf()
    }

    open spec fn meta_spec(&self) -> nat {
        self.length.len_spec()
    }

    open spec fn pre(&self, extra: Extra) -> bool {
        forall|j: usize, i: I|
            j < self.length.len_spec() && #[trigger] self.func.ensures((j,), i) ==> i.pre(extra)
    }

    open spec fn post(&self, extra: Extra, r: Result<Slice<T>, Error>) -> bool {
        match r {
            Ok(s) => {
                &&& s@.len() == self.length.len_spec()
                &&& forall|j: int|
                    0 <= j < s@.len() ==> #[trigger] built_from_index(
                        self.func,
                        extra,
                        j as usize,
                        s@[j],
                    )
            },
            Err(e) => exists|j: usize, i: I|
                j < self.length.len_spec() && #[trigger] self.func.ensures((j,), i) && i.post(
                    extra,
                    Err(e),
                ) && (forall|m: usize| m < j ==> #[trigger] index_buildable(
                    self.func,
                    extra,
                    m,
                )),
        }
    }

    fn metadata(&self) -> (r: usize) {
        self.length.length()
    }

    fn init(self, extra: Extra) -> (r: Result<Slice<T>, Error>) {
        let count = self.length.length();
        let mut elems: Vec<T> = Vec::new();
        let mut idx: usize = 0;
        while idx < count
            invariant
                count == self.length.len_spec(),
                idx <= count,
                elems@.len() == idx,
                forall|j: usize| j < count ==> self.func.requires((j,)),
                forall|j: usize, i: I|
                    j < count && #[trigger] self.func.ensures((j,), i) ==> i.wf() && i.pre(extra),
                forall|j: int|
                    0 <= j < idx ==> #[trigger] built_from_index(
                        self.func,
                        extra,
                        j as usize,
                        elems@[j],
                    ),
            decreases count - idx,
        {
            let elem_init = (self.func)(idx);
            match elem_init.init(extra) {
                Ok(v) => {
                    elems.push(v);
                },
                Err(e) => {
                    proof {
                        assert forall|m: usize| m < idx implies #[trigger] index_buildable(
                            self.func,
                            extra,
                            m,
                        ) by {
                            let jm: int = m as int;
                            assert(built_from_index(self.func, extra, jm as usize, elems@[jm]));
                        }
                    }
                    return Err(e);
                },
            }
            idx = idx + 1;
        }
        Ok(Slice::from_vec(elems))
    }
}

impl<T, L: Length, Error, Extra: Copy, I: Init<T, Error, Extra>, F: Fn(usize) -> I> Init<
    Slice<T>,
    Error,
    Extra,
> for ForEach<F, L> {
}

impl<
    T,
    const N: usize,
    Error,
    Extra: Copy,
    I: PinInit<T, Error, Extra>,
    F: Fn(usize) -> I,
> PinInit<Array<T, N>, Error, Extra> for ForEach<F, ConstLength<N>> {
    open spec fn wf(&self) -> bool {
        &&& forall|j: usize| j < N ==> self.func.requires((j,))
        &&& forall|j: usize, i: I| j < N && #[trigger] self.func.ensures((j,), i) ==> i.wf()
    }

    open spec fn meta_spec(&self) -> nat {
        0
    }

    open spec fn pre(&self, extra: Extra) -> bool {
        forall|j: usize, i: I| j < N && #[trigger] self.func.ensures((j,), i) ==> i.pre(extra)
    }

    open spec fn post(&self, extra: Extra, r: Result<Array<T, N>, Error>) -> bool {
        match r {
            Ok(a) => {
                &&& a@.len() == N
                &&& forall|j: int|
                    0 <= j < a@.len() ==> #[trigger] built_from_index(
                        self.func,
                        extra,
                        j as usize,
                        a@[j],
                    )
            },
            Err(e) => exists|j: usize, i: I|
                j < N && #[trigger] self.func.ensures((j,), i) && i.post(extra, Err(e)) && (
                forall|m: usize| m < j ==> #[trigger] index_buildable(self.func, extra, m)),
        }
    }

    fn metadata(&self) -> (r: usize) {
        0
    }

    fn init(self, extra: Extra) -> (r: Result<Array<T, N>, Error>) {
        match <Self as PinInit<Slice<T>, Error, Extra>>::init(self, extra) {
            Ok(s) => Ok(Array::from_vec(s.into_vec())),
            Err(e) => Err(e),
        }
    }
}

impl<T, const N: usize, Error, Extra: Copy, I: Init<T, Error, Extra>, F: Fn(usize) -> I> Init<
    Array<T, N>,
    Error,
    Extra,
> for ForEach<F, ConstLength<N>> {
}

/// Size/length agreement law for per-index sequence construction: the
/// built sequence holds exactly as many elements as the descriptor's
/// size metadata announced.
pub proof fn lemma_for_each_meta_agrees<
    T,
    L: Length,
    Error,
    Extra: Copy,
    I: PinInit<T, Error, Extra>,
    F: Fn(usize) -> I,
>(fe: ForEach<F, L>)
    ensures
        meta_agrees::<T, Slice<T>, Error, Extra, ForEach<F, L>>(fe),
{
}

} // verus!
