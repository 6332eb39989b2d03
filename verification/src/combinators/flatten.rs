//! Nested fixed arrays flattened into one longer destination.

use vstd::prelude::*;

use crate::combinators::for_slice::ForSlice;
use crate::shape::{Array, Slice};
use crate::{Init, PinInit, meta_agrees};
use core::marker::PhantomData;

verus! {

/// The row-major concatenation of a sequence of fixed-length rows.
pub open spec fn concat_rows<T, const N: usize>(rows: Seq<Array<T, N>>) -> Seq<T>
    decreases rows.len(),
{
    if rows.len() == 0 {
        Seq::empty()
    } else {
        concat_rows(rows.drop_last()) + rows.last()@
    }
}

/// Appending one row to a row sequence appends its elements to the
/// concatenation.
pub proof fn lemma_concat_rows_push<T, const N: usize>(rows: Seq<Array<T, N>>, row: Array<T, N>)
    ensures
        concat_rows(rows.push(row)) == concat_rows(rows) + row@,
{
    assert(rows.push(row).drop_last() =~= rows);
    assert(rows.push(row).last() == row);
}

/// The concatenation of well-formed rows has exactly rows-times-`N`
/// elements.
pub proof fn lemma_concat_rows_len<T, const N: usize>(rows: Seq<Array<T, N>>)
    requires
        forall|k: int| 0 <= k < rows.len() ==> (#[trigger] rows[k])@.len() == N,
    ensures
        concat_rows(rows).len() == rows.len() * N,
    decreases rows.len(),
{
    if rows.len() == 0 {
    } else {
        lemma_concat_rows_len::<T, N>(rows.drop_last());
        assert(concat_rows(rows).len() == (rows.len() - 1) * N + N);
        assert((rows.len() - 1) * N + N == rows.len() * N) by (nonlinear_arith);
    }
}

/// The descriptor `i` builds only well-formed grids: `M` rows of `N`
/// elements each.
pub open spec fn builds_wf_grids<
    T,
    const N: usize,
    const M: usize,
    Error,
    Extra,
    I: PinInit<Array<Array<T, N>, M>, Error, Extra>,
>(i: I) -> bool {
    forall|extra: Extra, r: Result<Array<Array<T, N>, M>, Error>|
        #[trigger] i.post(extra, r) ==> (r is Ok ==> r->Ok_0@.len() == M && (forall|k: int|
            0 <= k < M ==> (#[trigger] r->Ok_0@[k])@.len() == N))
}

/// Reinterpret a descriptor for nested fixed arrays as a descriptor for
/// the flattened destination with the product length, in row-major
/// order. The product must not overflow the machine's size type: the
/// fixed-size form checks the product against the constant `P` before a
/// descriptor exists, and the sequence form refuses an overflowing
/// product as not well-formed.
pub struct Flatten<Src, Dst, I> {
    pub source: PhantomData<Src>,
    pub result: PhantomData<Dst>,
    pub init: I,
}

impl<T, const N: usize, const M: usize, const P: usize, I> Flatten<
    Array<Array<T, N>, M>,
    Array<T, P>,
    I,
> {
    /// Flatten `M` rows of `N` elements into `P` elements, if `P` is
    /// exactly the product; hand the descriptor back otherwise.
    pub fn try_new(init: I) -> (r: Result<Self, I>)
        ensures
            match r {
                Ok(f) => N * M == P && f.init == init,
                Err(i) => N * M != P && i == init,
            },
    {
        match N.checked_mul(M) {
            Some(p) if p == P => Ok(Flatten { source: PhantomData, result: PhantomData, init }),
            _ => Err(init),
        }
    }

    /// Flatten `M` rows of `N` elements into `P` elements; the product
    /// must be exactly `P`.
    pub fn new(init: I) -> (r: Self)
        requires
            N * M == P,
        ensures
            r.init == init,
    {
        Flatten { source: PhantomData, result: PhantomData, init }
    }

    /// Loosen the fixed row count: present the same flattening over a
    /// sequence of rows.
    pub fn for_slice(self) -> (r: Flatten<Slice<Array<T, N>>, Slice<T>, ForSlice<I, M>>)
        ensures
            r.init.init == self.init,
    {
        Flatten {
            source: PhantomData,
            result: PhantomData,
            init: ForSlice::new(self.init),
        }
    }
}

impl<T, const N: usize, I> Flatten<Slice<Array<T, N>>, Slice<T>, I> {
    /// Flatten a sequence of `N`-element rows into one sequence.
    pub fn new_slice(init: I) -> (r: Self)
        ensures
            r.init == init,
    {
        Flatten { source: PhantomData, result: PhantomData, init }
    }
}

impl<
    T,
    const N: usize,
    const M: usize,
    const P: usize,
    Error,
    Extra,
    I: PinInit<Array<Array<T, N>, M>, Error, Extra>,
> PinInit<Slice<T>, Error, Extra> for Flatten<Array<Array<T, N>, M>, Array<T, P>, I> {
    open spec fn wf(&self) -> bool {
        &&& self.init.wf()
        &&& N * M == P
    }

    open spec fn meta_spec(&self) -> nat {
        P as nat
    }

    open spec fn pre(&self, extra: Extra) -> bool {
        self.init.pre(extra)
    }

    open spec fn post(&self, extra: Extra, r: Result<Slice<T>, Error>) -> bool {
        match r {
            Ok(s) => exists|g: Array<Array<T, N>, M>|
                #[trigger] self.init.post(extra, Ok(g)) && s@ == concat_rows(g@),
            Err(e) => self.init.post(extra, Err(e)),
        }
    }

    fn metadata(&self) -> (r: usize) {
        P
    }

    fn init(self, extra: Extra) -> (r: Result<Slice<T>, Error>) {
        match self.init.init(extra) {
            Ok(g) => Ok(Slice::from_vec(flatten_grid(g))),
            Err(e) => Err(e),
        }
    }
}

impl<
    T,
    const N: usize,
    const M: usize,
    const P: usize,
    Error,
    Extra,
    I: Init<Array<Array<T, N>, M>, Error, Extra>,
> Init<Slice<T>, Error, Extra> for Flatten<Array<Array<T, N>, M>, Array<T, P>, I> {
}

impl<
    T,
    const N: usize,
    const M: usize,
    const P: usize,
    Error,
    Extra,
    I: PinInit<Array<Array<T, N>, M>, Error, Extra>,
> PinInit<Array<T, P>, Error, Extra> for Flatten<Array<Array<T, N>, M>, Array<T, P>, I> {
    open spec fn wf(&self) -> bool {
        &&& self.init.wf()
        &&& N * M == P
        &&& builds_wf_grids::<T, N, M, Error, Extra, I>(self.init)
    }

    open spec fn meta_spec(&self) -> nat {
        0
    }

    open spec fn pre(&self, extra: Extra) -> bool {
        self.init.pre(extra)
    }

    open spec fn post(&self, extra: Extra, r: Result<Array<T, P>, Error>) -> bool {
        match r {
            Ok(a) => a@.len() == P && exists|g: Array<Array<T, N>, M>|
                #[trigger] self.init.post(extra, Ok(g)) && a@ == concat_rows(g@),
            Err(e) => self.init.post(extra, Err(e)),
        }
    }

    fn metadata(&self) -> (r: usize) {
        0
    }

    fn init(self, extra: Extra) -> (r: Result<Array<T, P>, Error>) {
        match self.init.init(extra) {
            Ok(g) => {
                proof {
                    lemma_concat_rows_len::<T, N>(g@);
                }
                Ok(Array::from_vec(flatten_grid(g)))
            },
            Err(e) => Err(e),
        }
    }
}

impl<
    T,
    const N: usize,
    const M: usize,
    const P: usize,
    Error,
    Extra,
    I: Init<Array<Array<T, N>, M>, Error, Extra>,
> Init<Array<T, P>, Error, Extra> for Flatten<Array<Array<T, N>, M>, Array<T, P>, I> {
}

impl<
    T,
    const N: usize,
    Error,
    Extra,
    I: PinInit<Slice<Array<T, N>>, Error, Extra>,
> PinInit<Slice<T>, Error, Extra> for Flatten<Slice<Array<T, N>>, Slice<T>, I> {
    open spec fn wf(&self) -> bool {
        &&& self.init.wf()
        &&& self.init.meta_spec() * N <= usize::MAX
    }

    open spec fn meta_spec(&self) -> nat {
        (self.init.meta_spec() * N) as nat
    }

    open spec fn pre(&self, extra: Extra) -> bool {
        self.init.pre(extra)
    }

    open spec fn post(&self, extra: Extra, r: Result<Slice<T>, Error>) -> bool {
        match r {
            Ok(s) => exists|rows: Slice<Array<T, N>>|
                #[trigger] self.init.post(extra, Ok(rows)) && s@ == concat_rows(rows@),
            Err(e) => self.init.post(extra, Err(e)),
        }
    }

    fn metadata(&self) -> (r: usize) {
        let chunk_count = self.init.metadata();
        chunk_count * N
    }

    fn init(self, extra: Extra) -> (r: Result<Slice<T>, Error>) {
        match self.init.init(extra) {
            Ok(rows) => Ok(Slice::from_vec(flatten_rows(rows.into_vec()))),
            Err(e) => Err(e),
        }
    }
}

impl<T, const N: usize, Error, Extra, I: Init<Slice<Array<T, N>>, Error, Extra>> Init<
    Slice<T>,
    Error,
    Extra,
> for Flatten<Slice<Array<T, N>>, Slice<T>, I> {
}

/// Concatenate the rows of a fixed grid in row-major order.
fn flatten_grid<T, const N: usize, const M: usize>(g: Array<Array<T, N>, M>) -> (r: Vec<T>)
    ensures
        r@ == concat_rows(g@),
{
    flatten_rows(g.into_vec())
}

/// Concatenate a vector of rows in row-major order.
fn flatten_rows<T, const N: usize>(rows: Vec<Array<T, N>>) -> (r: Vec<T>)
    ensures
        r@ == concat_rows(rows@),
{
    let ghost all = rows@;
    let mut rest = rows;
    let mut out: Vec<T> = Vec::new();
    let ghost mut done: int = 0;
    proof {
        assert(all.subrange(0, 0) =~= Seq::<Array<T, N>>::empty());
        assert(all.subrange(0, all.len() as int) =~= all);
    }
    while rest.len() > 0
        invariant
            0 <= done <= all.len(),
            rest@ == all.subrange(done, all.len() as int),
            out@ == concat_rows(all.subrange(0, done)),
        decreases rest@.len(),
    {
        let row = rest.remove(0);
        proof {
            assert(row == all[done]);
            assert(all.subrange(0, done + 1) =~= all.subrange(0, done).push(row));
            lemma_concat_rows_push(all.subrange(0, done), row);
            assert(rest@ =~= all.subrange(done + 1, all.len() as int));
        }
        let mut elems = row.into_vec();
        out.append(&mut elems);
        proof {
            done = done + 1;
        }
    }
    proof {
        assert(all.subrange(done, all.len() as int).len() == 0);
    }
    out
}

/// Size/length agreement law for flattening a fixed grid: the flattened
/// sequence holds exactly the announced `P` elements whenever the
/// wrapped descriptor builds well-formed grids.
pub proof fn lemma_flatten_meta_agrees<
    T,
    const N: usize,
    const M: usize,
    const P: usize,
    Error,
    Extra,
    I: PinInit<Array<Array<T, N>, M>, Error, Extra>,
>(f: Flatten<Array<Array<T, N>, M>, Array<T, P>, I>)
    requires
        N * M == P,
        builds_wf_grids::<T, N, M, Error, Extra, I>(f.init),
    ensures
        meta_agrees::<T, Slice<T>, Error, Extra, Flatten<Array<Array<T, N>, M>, Array<T, P>, I>>(
            f,
        ),
{
    assert forall|extra: Extra, r: Result<Slice<T>, Error>|
        #[trigger] PinInit::<Slice<T>, Error, Extra>::post(&f, extra, r) && r is Ok implies r->Ok_0@.len()
        == PinInit::<Slice<T>, Error, Extra>::meta_spec(&f) by {
        let s = r->Ok_0;
        let g = choose|g: Array<Array<T, N>, M>|
            #[trigger] f.init.post(extra, Ok(g)) && s@ == concat_rows(g@);
        lemma_concat_rows_len::<T, N>(g@);
        assert(M * N == N * M) by (nonlinear_arith);
    }
}

/// Size/length agreement law for flattening a sequence of rows: the
/// flattened sequence holds exactly rows-times-`N` elements whenever the
/// wrapped descriptor's own size agrees and its rows are well-formed.
pub proof fn lemma_flatten_slice_meta_agrees<
    T,
    const N: usize,
    Error,
    Extra,
    I: PinInit<Slice<Array<T, N>>, Error, Extra>,
>(f: Flatten<Slice<Array<T, N>>, Slice<T>, I>)
    requires
        meta_agrees::<Array<T, N>, Slice<Array<T, N>>, Error, Extra, I>(f.init),
        forall|extra: Extra, r: Result<Slice<Array<T, N>>, Error>|
            #[trigger] f.init.post(extra, r) ==> (r is Ok ==> forall|k: int|
                0 <= k < r->Ok_0@.len() ==> (#[trigger] r->Ok_0@[k])@.len() == N),
    ensures
        meta_agrees::<T, Slice<T>, Error, Extra, Flatten<Slice<Array<T, N>>, Slice<T>, I>>(f),
{
    assert forall|extra: Extra, r: Result<Slice<T>, Error>|
        #[trigger] PinInit::<Slice<T>, Error, Extra>::post(&f, extra, r) && r is Ok implies r->Ok_0@.len()
        == PinInit::<Slice<T>, Error, Extra>::meta_spec(&f) by {
        let s = r->Ok_0;
        let rows = choose|rows: Slice<Array<T, N>>|
            #[trigger] f.init.post(extra, Ok(rows)) && s@ == concat_rows(rows@);
        lemma_concat_rows_len::<T, N>(rows@);
    }
}

/// Overflow rejection for flattening: a well-formed row-sequence
/// flattening's size is the exact mathematical product of row count and
/// row length — never a wrapped value — and a product that does not fit
/// the machine's size type is not well-formed, so no size query or
/// construction can run on it.
pub proof fn lemma_flatten_rejects_overflow<
    T,
    const N: usize,
    Error,
    Extra,
    I: PinInit<Slice<Array<T, N>>, Error, Extra>,
>(f: Flatten<Slice<Array<T, N>>, Slice<T>, I>)
    requires
        PinInit::<Slice<T>, Error, Extra>::wf(&f),
    ensures
        PinInit::<Slice<T>, Error, Extra>::meta_spec(&f) == f.init.meta_spec() * N,
        f.init.meta_spec() * N <= usize::MAX,
{
}

} // verus!
