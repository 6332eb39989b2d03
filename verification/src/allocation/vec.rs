//! The growable-array engines: building a vector from a sequence
//! descriptor, and extending an existing vector in place.

use vstd::prelude::*;

use crate::shape::Slice;
use crate::{Init, PinInit, never_errs};

verus! {

/// Build a vector from a sequence descriptor, or report its error.
pub fn try_new_vec<T, Error, I: Init<Slice<T>, Error, ()>>(init: I) -> (r: Result<Vec<T>, Error>)
    requires
        init.wf(),
        init.pre(()),
    ensures
        match r {
            Ok(v) => init.post((), Ok(Slice { elems: v })),
            Err(e) => init.post((), Err(e)),
        },
{
    match init.init(()) {
        Ok(s) => Ok(s.into_vec()),
        Err(e) => Err(e),
    }
}

/// Build a vector from a sequence descriptor that cannot fail.
pub fn new_vec<T, Error, I: Init<Slice<T>, Error, ()>>(init: I) -> (r: Vec<T>)
    requires
        init.wf(),
        init.pre(()),
        never_errs(init, ()),
    ensures
        init.post((), Ok(Slice { elems: r })),
{
    match try_new_vec(init) {
        Ok(v) => v,
        Err(_) => unreached(),
    }
}

/// In-place extension of a growable array: push one built element, or
/// append everything a sequence descriptor builds, reusing the array.
///
/// The operations never leave the array observably half-extended: on
/// failure its contents are exactly what they were, so the reported
/// length never runs ahead of the built elements, and the error is
/// reported.
pub trait VecExt: Sized {
    /// The element type.
    type Item;

    /// The elements currently held, in order.
    spec fn items(&self) -> Seq<Self::Item>;

    /// Build one element in place at the end, or report the
    /// descriptor's error with the array unchanged.
    fn try_push_emplace<Error, I: Init<Self::Item, Error, ()>>(&mut self, init: I) -> (r: Result<
        (),
        Error,
    >)
        requires
            init.wf(),
            init.pre(()),
        ensures
            match r {
                Ok(()) => exists|v: Self::Item|
                    #[trigger] init.post((), Ok(v)) && final(self).items() == old(
                        self,
                    ).items().push(v),
                Err(e) => final(self).items() == old(self).items() && init.post((), Err(e)),
            },
    ;

    /// Build one element in place at the end; the descriptor cannot
    /// fail.
    fn push_emplace<Error, I: Init<Self::Item, Error, ()>>(&mut self, init: I)
        requires
            init.wf(),
            init.pre(()),
            never_errs(init, ()),
        ensures
            exists|v: Self::Item|
                #[trigger] init.post((), Ok(v)) && final(self).items() == old(
                    self,
                ).items().push(v),
    ;

    /// Build a whole sequence in place at the end, or report the
    /// descriptor's error with the array unchanged.
    fn try_append_emplace<Error, I: Init<Slice<Self::Item>, Error, ()>>(&mut self, init: I) -> (r:
        Result<(), Error>)
        requires
            init.wf(),
            init.pre(()),
        ensures
            match r {
                Ok(()) => exists|s: Slice<Self::Item>|
                    #[trigger] init.post((), Ok(s)) && final(self).items() == old(self).items()
                        + s@,
                Err(e) => final(self).items() == old(self).items() && init.post((), Err(e)),
            },
    ;

    /// Build a whole sequence in place at the end; the descriptor
    /// cannot fail.
    fn append_emplace<Error, I: Init<Slice<Self::Item>, Error, ()>>(&mut self, init: I)
        requires
            init.wf(),
            init.pre(()),
            never_errs(init, ()),
        ensures
            exists|s: Slice<Self::Item>|
                #[trigger] init.post((), Ok(s)) && final(self).items() == old(self).items() + s@,
    ;

    /// Build one element per descriptor in the given order, or report
    /// the first error with exactly the elements built before it
    /// appended.
    fn try_extend_emplace<Error, I: Init<Self::Item, Error, ()>>(&mut self, inits: Vec<I>) -> (r:
        Result<(), Error>)
        requires
            forall|j: int|
                0 <= j < inits@.len() ==> (#[trigger] inits@[j]).wf() && inits@[j].pre(()),
        ensures
            r is Ok ==> {
                &&& final(self).items().len() == old(self).items().len() + inits@.len()
                &&& final(self).items().subrange(0, old(self).items().len() as int) == old(
                    self,
                ).items()
                &&& forall|j: int|
                    0 <= j < inits@.len() ==> (#[trigger] inits@[j]).post(
                        (),
                        Ok(final(self).items()[old(self).items().len() + j]),
                    )
            },
            r matches Err(e) ==> exists|j: int|
                #![auto]
                0 <= j < inits@.len() && inits@[j].post((), Err(e)),
    ;

    /// Build one element per descriptor in the given order; none of the
    /// descriptors can fail.
    fn extend_emplace<Error, I: Init<Self::Item, Error, ()>>(&mut self, inits: Vec<I>)
        requires
            forall|j: int|
                0 <= j < inits@.len() ==> (#[trigger] inits@[j]).wf() && inits@[j].pre(())
                    && never_errs(inits@[j], ()),
        ensures
            final(self).items().len() == old(self).items().len() + inits@.len(),
            final(self).items().subrange(0, old(self).items().len() as int) == old(self).items(),
            forall|j: int|
                0 <= j < inits@.len() ==> (#[trigger] inits@[j]).post(
                    (),
                    Ok(final(self).items()[old(self).items().len() + j]),
                ),
    ;
}

impl<T> VecExt for Vec<T> {
    type Item = T;

    open spec fn items(&self) -> Seq<T> {
        self@
    }

    fn try_push_emplace<Error, I: Init<T, Error, ()>>(&mut self, init: I) -> (r: Result<
        (),
        Error,
    >) {
        match init.init(()) {
            Ok(v) => {
                self.push(v);
                Ok(())
            },
            Err(e) => Err(e),
        }
    }

    fn push_emplace<Error, I: Init<T, Error, ()>>(&mut self, init: I) {
        match self.try_push_emplace(init) {
            Ok(()) => (),
            Err(_) => unreached(),
        }
    }

    fn try_append_emplace<Error, I: Init<Slice<T>, Error, ()>>(&mut self, init: I) -> (r: Result<
        (),
        Error,
    >) {
        let _additional = init.metadata();
        match init.init(()) {
            Ok(s) => {
                let mut tail = s.into_vec();
                self.append(&mut tail);
                Ok(())
            },
            Err(e) => Err(e),
        }
    }

    fn append_emplace<Error, I: Init<Slice<T>, Error, ()>>(&mut self, init: I) {
        match self.try_append_emplace(init) {
            Ok(()) => (),
            Err(_) => unreached(),
        }
    }

    fn try_extend_emplace<Error, I: Init<T, Error, ()>>(&mut self, inits: Vec<I>) -> (r: Result<
        (),
        Error,
    >) {
        let ghost orig = self@;
        let ghost all = inits@;
        proof {
            assert(all == inits@);
        }
        let mut rest = inits;
        let ghost mut done: int = 0;
        proof {
            assert(self@.subrange(0, orig.len() as int) =~= orig);
        }
        while rest.len() > 0
            invariant
                all == inits@,
                orig == old(self)@,
                0 <= done <= all.len(),
                rest@ == all.subrange(done, all.len() as int),
                self@.len() == orig.len() + done,
                self@.subrange(0, orig.len() as int) == orig,
                forall|j: int| 0 <= j < all.len() ==> (#[trigger] all[j]).wf() && all[j].pre(()),
                forall|j: int|
                    0 <= j < done ==> (#[trigger] all[j]).post((), Ok(self@[orig.len() + j])),
            decreases rest@.len(),
        {
            let init = rest.remove(0);
            proof {
                assert(init == all[done]);
                assert(rest@ =~= all.subrange(done + 1, all.len() as int));
            }
            match self.try_push_emplace(init) {
                Ok(()) => {
                    proof {
                        assert(self@.subrange(0, orig.len() as int) =~= orig);
                        done = done + 1;
                    }
                },
                Err(e) => {
                    proof {
                        assert(all[done] == init);
                        assert(0 <= done < all.len());
                        assert((all[done]).post((), Err(e)));
                        assert(exists|j: int|
                            0 <= j < all.len() && (#[trigger] all[j]).post((), Err(e)));
                    }
                    return Err(e);
                },
            }
        }
        Ok(())
    }

    fn extend_emplace<Error, I: Init<T, Error, ()>>(&mut self, inits: Vec<I>) {
        match self.try_extend_emplace(inits) {
            Ok(()) => (),
            Err(_) => unreached(),
        }
    }
}

} // verus!

