//! The allocation engines: box-like single ownership, reference-counted
//! shared ownership, and in-place extension of growable containers.

use vstd::prelude::*;

pub(crate) mod boxed;
pub(crate) mod rc;
pub(crate) mod string;
pub(crate) mod vec;

use crate::shape::Slice;
use crate::{Init, PinInit, never_errs};
use rc::{RcHeap, Strong, Weak, weak_handle};

verus! {

/// A staged construction: a descriptor paired with an allocation
/// strategy and the context its construction step will receive, with
/// the ownership shape of the result chosen last. The allocation
/// strategy value is carried for API shape; the library allocates
/// through the language and the reference-counted heap.
pub struct Builder<I, A, Extra> {
    pub init: I,
    pub alloc: A,
    pub extra: Extra,
}

impl<I> Builder<I, (), ()> {
    /// Stage `init` with the default allocation strategy and no
    /// context.
    pub fn new(init: I) -> (r: Self)
        ensures
            r.init == init,
    {
        Builder { init, alloc: (), extra: () }
    }
}

impl<I, A> Builder<I, A, ()> {
    /// Stage `init` with the given allocation strategy and no context.
    pub fn new_in(init: I, alloc: A) -> (r: Self)
        ensures
            r.init == init,
            r.alloc == alloc,
    {
        Builder { init, alloc, extra: () }
    }
}

impl<I, A, Extra> Builder<I, A, Extra> {
    /// Replace the allocation strategy.
    pub fn with_alloc<A2>(self, alloc: A2) -> (r: Builder<I, A2, Extra>)
        ensures
            r.init == self.init,
            r.alloc == alloc,
            r.extra == self.extra,
    {
        Builder { init: self.init, alloc, extra: self.extra }
    }

    /// Replace the context handed to the construction step.
    pub fn with_extra<Extra2>(self, extra: Extra2) -> (r: Builder<I, A, Extra2>)
        ensures
            r.init == self.init,
            r.alloc == self.alloc,
            r.extra == extra,
    {
        Builder { init: self.init, alloc: self.alloc, extra }
    }

    /// Build a movable boxed value, or report the descriptor's error.
    pub fn try_build_box<T, Error>(self) -> (r: Result<Box<T>, Error>)
        where I: Init<T, Error, Extra>
        requires
            self.init.wf(),
            self.init.pre(self.extra),
        ensures
            match r {
                Ok(b) => self.init.post(self.extra, Ok(*b)),
                Err(e) => self.init.post(self.extra, Err(e)),
            },
    {
        boxed::new_impl(self.init, self.alloc, self.extra)
    }

    /// Build a pinned boxed value, or report the descriptor's error.
    pub fn try_build_pinned_box<T, Error>(self) -> (r: Result<Box<T>, Error>)
        where I: PinInit<T, Error, Extra>
        requires
            self.init.wf(),
            self.init.pre(self.extra),
        ensures
            match r {
                Ok(b) => self.init.post(self.extra, Ok(*b)),
                Err(e) => self.init.post(self.extra, Err(e)),
            },
    {
        boxed::new_impl(self.init, self.alloc, self.extra)
    }

    /// Build a movable boxed value; the descriptor cannot fail.
    pub fn build_box<T, Error>(self) -> (r: Box<T>)
        where I: Init<T, Error, Extra>
        requires
            self.init.wf(),
            self.init.pre(self.extra),
            never_errs(self.init, self.extra),
        ensures
            self.init.post(self.extra, Ok(*r)),
    {
        match self.try_build_box() {
            Ok(b) => b,
            Err(_) => unreached(),
        }
    }

    /// Build a pinned boxed value; the descriptor cannot fail.
    pub fn build_pinned_box<T, Error>(self) -> (r: Box<T>)
        where I: PinInit<T, Error, Extra>
        requires
            self.init.wf(),
            self.init.pre(self.extra),
            never_errs(self.init, self.extra),
        ensures
            self.init.post(self.extra, Ok(*r)),
    {
        match self.try_build_pinned_box() {
            Ok(b) => b,
            Err(_) => unreached(),
        }
    }

    /// Build a vector from a sequence descriptor, or report its error.
    pub fn try_build_vec<T, Error>(self) -> (r: Result<Vec<T>, Error>)
        where I: Init<Slice<T>, Error, Extra>
        requires
            self.init.wf(),
            self.init.pre(self.extra),
        ensures
            match r {
                Ok(v) => self.init.post(self.extra, Ok(Slice { elems: v })),
                Err(e) => self.init.post(self.extra, Err(e)),
            },
    {
        match self.init.init(self.extra) {
            Ok(s) => Ok(s.into_vec()),
            Err(e) => Err(e),
        }
    }

    /// Build a vector from a sequence descriptor that cannot fail.
    pub fn build_vec<T, Error>(self) -> (r: Vec<T>)
        where I: Init<Slice<T>, Error, Extra>
        requires
            self.init.wf(),
            self.init.pre(self.extra),
            never_errs(self.init, self.extra),
        ensures
            self.init.post(self.extra, Ok(Slice { elems: r })),
    {
        match self.try_build_vec() {
            Ok(v) => v,
            Err(_) => unreached(),
        }
    }

    /// Build a movable shared value in the heap, or report the
    /// descriptor's error with the allocation fully released.
    pub fn try_build_rc<T, Error>(self, heap: &mut RcHeap<T>) -> (r: Result<Strong<T>, Error>)
        where I: Init<T, Error, Extra>
        requires
            old(heap).inv(),
            self.init.wf(),
            self.init.pre(self.extra),
        ensures
            final(heap).inv(),
            final(heap)@.len() == old(heap)@.len() + 1,
            final(heap)@.subrange(0, old(heap)@.len() as int) == old(heap)@,
            match r {
                Ok(s) => {
                    &&& s.idx == old(heap)@.len()
                    &&& final(heap)@.last().strong == 1
                    &&& final(heap)@.last().value matches Some(v) && self.init.post(
                        self.extra,
                        Ok(v),
                    )
                },
                Err(e) => self.init.post(self.extra, Err(e)) && final(heap)@.last().is_freed(),
            },
    {
        rc::rc_base(heap, self.init, self.extra)
    }

    /// Build a pinned shared value in the heap, or report the
    /// descriptor's error with the allocation fully released.
    pub fn try_build_pinned_rc<T, Error>(self, heap: &mut RcHeap<T>) -> (r: Result<
        Strong<T>,
        Error,
    >)
        where I: PinInit<T, Error, Extra>
        requires
            old(heap).inv(),
            self.init.wf(),
            self.init.pre(self.extra),
        ensures
            final(heap).inv(),
            final(heap)@.len() == old(heap)@.len() + 1,
            final(heap)@.subrange(0, old(heap)@.len() as int) == old(heap)@,
            match r {
                Ok(s) => {
                    &&& s.idx == old(heap)@.len()
                    &&& final(heap)@.last().strong == 1
                    &&& final(heap)@.last().value matches Some(v) && self.init.post(
                        self.extra,
                        Ok(v),
                    )
                },
                Err(e) => self.init.post(self.extra, Err(e)) && final(heap)@.last().is_freed(),
            },
    {
        rc::rc_base(heap, self.init, self.extra)
    }

    /// Build a movable shared value in the heap; the descriptor cannot
    /// fail.
    pub fn build_rc<T, Error>(self, heap: &mut RcHeap<T>) -> (s: Strong<T>)
        where I: Init<T, Error, Extra>
        requires
            old(heap).inv(),
            self.init.wf(),
            self.init.pre(self.extra),
            never_errs(self.init, self.extra),
        ensures
            final(heap).inv(),
            final(heap)@.len() == old(heap)@.len() + 1,
            final(heap)@.subrange(0, old(heap)@.len() as int) == old(heap)@,
            s.idx == old(heap)@.len(),
            final(heap)@.last().strong == 1,
            final(heap)@.last().value matches Some(v) && self.init.post(self.extra, Ok(v)),
    {
        match self.try_build_rc(heap) {
            Ok(s) => s,
            Err(_) => unreached(),
        }
    }

    /// Build a pinned shared value in the heap; the descriptor cannot
    /// fail.
    pub fn build_pinned_rc<T, Error>(self, heap: &mut RcHeap<T>) -> (s: Strong<T>)
        where I: PinInit<T, Error, Extra>
        requires
            old(heap).inv(),
            self.init.wf(),
            self.init.pre(self.extra),
            never_errs(self.init, self.extra),
        ensures
            final(heap).inv(),
            final(heap)@.len() == old(heap)@.len() + 1,
            final(heap)@.subrange(0, old(heap)@.len() as int) == old(heap)@,
            s.idx == old(heap)@.len(),
            final(heap)@.last().strong == 1,
            final(heap)@.last().value matches Some(v) && self.init.post(self.extra, Ok(v)),
    {
        match self.try_build_pinned_rc(heap) {
            Ok(s) => s,
            Err(_) => unreached(),
        }
    }

    /// Build a movable shared self-referencing value: the descriptor
    /// receives a weak handle to the allocation it is filling together
    /// with the staged context.
    pub fn try_build_cyclic_rc_with<T, Error>(self, heap: &mut RcHeap<T>) -> (r: Result<
        Strong<T>,
        Error,
    >)
        where I: Init<T, Error, (Weak<T>, Extra)>
        requires
            old(heap).inv(),
            self.init.wf(),
            self.init.pre((weak_handle(old(heap)@.len() as int), self.extra)),
        ensures
            final(heap).inv(),
            final(heap)@.len() == old(heap)@.len() + 1,
            final(heap)@.subrange(0, old(heap)@.len() as int) == old(heap)@,
            match r {
                Ok(s) => {
                    &&& s.idx == old(heap)@.len()
                    &&& final(heap)@.last().strong == 1
                    &&& final(heap)@.last().weak == 2
                    &&& final(heap)@.last().value matches Some(v) && self.init.post(
                        (weak_handle(old(heap)@.len() as int), self.extra),
                        Ok(v),
                    )
                },
                Err(e) => self.init.post(
                    (weak_handle(old(heap)@.len() as int), self.extra),
                    Err(e),
                ) && final(heap)@.last().is_freed(),
            },
    {
        rc::rc_cyclic_base(heap, self.init, self.extra)
    }

    /// Build a movable shared self-referencing value with staged
    /// context; the descriptor cannot fail.
    pub fn build_cyclic_rc_with<T, Error>(self, heap: &mut RcHeap<T>) -> (s: Strong<T>)
        where I: Init<T, Error, (Weak<T>, Extra)>
        requires
            old(heap).inv(),
            self.init.wf(),
            self.init.pre((weak_handle(old(heap)@.len() as int), self.extra)),
            never_errs(self.init, (weak_handle(old(heap)@.len() as int), self.extra)),
        ensures
            final(heap).inv(),
            final(heap)@.len() == old(heap)@.len() + 1,
            final(heap)@.subrange(0, old(heap)@.len() as int) == old(heap)@,
            s.idx == old(heap)@.len(),
            final(heap)@.last().strong == 1,
            final(heap)@.last().weak == 2,
            final(heap)@.last().value matches Some(v) && self.init.post(
                (weak_handle(old(heap)@.len() as int), self.extra),
                Ok(v),
            ),
    {
        match self.try_build_cyclic_rc_with(heap) {
            Ok(s) => s,
            Err(_) => unreached(),
        }
    }

    /// As [`Builder::try_build_cyclic_rc_with`], accepting a
    /// pinned-only descriptor; the weak handles it receives point at a
    /// pinned allocation.
    pub fn try_build_pinned_cyclic_rc_with<T, Error>(self, heap: &mut RcHeap<T>) -> (r: Result<
        Strong<T>,
        Error,
    >)
        where I: PinInit<T, Error, (Weak<T>, Extra)>
        requires
            old(heap).inv(),
            self.init.wf(),
            self.init.pre((weak_handle(old(heap)@.len() as int), self.extra)),
        ensures
            final(heap).inv(),
            final(heap)@.len() == old(heap)@.len() + 1,
            final(heap)@.subrange(0, old(heap)@.len() as int) == old(heap)@,
            match r {
                Ok(s) => {
                    &&& s.idx == old(heap)@.len()
                    &&& final(heap)@.last().strong == 1
                    &&& final(heap)@.last().weak == 2
                    &&& final(heap)@.last().value matches Some(v) && self.init.post(
                        (weak_handle(old(heap)@.len() as int), self.extra),
                        Ok(v),
                    )
                },
                Err(e) => self.init.post(
                    (weak_handle(old(heap)@.len() as int), self.extra),
                    Err(e),
                ) && final(heap)@.last().is_freed(),
            },
    {
        rc::rc_cyclic_base(heap, self.init, self.extra)
    }

    /// As [`Builder::build_cyclic_rc_with`], accepting a pinned-only
    /// descriptor.
    pub fn build_pinned_cyclic_rc_with<T, Error>(self, heap: &mut RcHeap<T>) -> (s: Strong<T>)
        where I: PinInit<T, Error, (Weak<T>, Extra)>
        requires
            old(heap).inv(),
            self.init.wf(),
            self.init.pre((weak_handle(old(heap)@.len() as int), self.extra)),
            never_errs(self.init, (weak_handle(old(heap)@.len() as int), self.extra)),
        ensures
            final(heap).inv(),
            final(heap)@.len() == old(heap)@.len() + 1,
            final(heap)@.subrange(0, old(heap)@.len() as int) == old(heap)@,
            s.idx == old(heap)@.len(),
            final(heap)@.last().strong == 1,
            final(heap)@.last().weak == 2,
            final(heap)@.last().value matches Some(v) && self.init.post(
                (weak_handle(old(heap)@.len() as int), self.extra),
                Ok(v),
            ),
    {
        match self.try_build_pinned_cyclic_rc_with(heap) {
            Ok(s) => s,
            Err(_) => unreached(),
        }
    }
}

impl<I, A> Builder<I, A, ()> {
    /// Build a movable shared self-referencing value: the descriptor
    /// receives only the weak handle to the allocation it is filling.
    pub fn try_build_cyclic_rc<T, Error>(self, heap: &mut RcHeap<T>) -> (r: Result<
        Strong<T>,
        Error,
    >)
        where I: Init<T, Error, Weak<T>>
        requires
            old(heap).inv(),
            self.init.wf(),
            self.init.pre(weak_handle(old(heap)@.len() as int)),
        ensures
            final(heap).inv(),
            final(heap)@.len() == old(heap)@.len() + 1,
            final(heap)@.subrange(0, old(heap)@.len() as int) == old(heap)@,
            match r {
                Ok(s) => {
                    &&& s.idx == old(heap)@.len()
                    &&& final(heap)@.last().strong == 1
                    &&& final(heap)@.last().weak == 2
                    &&& final(heap)@.last().value matches Some(v) && self.init.post(
                        weak_handle(old(heap)@.len() as int),
                        Ok(v),
                    )
                },
                Err(e) => self.init.post(weak_handle(old(heap)@.len() as int), Err(e)) && final(heap)@.last().is_freed(),
            },
    {
        rc::try_rc_new_cyclic(heap, self.init)
    }

    /// Build a movable shared self-referencing value; the descriptor
    /// cannot fail.
    pub fn build_cyclic_rc<T, Error>(self, heap: &mut RcHeap<T>) -> (s: Strong<T>)
        where I: Init<T, Error, Weak<T>>
        requires
            old(heap).inv(),
            self.init.wf(),
            self.init.pre(weak_handle(old(heap)@.len() as int)),
            never_errs(self.init, weak_handle(old(heap)@.len() as int)),
        ensures
            final(heap).inv(),
            final(heap)@.len() == old(heap)@.len() + 1,
            final(heap)@.subrange(0, old(heap)@.len() as int) == old(heap)@,
            s.idx == old(heap)@.len(),
            final(heap)@.last().strong == 1,
            final(heap)@.last().weak == 2,
            final(heap)@.last().value matches Some(v) && self.init.post(
                weak_handle(old(heap)@.len() as int),
                Ok(v),
            ),
    {
        match self.try_build_cyclic_rc(heap) {
            Ok(s) => s,
            Err(_) => unreached(),
        }
    }

    /// As [`Builder::try_build_cyclic_rc`], accepting a pinned-only
    /// descriptor.
    pub fn try_build_pinned_cyclic_rc<T, Error>(self, heap: &mut RcHeap<T>) -> (r: Result<
        Strong<T>,
        Error,
    >)
        where I: PinInit<T, Error, Weak<T>>
        requires
            old(heap).inv(),
            self.init.wf(),
            self.init.pre(weak_handle(old(heap)@.len() as int)),
        ensures
            final(heap).inv(),
            final(heap)@.len() == old(heap)@.len() + 1,
            final(heap)@.subrange(0, old(heap)@.len() as int) == old(heap)@,
            match r {
                Ok(s) => {
                    &&& s.idx == old(heap)@.len()
                    &&& final(heap)@.last().strong == 1
                    &&& final(heap)@.last().weak == 2
                    &&& final(heap)@.last().value matches Some(v) && self.init.post(
                        weak_handle(old(heap)@.len() as int),
                        Ok(v),
                    )
                },
                Err(e) => self.init.post(weak_handle(old(heap)@.len() as int), Err(e)) && final(heap)@.last().is_freed(),
            },
    {
        rc::try_rc_new_cyclic_pinned(heap, self.init)
    }

    /// As [`Builder::build_cyclic_rc`], accepting a pinned-only
    /// descriptor.
    pub fn build_pinned_cyclic_rc<T, Error>(self, heap: &mut RcHeap<T>) -> (s: Strong<T>)
        where I: PinInit<T, Error, Weak<T>>
        requires
            old(heap).inv(),
            self.init.wf(),
            self.init.pre(weak_handle(old(heap)@.len() as int)),
            never_errs(self.init, weak_handle(old(heap)@.len() as int)),
        ensures
            final(heap).inv(),
            final(heap)@.len() == old(heap)@.len() + 1,
            final(heap)@.subrange(0, old(heap)@.len() as int) == old(heap)@,
            s.idx == old(heap)@.len(),
            final(heap)@.last().strong == 1,
            final(heap)@.last().weak == 2,
            final(heap)@.last().value matches Some(v) && self.init.post(
                weak_handle(old(heap)@.len() as int),
                Ok(v),
            ),
    {
        match self.try_build_pinned_cyclic_rc(heap) {
            Ok(s) => s,
            Err(_) => unreached(),
        }
    }
}

} // verus!
