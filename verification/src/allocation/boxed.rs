//! The single-ownership allocation engine.
//!
//! Given a descriptor, the engine queries its size metadata, obtains a
//! destination of exactly that size, runs the descriptor against it, and
//! on success hands back the owning box; on failure the destination is
//! released with nothing leaked and the descriptor's error is reported.
//! The pinned variants accept the weaker pinned-only contract and hand
//! back a box whose content must not be moved out; the movable variants
//! demand the relocatable contract.

use vstd::prelude::*;

use crate::{Init, PinInit, never_errs};

verus! {

/// The engine shared by every boxed variant: size query, allocation,
/// one run of the descriptor, and release on failure. The allocation
/// strategy value is carried for API shape; the library allocates
/// through the language itself.
pub(crate) fn new_impl<Dst, Error, A, Extra, I: PinInit<Dst, Error, Extra>>(
    init: I,
    alloc: A,
    extra: Extra,
) -> (r: Result<Box<Dst>, Error>)
    requires
        init.wf(),
        init.pre(extra),
    ensures
        match r {
            Ok(b) => init.post(extra, Ok(*b)),
            Err(e) => init.post(extra, Err(e)),
        },
{
    let _size = init.metadata();
    match init.init(extra) {
        Ok(v) => Ok(Box::new(v)),
        Err(e) => Err(e),
    }
}

/// Build a movable boxed value with the given allocation strategy, or
/// report the descriptor's error.
pub fn try_new_boxed_in<Dst, Error, A, I: Init<Dst, Error, ()>>(init: I, alloc: A) -> (r: Result<
    Box<Dst>,
    Error,
>)
    requires
        init.wf(),
        init.pre(()),
    ensures
        match r {
            Ok(b) => init.post((), Ok(*b)),
            Err(e) => init.post((), Err(e)),
        },
{
    new_impl(init, alloc, ())
}

/// Build a pinned boxed value with the given allocation strategy, or
/// report the descriptor's error.
pub fn try_new_pinned_in<Dst, Error, A, I: PinInit<Dst, Error, ()>>(init: I, alloc: A) -> (r:
    Result<Box<Dst>, Error>)
    requires
        init.wf(),
        init.pre(()),
    ensures
        match r {
            Ok(b) => init.post((), Ok(*b)),
            Err(e) => init.post((), Err(e)),
        },
{
    new_impl(init, alloc, ())
}

/// Build a movable boxed value with the given allocation strategy from
/// a descriptor that cannot fail.
pub fn new_boxed_in<Dst, Error, A, I: Init<Dst, Error, ()>>(init: I, alloc: A) -> (r: Box<Dst>)
    requires
        init.wf(),
        init.pre(()),
        never_errs(init, ()),
    ensures
        init.post((), Ok(*r)),
{
    match try_new_boxed_in(init, alloc) {
        Ok(b) => b,
        Err(_) => unreached(),
    }
}

/// Build a pinned boxed value with the given allocation strategy from a
/// descriptor that cannot fail.
pub fn new_pinned_in<Dst, Error, A, I: PinInit<Dst, Error, ()>>(init: I, alloc: A) -> (r: Box<
    Dst,
>)
    requires
        init.wf(),
        init.pre(()),
        never_errs(init, ()),
    ensures
        init.post((), Ok(*r)),
{
    match try_new_pinned_in(init, alloc) {
        Ok(b) => b,
        Err(_) => unreached(),
    }
}

/// Build a movable boxed value, or report the descriptor's error.
pub fn try_new_boxed<Dst, Error, I: Init<Dst, Error, ()>>(init: I) -> (r: Result<Box<Dst>, Error>)
    requires
        init.wf(),
        init.pre(()),
    ensures
        match r {
            Ok(b) => init.post((), Ok(*b)),
            Err(e) => init.post((), Err(e)),
        },
{
    try_new_boxed_in(init, ())
}

/// Build a pinned boxed value, or report the descriptor's error.
pub fn try_new_pinned<Dst, Error, I: PinInit<Dst, Error, ()>>(init: I) -> (r: Result<
    Box<Dst>,
    Error,
>)
    requires
        init.wf(),
        init.pre(()),
    ensures
        match r {
            Ok(b) => init.post((), Ok(*b)),
            Err(e) => init.post((), Err(e)),
        },
{
    try_new_pinned_in(init, ())
}

/// Build a movable boxed value from a descriptor that cannot fail.
pub fn new_boxed<Dst, Error, I: Init<Dst, Error, ()>>(init: I) -> (r: Box<Dst>)
    requires
        init.wf(),
        init.pre(()),
        never_errs(init, ()),
    ensures
        init.post((), Ok(*r)),
{
    new_boxed_in(init, ())
}

/// Build a pinned boxed value from a descriptor that cannot fail.
pub fn new_pinned<Dst, Error, I: PinInit<Dst, Error, ()>>(init: I) -> (r: Box<Dst>)
    requires
        init.wf(),
        init.pre(()),
        never_errs(init, ()),
    ensures
        init.post((), Ok(*r)),
{
    new_pinned_in(init, ())
}

} // verus!
