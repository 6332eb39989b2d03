//! The reference-counted allocation engine, with its own explicit
//! control blocks.
//!
//! Every shared allocation lives in a [`RcHeap`]: a cell holding the
//! value and its control block (strong and weak count). Handles are
//! [`Strong`] and [`Weak`]; every operation on a handle goes through the
//! heap, which updates the counts, so the bootstrap protocol of cyclic
//! construction can be stated and checked exactly:
//!
//! the engine seeds a fresh cell with strong `0` and weak `1` *before*
//! the descriptor runs, so a weak handle to the not-yet-built value
//! already exists legally; a cyclic build hands that handle to the
//! descriptor; only after the descriptor succeeds is strong set to `1`
//! and the owning handle returned. On failure the cell is released
//! entirely — strong and weak both `0`, no value — and the cell can
//! never be released twice: release demands a cell that still counts a
//! handle, and a freed cell counts none.

use vstd::prelude::*;

use crate::{Init, PinInit, never_errs};
use core::marker::PhantomData;

verus! {

/// One shared allocation: its control block and, once construction has
/// succeeded, its value. The value exists exactly while the strong
/// count is positive.
pub struct RcCell<T> {
    /// Owning handles. The value exists exactly while this is positive.
    pub strong: usize,
    /// Weak handles, plus one held collectively by the owning handles.
    pub weak: usize,
    /// The built value, present exactly while `strong` is positive.
    pub value: Option<T>,
}

impl<T> RcCell<T> {
    /// The control-block invariant of one cell: the value exists
    /// exactly while owning handles do, and owning handles collectively
    /// hold a weak handle. A cell with no handles at all is freed.
    pub open spec fn wf(&self) -> bool {
        &&& (self.value is Some) <==> self.strong >= 1
        &&& self.strong >= 1 ==> self.weak >= 1
    }

    /// The cell's memory has been released: nothing counts it any more.
    pub open spec fn is_freed(&self) -> bool {
        self.strong == 0 && self.weak == 0
    }

    /// The cell is allocated and seeded, but not yet built: the
    /// bootstrap window of the construction protocol.
    pub open spec fn is_reserved(&self) -> bool {
        self.strong == 0 && self.weak >= 1
    }

    /// The cell holds a built value with at least one owning handle.
    pub open spec fn is_live(&self) -> bool {
        self.strong >= 1
    }
}

/// An owning handle to a cell of a [`RcHeap`]. Dropping it goes through
/// [`RcHeap::drop_strong`], which releases the value, and the cell,
/// exactly once.
#[derive(Debug)]
pub struct Strong<T> {
    pub idx: usize,
    pub marker: PhantomData<T>,
}

/// A non-owning handle to a cell of a [`RcHeap`]: it can be upgraded to
/// an owning handle only while the value exists. The handle itself is
/// plain data; the heap's weak count tracks the handles created through
/// [`RcHeap::allocate`] and [`RcHeap::clone_weak`].
#[derive(Debug)]
pub struct Weak<T> {
    pub idx: usize,
    pub marker: PhantomData<T>,
}

impl<T> Clone for Weak<T> {
    fn clone(&self) -> (r: Self) {
        Weak { idx: self.idx, marker: PhantomData }
    }
}

impl<T> Copy for Weak<T> {
}

/// The weak handle to cell `idx`.
pub open spec fn weak_handle<T>(idx: int) -> Weak<T> {
    Weak { idx: idx as usize, marker: PhantomData }
}

/// The strong handle to cell `idx`.
pub open spec fn strong_handle<T>(idx: int) -> Strong<T> {
    Strong { idx: idx as usize, marker: PhantomData }
}

/// The number of live cells in a cell sequence.
pub open spec fn live_cells<T>(cells: Seq<RcCell<T>>) -> nat
    decreases cells.len(),
{
    if cells.len() == 0 {
        0
    } else {
        live_cells(cells.drop_last()) + (if cells.last().is_live() {
            1nat
        } else {
            0nat
        })
    }
}

/// The arena of shared allocations: each cell is one allocation with
/// its control block. Freed cells stay as tombstones, so a handle index
/// is never reused and a release can never hit the wrong allocation.
pub struct RcHeap<T> {
    pub cells: Vec<RcCell<T>>,
}

impl<T> View for RcHeap<T> {
    type V = Seq<RcCell<T>>;

    open spec fn view(&self) -> Seq<RcCell<T>> {
        self.cells@
    }
}

impl<T> RcHeap<T> {
    /// Every cell satisfies its control-block invariant.
    pub open spec fn inv(&self) -> bool {
        forall|i: int| 0 <= i < self@.len() ==> (#[trigger] self@[i]).wf()
    }

    /// A fresh heap with no allocations.
    pub fn new() -> (r: RcHeap<T>)
        ensures
            r.inv(),
            r@.len() == 0,
    {
        RcHeap { cells: Vec::new() }
    }

    /// The number of cells ever allocated, freed ones included.
    pub fn allocation_count(&self) -> (r: usize)
        ensures
            r == self@.len(),
    {
        self.cells.len()
    }

    /// The number of cells whose value currently exists.
    pub fn live_count(&self) -> (r: usize)
        ensures
            r == live_cells(self@),
    {
        let mut count: usize = 0;
        let mut i: usize = 0;
        proof {
            assert(self@.subrange(0, 0) =~= Seq::<RcCell<T>>::empty());
        }
        while i < self.cells.len()
            invariant
                i <= self@.len(),
                count == live_cells(self@.subrange(0, i as int)),
                count <= i,
            decreases self@.len() - i,
        {
            proof {
                assert(self@.subrange(0, i + 1).drop_last() =~= self@.subrange(0, i as int));
                assert(self@.subrange(0, i + 1).last() == self@[i as int]);
            }
            if self.cells[i].strong >= 1 {
                count = count + 1;
            }
            i = i + 1;
        }
        proof {
            assert(self@.subrange(0, self@.len() as int) =~= self@);
        }
        count
    }

    /// The strong count of the cell a handle points at.
    pub fn strong_count(&self, idx: usize) -> (r: usize)
        requires
            idx < self@.len(),
        ensures
            r == self@[idx as int].strong,
    {
        self.cells[idx].strong
    }

    /// The weak count of the cell a handle points at.
    pub fn weak_count(&self, idx: usize) -> (r: usize)
        requires
            idx < self@.len(),
        ensures
            r == self@[idx as int].weak,
    {
        self.cells[idx].weak
    }

    /// Read access to the value an owning handle points at.
    pub fn get<'a>(&'a self, s: &Strong<T>) -> (r: &'a T)
        requires
            self.inv(),
            s.idx < self@.len(),
            self@[s.idx as int].is_live(),
        ensures
            self@[s.idx as int].value matches Some(v) && r == v,
    {
        match &self.cells[s.idx].value {
            Some(v) => v,
            None => unreached(),
        }
    }

    /// Allocate a fresh cell, seeded for construction: no value yet,
    /// strong `0`, weak `1`. The returned weak handle is the one the
    /// seed counts.
    fn allocate(&mut self) -> (w: Weak<T>)
        requires
            old(self).inv(),
        ensures
            final(self).inv(),
            w.idx == old(self)@.len(),
            final(self)@ == old(self)@.push(RcCell { strong: 0usize, weak: 1usize, value: None }),
    {
        let idx = self.cells.len();
        self.cells.push(RcCell { strong: 0, weak: 1, value: None });
        proof {
            assert forall|i: int| 0 <= i < self@.len() implies (#[trigger] self@[i]).wf() by {
                if i < old(self)@.len() {
                    assert(self@[i] == old(self)@[i]);
                }
            }
        }
        Weak { idx, marker: PhantomData }
    }

    /// Count one more weak handle to the cell `w` points at.
    pub fn clone_weak(&mut self, w: &Weak<T>) -> (w2: Weak<T>)
        requires
            old(self).inv(),
            w.idx < old(self)@.len(),
            !old(self)@[w.idx as int].is_freed(),
            old(self)@[w.idx as int].weak < usize::MAX,
        ensures
            final(self).inv(),
            w2.idx == w.idx,
            final(self)@ == old(self)@.update(
                w.idx as int,
                (RcCell {
                    weak: (old(self)@[w.idx as int].weak + 1) as usize,
                    ..old(self)@[w.idx as int]
                }),
            ),
    {
        let cell = &mut self.cells[w.idx];
        cell.weak = cell.weak + 1;
        proof {
            assert forall|i: int| 0 <= i < self@.len() implies (#[trigger] self@[i]).wf() by {
                if i != w.idx as int {
                    assert(self@[i] == old(self)@[i]);
                }
            }
        }
        Weak { idx: w.idx, marker: PhantomData }
    }

    /// Return a weak handle: one fewer weak handle is counted, and a
    /// cell left with no handles at all is freed by that very step —
    /// its release happens exactly once, at the transition to zero. The
    /// handle returned here must be one counted beyond the owners'
    /// collective handle, which only the last owner releases.
    pub fn drop_weak(&mut self, w: Weak<T>)
        requires
            old(self).inv(),
            w.idx < old(self)@.len(),
            old(self)@[w.idx as int].weak >= 1,
            old(self)@[w.idx as int].strong >= 1 ==> old(self)@[w.idx as int].weak >= 2,
        ensures
            final(self).inv(),
            final(self)@ == old(self)@.update(
                w.idx as int,
                (RcCell {
                    weak: (old(self)@[w.idx as int].weak - 1) as usize,
                    ..old(self)@[w.idx as int]
                }),
            ),
    {
        let cell = &mut self.cells[w.idx];
        cell.weak = cell.weak - 1;
        proof {
            assert forall|i: int| 0 <= i < self@.len() implies (#[trigger] self@[i]).wf() by {
                if i != w.idx as int {
                    assert(self@[i] == old(self)@[i]);
                }
            }
        }
    }

    /// Upgrade a weak handle: an owning handle to the same allocation
    /// exactly when the value currently exists — never during the
    /// bootstrap window, never after the value is gone.
    pub fn upgrade(&mut self, w: &Weak<T>) -> (r: Option<Strong<T>>)
        requires
            old(self).inv(),
            w.idx < old(self)@.len(),
            old(self)@[w.idx as int].is_live() ==> old(self)@[w.idx as int].strong < usize::MAX,
        ensures
            final(self).inv(),
            match r {
                Some(s) => {
                    &&& old(self)@[w.idx as int].is_live()
                    &&& s.idx == w.idx
                    &&& final(self)@ == old(self)@.update(
                        w.idx as int,
                        (RcCell {
                            strong: (old(self)@[w.idx as int].strong + 1) as usize,
                            ..old(self)@[w.idx as int]
                        }),
                    )
                },
                None => !old(self)@[w.idx as int].is_live() && final(self)@ == old(self)@,
            },
    {
        let cell = &mut self.cells[w.idx];
        if cell.strong >= 1 {
            cell.strong = cell.strong + 1;
        proof {
            assert forall|i: int| 0 <= i < self@.len() implies (#[trigger] self@[i]).wf() by {
                if i != w.idx as int {
                    assert(self@[i] == old(self)@[i]);
                }
            }
        }
            Some(Strong { idx: w.idx, marker: PhantomData })
        } else {
            None
        }
    }

    /// Count one more owning handle to the cell `s` points at.
    pub fn clone_strong(&mut self, s: &Strong<T>) -> (s2: Strong<T>)
        requires
            old(self).inv(),
            s.idx < old(self)@.len(),
            old(self)@[s.idx as int].is_live(),
            old(self)@[s.idx as int].strong < usize::MAX,
        ensures
            final(self).inv(),
            s2.idx == s.idx,
            final(self)@ == old(self)@.update(
                s.idx as int,
                (RcCell {
                    strong: (old(self)@[s.idx as int].strong + 1) as usize,
                    ..old(self)@[s.idx as int]
                }),
            ),
    {
        let cell = &mut self.cells[s.idx];
        cell.strong = cell.strong + 1;
        proof {
            assert forall|i: int| 0 <= i < self@.len() implies (#[trigger] self@[i]).wf() by {
                if i != s.idx as int {
                    assert(self@[i] == old(self)@[i]);
                }
            }
        }
        Strong { idx: s.idx, marker: PhantomData }
    }

    /// Return an owning handle. The last owning handle releases the
    /// value and the weak handle the owners collectively held; if no
    /// weak handle remains either, the cell is freed by that same step.
    /// The value is dropped exactly once: only the transition from one
    /// owning handle to none drops it.
    pub fn drop_strong(&mut self, s: Strong<T>) -> (dropped: Option<T>)
        requires
            old(self).inv(),
            s.idx < old(self)@.len(),
            old(self)@[s.idx as int].is_live(),
        ensures
            final(self).inv(),
            old(self)@[s.idx as int].strong == 1 ==> {
                &&& dropped == old(self)@[s.idx as int].value
                &&& final(self)@ == old(self)@.update(
                    s.idx as int,
                    (RcCell {
                        strong: 0usize,
                        weak: (old(self)@[s.idx as int].weak - 1) as usize,
                        value: None,
                    }),
                )
            },
            old(self)@[s.idx as int].strong > 1 ==> {
                &&& dropped is None
                &&& final(self)@ == old(self)@.update(
                    s.idx as int,
                    (RcCell {
                        strong: (old(self)@[s.idx as int].strong - 1) as usize,
                        ..old(self)@[s.idx as int]
                    }),
                )
            },
    {
        let cell = &mut self.cells[s.idx];
        let out: Option<T>;
        if cell.strong == 1 {
            cell.strong = 0;
            cell.weak = cell.weak - 1;
            let mut taken: Option<T> = None;
            core::mem::swap(&mut cell.value, &mut taken);
            out = taken;
        } else {
            cell.strong = cell.strong - 1;
            out = None;
        }
        proof {
            assert forall|i: int| 0 <= i < self@.len() implies (#[trigger] self@[i]).wf() by {
                if i != s.idx as int {
                    assert(self@[i] == old(self)@[i]);
                }
            }
        }
        out
    }

    /// Commit a successful construction: the seeded cell receives its
    /// value and its first owning handle, which absorbs the engine's
    /// local weak handle as the owners' collective one.
    fn fulfill(&mut self, idx: usize, v: T) -> (s: Strong<T>)
        requires
            old(self).inv(),
            idx < old(self)@.len(),
            old(self)@[idx as int].is_reserved(),
        ensures
            final(self).inv(),
            s.idx == idx,
            final(self)@ == old(self)@.update(
                idx as int,
                (RcCell {
                    strong: 1usize,
                    weak: old(self)@[idx as int].weak,
                    value: Some(v),
                }),
            ),
    {
        let cell = &mut self.cells[idx];
        cell.strong = 1;
        cell.value = Some(v);
        proof {
            assert forall|i: int| 0 <= i < self@.len() implies (#[trigger] self@[i]).wf() by {
                if i != idx as int {
                    assert(self@[i] == old(self)@[i]);
                }
            }
        }
        Strong { idx, marker: PhantomData }
    }

    /// Roll back a failed construction: the seeded cell is released
    /// entirely — the descriptor has already torn down everything it
    /// had partially built, and with it every weak handle it was
    /// handed, so no handle counts the cell any more.
    fn abandon(&mut self, idx: usize)
        requires
            old(self).inv(),
            idx < old(self)@.len(),
            old(self)@[idx as int].is_reserved(),
        ensures
            final(self).inv(),
            final(self)@ == old(self)@.update(
                idx as int,
                (RcCell { strong: 0usize, weak: 0usize, value: None }),
            ),
    {
        let cell = &mut self.cells[idx];
        cell.strong = 0;
        cell.weak = 0;
        cell.value = None;
        proof {
            assert forall|i: int| 0 <= i < self@.len() implies (#[trigger] self@[i]).wf() by {
                if i != idx as int {
                    assert(self@[i] == old(self)@[i]);
                }
            }
        }
    }
}


/// The engine shared by the non-cyclic reference-counted variants:
/// allocate and seed a cell, run the descriptor, then either commit the
/// first owning handle or release the cell. Exactly one cell is
/// allocated; it ends live with one owning handle on success and freed
/// on failure, and every earlier allocation is untouched.
pub(crate) fn rc_base<T, Error, Extra, I: PinInit<T, Error, Extra>>(
    heap: &mut RcHeap<T>,
    init: I,
    extra: Extra,
) -> (r: Result<Strong<T>, Error>)
    requires
        old(heap).inv(),
        init.wf(),
        init.pre(extra),
    ensures
        final(heap).inv(),
        final(heap)@.len() == old(heap)@.len() + 1,
        final(heap)@.subrange(0, old(heap)@.len() as int) == old(heap)@,
        match r {
            Ok(s) => {
                &&& s.idx == old(heap)@.len()
                &&& final(heap)@.last().strong == 1
                &&& final(heap)@.last().weak == 1
                &&& final(heap)@.last().value matches Some(v) && init.post(extra, Ok(v))
            },
            Err(e) => {
                &&& init.post(extra, Err(e))
                &&& final(heap)@.last().is_freed()
                &&& final(heap)@.last().value is None
            },
        },
{
    let _size = init.metadata();
    let w = heap.allocate();
    let idx = w.idx;
    let r = match init.init(extra) {
        Ok(v) => Ok(heap.fulfill(idx, v)),
        Err(e) => {
            heap.abandon(idx);
            Err(e)
        },
    };
    proof {
        assert(heap@.subrange(0, old(heap)@.len() as int) =~= old(heap)@);
    }
    r
}

/// The engine shared by the cyclic variants: as [`rc_base`], but during
/// the bootstrap window — cell seeded with strong `0` and weak `1`, no
/// value yet — a second weak handle to the cell is counted and handed
/// to the descriptor together with the caller's context. On success the
/// cell ends with strong `1` and weak `2`: the owners' collective
/// handle, and the one the descriptor received and typically stored in
/// the value.
pub(crate) fn rc_cyclic_base<T, Error, Extra, I: PinInit<T, Error, (Weak<T>, Extra)>>(
    heap: &mut RcHeap<T>,
    init: I,
    extra: Extra,
) -> (r: Result<Strong<T>, Error>)
    requires
        old(heap).inv(),
        init.wf(),
        init.pre((weak_handle(old(heap)@.len() as int), extra)),
    ensures
        final(heap).inv(),
        final(heap)@.len() == old(heap)@.len() + 1,
        final(heap)@.subrange(0, old(heap)@.len() as int) == old(heap)@,
        match r {
            Ok(s) => {
                &&& s.idx == old(heap)@.len()
                &&& final(heap)@.last().strong == 1
                &&& final(heap)@.last().weak == 2
                &&& final(heap)@.last().value matches Some(v) && init.post(
                    (weak_handle(old(heap)@.len() as int), extra),
                    Ok(v),
                )
            },
            Err(e) => {
                &&& init.post((weak_handle(old(heap)@.len() as int), extra), Err(e))
                &&& final(heap)@.last().is_freed()
                &&& final(heap)@.last().value is None
            },
        },
{
    let _size = init.metadata();
    let w = heap.allocate();
    let idx = w.idx;
    let w2 = heap.clone_weak(&w);
    proof {
        assert(w2 == weak_handle::<T>(old(heap)@.len() as int));
    }
    let r = match init.init((w2, extra)) {
        Ok(v) => Ok(heap.fulfill(idx, v)),
        Err(e) => {
            heap.abandon(idx);
            Err(e)
        },
    };
    proof {
        assert(heap@.subrange(0, old(heap)@.len() as int) =~= old(heap)@);
    }
    r
}

/// Build a movable shared value in the heap, or report the descriptor's
/// error with the allocation fully released.
pub fn try_rc_new<T, Error, I: Init<T, Error, ()>>(heap: &mut RcHeap<T>, init: I) -> (r: Result<
    Strong<T>,
    Error,
>)
    requires
        old(heap).inv(),
        init.wf(),
        init.pre(()),
    ensures
        final(heap).inv(),
        final(heap)@.len() == old(heap)@.len() + 1,
        final(heap)@.subrange(0, old(heap)@.len() as int) == old(heap)@,
        match r {
            Ok(s) => {
                &&& s.idx == old(heap)@.len()
                &&& final(heap)@.last().strong == 1
                &&& final(heap)@.last().weak == 1
                &&& final(heap)@.last().value matches Some(v) && init.post((), Ok(v))
            },
            Err(e) => {
                &&& init.post((), Err(e))
                &&& final(heap)@.last().is_freed()
            },
        },
{
    rc_base(heap, init, ())
}

/// Build a movable shared value in the heap from a descriptor that
/// cannot fail.
pub fn rc_new<T, Error, I: Init<T, Error, ()>>(heap: &mut RcHeap<T>, init: I) -> (s: Strong<T>)
    requires
        old(heap).inv(),
        init.wf(),
        init.pre(()),
        never_errs(init, ()),
    ensures
        final(heap).inv(),
        final(heap)@.len() == old(heap)@.len() + 1,
        final(heap)@.subrange(0, old(heap)@.len() as int) == old(heap)@,
        s.idx == old(heap)@.len(),
        final(heap)@.last().strong == 1,
        final(heap)@.last().weak == 1,
        final(heap)@.last().value matches Some(v) && init.post((), Ok(v)),
{
    match try_rc_new(heap, init) {
        Ok(s) => s,
        Err(_) => unreached(),
    }
}

/// Build a pinned shared value in the heap, or report the descriptor's
/// error with the allocation fully released.
pub fn try_rc_new_pinned<T, Error, I: PinInit<T, Error, ()>>(
    heap: &mut RcHeap<T>,
    init: I,
) -> (r: Result<Strong<T>, Error>)
    requires
        old(heap).inv(),
        init.wf(),
        init.pre(()),
    ensures
        final(heap).inv(),
        final(heap)@.len() == old(heap)@.len() + 1,
        final(heap)@.subrange(0, old(heap)@.len() as int) == old(heap)@,
        match r {
            Ok(s) => {
                &&& s.idx == old(heap)@.len()
                &&& final(heap)@.last().strong == 1
                &&& final(heap)@.last().weak == 1
                &&& final(heap)@.last().value matches Some(v) && init.post((), Ok(v))
            },
            Err(e) => {
                &&& init.post((), Err(e))
                &&& final(heap)@.last().is_freed()
            },
        },
{
    rc_base(heap, init, ())
}

/// Build a pinned shared value in the heap from a descriptor that
/// cannot fail.
pub fn rc_new_pinned<T, Error, I: PinInit<T, Error, ()>>(heap: &mut RcHeap<T>, init: I) -> (s:
    Strong<T>)
    requires
        old(heap).inv(),
        init.wf(),
        init.pre(()),
        never_errs(init, ()),
    ensures
        final(heap).inv(),
        final(heap)@.len() == old(heap)@.len() + 1,
        final(heap)@.subrange(0, old(heap)@.len() as int) == old(heap)@,
        s.idx == old(heap)@.len(),
        final(heap)@.last().strong == 1,
        final(heap)@.last().value matches Some(v) && init.post((), Ok(v)),
{
    match try_rc_new_pinned(heap, init) {
        Ok(s) => s,
        Err(_) => unreached(),
    }
}

/// Build a movable shared value while handing the descriptor a weak
/// handle to the very allocation it is filling, so the value can hold a
/// handle back to itself. The handle the descriptor receives points at
/// the cell the returned owning handle owns.
pub fn try_rc_new_cyclic<T, Error, I: Init<T, Error, Weak<T>>>(
    heap: &mut RcHeap<T>,
    init: I,
) -> (r: Result<Strong<T>, Error>)
    requires
        old(heap).inv(),
        init.wf(),
        init.pre(weak_handle(old(heap)@.len() as int)),
    ensures
        final(heap).inv(),
        final(heap)@.len() == old(heap)@.len() + 1,
        final(heap)@.subrange(0, old(heap)@.len() as int) == old(heap)@,
        match r {
            Ok(s) => {
                &&& s.idx == old(heap)@.len()
                &&& final(heap)@.last().strong == 1
                &&& final(heap)@.last().weak == 2
                &&& final(heap)@.last().value matches Some(v) && init.post(
                    weak_handle(old(heap)@.len() as int),
                    Ok(v),
                )
            },
            Err(e) => {
                &&& init.post(weak_handle(old(heap)@.len() as int), Err(e))
                &&& final(heap)@.last().is_freed()
            },
        },
{
    let _size = init.metadata();
    let w = heap.allocate();
    let idx = w.idx;
    let w2 = heap.clone_weak(&w);
    proof {
        assert(w2 == weak_handle::<T>(old(heap)@.len() as int));
    }
    let r = match init.init(w2) {
        Ok(v) => Ok(heap.fulfill(idx, v)),
        Err(e) => {
            heap.abandon(idx);
            Err(e)
        },
    };
    proof {
        assert(heap@.subrange(0, old(heap)@.len() as int) =~= old(heap)@);
    }
    r
}

/// Build a movable shared self-referencing value from a descriptor that
/// cannot fail.
pub fn rc_new_cyclic<T, Error, I: Init<T, Error, Weak<T>>>(heap: &mut RcHeap<T>, init: I) -> (s:
    Strong<T>)
    requires
        old(heap).inv(),
        init.wf(),
        init.pre(weak_handle(old(heap)@.len() as int)),
        never_errs(init, weak_handle(old(heap)@.len() as int)),
    ensures
        final(heap).inv(),
        final(heap)@.len() == old(heap)@.len() + 1,
        final(heap)@.subrange(0, old(heap)@.len() as int) == old(heap)@,
        s.idx == old(heap)@.len(),
        final(heap)@.last().strong == 1,
        final(heap)@.last().weak == 2,
        final(heap)@.last().value matches Some(v) && init.post(
            weak_handle(old(heap)@.len() as int),
            Ok(v),
        ),
{
    match try_rc_new_cyclic(heap, init) {
        Ok(s) => s,
        Err(_) => unreached(),
    }
}

/// As [`try_rc_new_cyclic`], accepting a pinned-only descriptor; the
/// weak handles it receives point at a pinned allocation.
pub fn try_rc_new_cyclic_pinned<T, Error, I: PinInit<T, Error, Weak<T>>>(
    heap: &mut RcHeap<T>,
    init: I,
) -> (r: Result<Strong<T>, Error>)
    requires
        old(heap).inv(),
        init.wf(),
        init.pre(weak_handle(old(heap)@.len() as int)),
    ensures
        final(heap).inv(),
        final(heap)@.len() == old(heap)@.len() + 1,
        final(heap)@.subrange(0, old(heap)@.len() as int) == old(heap)@,
        match r {
            Ok(s) => {
                &&& s.idx == old(heap)@.len()
                &&& final(heap)@.last().strong == 1
                &&& final(heap)@.last().weak == 2
                &&& final(heap)@.last().value matches Some(v) && init.post(
                    weak_handle(old(heap)@.len() as int),
                    Ok(v),
                )
            },
            Err(e) => {
                &&& init.post(weak_handle(old(heap)@.len() as int), Err(e))
                &&& final(heap)@.last().is_freed()
            },
        },
{
    let _size = init.metadata();
    let w = heap.allocate();
    let idx = w.idx;
    let w2 = heap.clone_weak(&w);
    proof {
        assert(w2 == weak_handle::<T>(old(heap)@.len() as int));
    }
    let r = match init.init(w2) {
        Ok(v) => Ok(heap.fulfill(idx, v)),
        Err(e) => {
            heap.abandon(idx);
            Err(e)
        },
    };
    proof {
        assert(heap@.subrange(0, old(heap)@.len() as int) =~= old(heap)@);
    }
    r
}

/// As [`rc_new_cyclic`], accepting a pinned-only descriptor.
pub fn rc_new_cyclic_pinned<T, Error, I: PinInit<T, Error, Weak<T>>>(
    heap: &mut RcHeap<T>,
    init: I,
) -> (s: Strong<T>)
    requires
        old(heap).inv(),
        init.wf(),
        init.pre(weak_handle(old(heap)@.len() as int)),
        never_errs(init, weak_handle(old(heap)@.len() as int)),
    ensures
        final(heap).inv(),
        final(heap)@.len() == old(heap)@.len() + 1,
        final(heap)@.subrange(0, old(heap)@.len() as int) == old(heap)@,
        s.idx == old(heap)@.len(),
        final(heap)@.last().strong == 1,
        final(heap)@.last().weak == 2,
        final(heap)@.last().value matches Some(v) && init.post(
            weak_handle(old(heap)@.len() as int),
            Ok(v),
        ),
{
    match try_rc_new_cyclic_pinned(heap, init) {
        Ok(s) => s,
        Err(_) => unreached(),
    }
}

/// Appending one cell to the heap adds one live cell exactly when the
/// new cell is live.
pub proof fn lemma_live_cells_push<T>(cells: Seq<RcCell<T>>, c: RcCell<T>)
    ensures
        live_cells(cells.push(c)) == live_cells(cells) + (if c.is_live() {
            1nat
        } else {
            0nat
        }),
{
    assert(cells.push(c).drop_last() =~= cells);
    assert(cells.push(c).last() == c);
}

/// No leak on failure: a failed construction leaves the number of live
/// allocations exactly what it was — the one cell the engine allocated
/// was released before the error was reported. This is the shape every
/// engine's failure case has: the heap grew by one freed cell.
pub proof fn lemma_failed_construction_no_leak<T>(
    pre: Seq<RcCell<T>>,
    post: Seq<RcCell<T>>,
    c: RcCell<T>,
)
    requires
        post == pre.push(c),
        c.is_freed(),
    ensures
        live_cells(post) == live_cells(pre),
{
    lemma_live_cells_push(pre, c);
}

/// Exactly one new live allocation on success: a successful
/// construction leaves the number of live allocations one higher — the
/// one cell the engine allocated, now owned by the returned handle.
pub proof fn lemma_successful_construction_one_allocation<T>(
    pre: Seq<RcCell<T>>,
    post: Seq<RcCell<T>>,
    c: RcCell<T>,
)
    requires
        post == pre.push(c),
        c.is_live(),
    ensures
        live_cells(post) == live_cells(pre) + 1,
{
    lemma_live_cells_push(pre, c);
}

} // verus!

