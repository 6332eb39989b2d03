//! The destination shapes a descriptor can fill.
//!
//! Raw in-place construction distinguishes fixed-size values from
//! dynamically sized destinations. Here each dynamically sized
//! destination is a shape of its own: a runtime-length sequence
//! [`Slice`], a fixed-length array [`Array`], and (in the text module) a
//! text buffer. A [`Slot`] models one destination cell that is either
//! still uninitialized or holds a finished value.

use vstd::prelude::*;

verus! {

/// A runtime-length sequence destination: what a slice descriptor builds.
///
/// Its size metadata is the element count.
#[derive(Debug)]
pub struct Slice<T> {
    pub elems: Vec<T>,
}

impl<T> View for Slice<T> {
    type V = Seq<T>;

    open spec fn view(&self) -> Seq<T> {
        self.elems@
    }
}

impl<T> Slice<T> {
    /// Wrap an existing vector of elements as a sequence destination.
    pub fn from_vec(elems: Vec<T>) -> (r: Slice<T>)
        ensures
            r@ == elems@,
    {
        Slice { elems }
    }

    /// The elements, surrendering the shape.
    pub fn into_vec(self) -> (r: Vec<T>)
        ensures
            r == self.elems,
            r@ == self@,
    {
        self.elems
    }

    /// The element count.
    pub fn len(&self) -> (r: usize)
        ensures
            r == self@.len(),
    {
        self.elems.len()
    }
}

/// A fixed-length array destination: a sequence whose length is the
/// compile-time constant `N`.
#[derive(Debug)]
pub struct Array<T, const N: usize> {
    pub elems: Vec<T>,
}

impl<T, const N: usize> View for Array<T, N> {
    type V = Seq<T>;

    open spec fn view(&self) -> Seq<T> {
        self.elems@
    }
}

impl<T, const N: usize> Array<T, N> {
    /// The array holds exactly `N` elements.
    pub open spec fn wf(&self) -> bool {
        self@.len() == N
    }

    /// Wrap a vector of exactly `N` elements as an array destination.
    pub fn from_vec(elems: Vec<T>) -> (r: Array<T, N>)
        requires
            elems@.len() == N,
        ensures
            r@ == elems@,
            r.wf(),
    {
        Array { elems }
    }

    /// The elements, surrendering the shape.
    pub fn into_vec(self) -> (r: Vec<T>)
        ensures
            r == self.elems,
            r@ == self@,
    {
        self.elems
    }
}

/// One destination cell: uninitialized, or holding a finished value.
///
/// A slot is handed to exactly one descriptor. On success it holds the
/// built value; on failure it is vacant again, never partially filled.
#[derive(Debug)]
pub enum Slot<T> {
    /// No value has been built here.
    Vacant,
    /// A fully built value.
    Filled(T),
}

impl<T> Slot<T> {
    /// A fresh, uninitialized slot.
    pub fn new() -> (r: Slot<T>)
        ensures
            r is Vacant,
    {
        Slot::Vacant
    }

    /// Whether the slot holds a value.
    pub fn is_filled(&self) -> (r: bool)
        ensures
            r == (*self is Filled),
    {
        match self {
            Slot::Vacant => false,
            Slot::Filled(_) => true,
        }
    }

    /// Take the finished value out, leaving the slot vacant.
    pub fn take(&mut self) -> (r: T)
        requires
            *old(self) is Filled,
        ensures
            r == old(self)->Filled_0,
            *final(self) is Vacant,
    {
        let mut out = Slot::Vacant;
        core::mem::swap(self, &mut out);
        match out {
            Slot::Filled(v) => v,
            Slot::Vacant => unreached(),
        }
    }
}

/// Types with a designated all-zero value, for the zero-fill descriptor.
pub trait Zeroable: Sized {
    /// The all-zero value of the type.
    spec fn zero_spec() -> Self;

    /// Produce the all-zero value.
    fn zeroed_value() -> (r: Self)
        ensures
            r == Self::zero_spec(),
    ;
}

impl Zeroable for u8 {
    open spec fn zero_spec() -> u8 {
        0u8
    }

    fn zeroed_value() -> u8 {
        0
    }
}

impl Zeroable for u16 {
    open spec fn zero_spec() -> u16 {
        0u16
    }

    fn zeroed_value() -> u16 {
        0
    }
}

impl Zeroable for u32 {
    open spec fn zero_spec() -> u32 {
        0u32
    }

    fn zeroed_value() -> u32 {
        0
    }
}

impl Zeroable for u64 {
    open spec fn zero_spec() -> u64 {
        0u64
    }

    fn zeroed_value() -> u64 {
        0
    }
}

impl Zeroable for usize {
    open spec fn zero_spec() -> usize {
        0usize
    }

    fn zeroed_value() -> usize {
        0
    }
}

impl Zeroable for i8 {
    open spec fn zero_spec() -> i8 {
        0i8
    }

    fn zeroed_value() -> i8 {
        0
    }
}

impl Zeroable for i16 {
    open spec fn zero_spec() -> i16 {
        0i16
    }

    fn zeroed_value() -> i16 {
        0
    }
}

impl Zeroable for i32 {
    open spec fn zero_spec() -> i32 {
        0i32
    }

    fn zeroed_value() -> i32 {
        0
    }
}

impl Zeroable for i64 {
    open spec fn zero_spec() -> i64 {
        0i64
    }

    fn zeroed_value() -> i64 {
        0
    }
}

impl Zeroable for isize {
    open spec fn zero_spec() -> isize {
        0isize
    }

    fn zeroed_value() -> isize {
        0
    }
}

impl Zeroable for bool {
    open spec fn zero_spec() -> bool {
        false
    }

    fn zeroed_value() -> bool {
        false
    }
}

} // verus!
