//! A descriptor that fills its destination with zeroes.

use vstd::prelude::*;

use crate::shape::{Slice, Zeroable};
use crate::text::{Text, lemma_utf8_zeroes};
use crate::{Init, PinInit, meta_agrees};
use core::marker::PhantomData;

verus! {

/// Build a destination by writing its all-zero value: one zero value, a
/// sequence of zero values, or a text of zero bytes (which is
/// well-formed UTF-8). Valid only for element types with a designated
/// all-zero value, which [`Zeroable`] asserts. Infallible.
pub struct Zeroed<D> {
    pub result: PhantomData<D>,
    pub meta: usize,
}

impl<T: Zeroable> Zeroed<T> {
    /// One all-zero value.
    pub fn new() -> (r: Zeroed<T>)
        ensures
            r.meta == 0usize,
    {
        Zeroed { result: PhantomData, meta: 0 }
    }

    /// A sequence of `length` all-zero values.
    pub fn new_slice(length: usize) -> (r: Zeroed<Slice<T>>)
        ensures
            r.meta == length,
    {
        Zeroed { result: PhantomData, meta: length }
    }
}

impl Zeroed<Text> {
    /// A text of `length` zero bytes.
    pub fn new_str(length: usize) -> (r: Zeroed<Text>)
        ensures
            r.meta == length,
    {
        Zeroed { result: PhantomData, meta: length }
    }
}

impl<T: Zeroable, Error> PinInit<T, Error, ()> for Zeroed<T> {
    open spec fn wf(&self) -> bool {
        true
    }

    open spec fn meta_spec(&self) -> nat {
        0
    }

    open spec fn pre(&self, extra: ()) -> bool {
        true
    }

    open spec fn post(&self, extra: (), r: Result<T, Error>) -> bool {
        r matches Ok(v) && v == T::zero_spec()
    }

    fn metadata(&self) -> (r: usize) {
        0
    }

    fn init(self, extra: ()) -> (r: Result<T, Error>) {
        Ok(T::zeroed_value())
    }
}

impl<T: Zeroable, Error> Init<T, Error, ()> for Zeroed<T> {
}

impl<T: Zeroable, Error> PinInit<Slice<T>, Error, ()> for Zeroed<Slice<T>> {
    open spec fn wf(&self) -> bool {
        true
    }

    open spec fn meta_spec(&self) -> nat {
        self.meta as nat
    }

    open spec fn pre(&self, extra: ()) -> bool {
        true
    }

    open spec fn post(&self, extra: (), r: Result<Slice<T>, Error>) -> bool {
        r matches Ok(s) && s@.len() == self.meta && (forall|j: int|
            0 <= j < s@.len() ==> s@[j] == T::zero_spec())
    }

    fn metadata(&self) -> (r: usize) {
        self.meta
    }

    fn init(self, extra: ()) -> (r: Result<Slice<T>, Error>) {
        let mut elems: Vec<T> = Vec::new();
        let mut idx: usize = 0;
        while idx < self.meta
            invariant
                idx <= self.meta,
                elems@.len() == idx,
                forall|j: int| 0 <= j < idx ==> elems@[j] == T::zero_spec(),
            decreases self.meta - idx,
        {
            elems.push(T::zeroed_value());
            idx = idx + 1;
        }
        Ok(Slice::from_vec(elems))
    }
}

impl<T: Zeroable, Error> Init<Slice<T>, Error, ()> for Zeroed<Slice<T>> {
}

impl<Error> PinInit<Text, Error, ()> for Zeroed<Text> {
    open spec fn wf(&self) -> bool {
        true
    }

    open spec fn meta_spec(&self) -> nat {
        self.meta as nat
    }

    open spec fn pre(&self, extra: ()) -> bool {
        true
    }

    open spec fn post(&self, extra: (), r: Result<Text, Error>) -> bool {
        r matches Ok(t) && t@.len() == self.meta && (forall|j: int|
            0 <= j < t@.len() ==> t@[j] == 0u8) && t.wf()
    }

    fn metadata(&self) -> (r: usize) {
        self.meta
    }

    fn init(self, extra: ()) -> (r: Result<Text, Error>) {
        let mut bytes: Vec<u8> = Vec::new();
        let mut idx: usize = 0;
        while idx < self.meta
            invariant
                idx <= self.meta,
                bytes@.len() == idx,
                forall|j: int| 0 <= j < idx ==> bytes@[j] == 0u8,
            decreases self.meta - idx,
        {
            bytes.push(0u8);
            idx = idx + 1;
        }
        proof {
            lemma_utf8_zeroes(bytes@);
        }
        Ok(Text { bytes })
    }
}

impl<Error> Init<Text, Error, ()> for Zeroed<Text> {
}

/// Size/length agreement law for the zero-fill sequence descriptor.
pub proof fn lemma_zeroed_slice_meta_agrees<T: Zeroable, Error>(z: Zeroed<Slice<T>>)
    ensures
        meta_agrees::<T, Slice<T>, Error, (), Zeroed<Slice<T>>>(z),
{
}

/// Size/length agreement law for the zero-fill text descriptor.
pub proof fn lemma_zeroed_text_meta_agrees<Error>(z: Zeroed<Text>)
    ensures
        meta_agrees::<u8, Text, Error, (), Zeroed<Text>>(z),
{
}

} // verus!
