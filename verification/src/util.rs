//! Length descriptors for array- and slice-producing combinators.

use vstd::prelude::*;

verus! {

/// An element count known either at compile time or at run time.
///
/// Implementors report a length that is a pure function of the value, so
/// repeated queries and copies agree.
pub trait Length: Copy {
    /// The count this descriptor stands for.
    spec fn len_spec(&self) -> nat;

    /// Report the count.
    fn length(&self) -> (r: usize)
        ensures
            r as nat == self.len_spec(),
    ;
}

/// A compile-time-constant element count.
#[derive(Debug, Clone, Copy)]
pub struct ConstLength<const N: usize>;

impl<const N: usize> Length for ConstLength<N> {
    open spec fn len_spec(&self) -> nat {
        N as nat
    }

    fn length(&self) -> usize {
        N
    }
}

/// A run-time element count.
#[derive(Debug, Clone, Copy, PartialEq, Eq, Structural)]
pub struct RuntimeLength {
    pub length: usize,
}

impl Length for RuntimeLength {
    open spec fn len_spec(&self) -> nat {
        self.length as nat
    }

    fn length(&self) -> usize {
        self.length
    }
}

} // verus!
