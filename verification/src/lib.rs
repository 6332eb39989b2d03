//! Composable in-place object construction with verified contracts.
//!
//! A value of a descriptor type describes how to build a value of a
//! destination shape: a sized value `T`, a runtime-length sequence
//! [`Slice`], a fixed-length array [`Array`], or a text buffer [`Text`].
//! A descriptor reports the size of what it will build through
//! [`PinInit::metadata`] before any destination exists, and is consumed
//! exactly once by [`PinInit::init`], which either produces the fully
//! built value or reports the descriptor's error with nothing built.
//!
//! Descriptors compose: combinators chain two sequences end to end, build
//! each element of a sequence from its index, re-type errors, supply or
//! drop the extra context handed to a construction step, and reinterpret
//! byte sequences as text. Allocation engines turn a descriptor into an
//! owned handle: a box, a reference-counted cell (including the cyclic
//! protocol that hands the descriptor a weak handle to the allocation it
//! is filling), or an in-place extension of a growable container.

use vstd::prelude::*;

pub mod allocation;
pub mod combinators;
pub mod shape;
pub mod text;
pub mod util;

use crate::shape::Slice;
use crate::shape::Slot;

pub use crate::allocation::Builder;
pub use crate::allocation::boxed::{
    new_boxed, new_boxed_in, new_pinned, new_pinned_in, try_new_boxed, try_new_boxed_in,
    try_new_pinned, try_new_pinned_in,
};
pub use crate::allocation::rc::{
    RcCell, RcHeap, Strong, Weak, rc_new, rc_new_cyclic, rc_new_cyclic_pinned, rc_new_pinned,
    try_rc_new, try_rc_new_cyclic, try_rc_new_cyclic_pinned, try_rc_new_pinned,
};
pub use crate::allocation::string::{StringExt, new_string, try_new_string};
pub use crate::allocation::vec::{VecExt, new_vec, try_new_vec};
pub use crate::combinators::as_bytes::AsBytes;
pub use crate::combinators::as_utf8::AsUtf8;
pub use crate::combinators::assert_pinned::AssertPinned;
pub use crate::combinators::chain::Chain;
pub use crate::combinators::fail::Fail;
pub use crate::combinators::flatten::Flatten;
pub use crate::combinators::for_each::ForEach;
pub use crate::combinators::for_each_with::ForEachWith;
pub use crate::combinators::for_slice::ForSlice;
pub use crate::combinators::for_type::ForType;
pub use crate::combinators::ignore_extra::IgnoreExtra;
pub use crate::combinators::map_err::MapErr;
pub use crate::combinators::map_extra::MapExtra;
pub use crate::combinators::repeat::Repeat;
pub use crate::combinators::succeed::Succeed;
pub use crate::combinators::then::Then;
pub use crate::combinators::then_pinned::ThenPinned;
pub use crate::combinators::try_with::TryWith;
pub use crate::combinators::uninit::Uninit;
pub use crate::combinators::unsize::Unsize;
pub use crate::combinators::with::With;
pub use crate::combinators::with_extra::WithExtra;
pub use crate::combinators::zeroed::Zeroed;
pub use crate::util::{ConstLength, Length, RuntimeLength};

verus! {

/// A descriptor for building one `Dst` value in place, where the result
/// must be treated as pinned (never moved) once built.
///
/// `Error` is what a failed construction step reports; `Extra` is the
/// auxiliary context handed to the construction step, available only once
/// the destination exists (for example a weak handle to the allocation
/// being filled).
///
/// Each implementation gives its own meaning to the four spec functions:
/// `wf` is the descriptor's internal validity, `meta_spec` the exact size
/// of what it builds, `pre` what it needs of the context, and `post` the
/// exact relation between the descriptor, the context and the outcome.
pub trait PinInit<Dst, Error, Extra>: Sized {
    /// The descriptor is internally consistent: its size metadata is
    /// meaningful and everything it wraps can be run.
    spec fn wf(&self) -> bool;

    /// The element count (or byte count, for text) of what this
    /// descriptor will build; `0` by convention for fixed-size values.
    spec fn meta_spec(&self) -> nat;

    /// What the construction step needs of the context it is handed.
    spec fn pre(&self, extra: Extra) -> bool;

    /// The exact outcome relation of the construction step.
    spec fn post(&self, extra: Extra, r: Result<Dst, Error>) -> bool;

    /// The size of the destination this descriptor fills. Stable: it is a
    /// pure function of the descriptor, so repeated calls agree.
    fn metadata(&self) -> (r: usize)
        requires
            self.wf(),
        ensures
            r as nat == self.meta_spec(),
    ;

    /// Consume the descriptor and build the value. On `Err`, nothing was
    /// built: the destination is as if it never existed.
    fn init(self, extra: Extra) -> (r: Result<Dst, Error>)
        requires
            self.wf(),
            self.pre(extra),
        ensures
            self.post(extra, r),
    ;
}

/// The descriptor `i` can report no error when run against `extra`:
/// every outcome its contract admits is a success.
pub open spec fn never_errs<Dst, Error, Extra, I: PinInit<Dst, Error, Extra>>(
    i: I,
    extra: Extra,
) -> bool {
    forall|e: Error| !i.post(extra, Err(e))
}

/// Size metadata and built size agree for the sequence-shaped descriptor
/// `i`: every success its contract admits holds exactly `meta_spec`
/// elements. This is the size/length agreement law; each combinator in
/// this crate comes with a lemma establishing it.
pub open spec fn meta_agrees<El, Dst: View<V = Seq<El>>, Error, Extra, I: PinInit<
    Dst,
    Error,
    Extra,
>>(i: I) -> bool {
    forall|extra: Extra, r: Result<Dst, Error>|
        #[trigger] i.post(extra, r) ==> (r is Ok ==> r->Ok_0@.len() == i.meta_spec())
}

/// Size metadata is stable: it is a pure function of the descriptor, so
/// any two queries of an unmodified descriptor return the same value.
/// Each query's outcome is pinned to `meta_spec` by [`PinInit::metadata`]'s
/// contract, from which the two agree.
pub proof fn lemma_metadata_idempotent<Dst, Error, Extra, I: PinInit<Dst, Error, Extra>>(
    i: I,
    r1: usize,
    r2: usize,
)
    requires
        r1 as nat == i.meta_spec(),
        r2 as nat == i.meta_spec(),
    ensures
        r1 == r2,
{
}

/// Size/length agreement law for the vector-source primitive: it
/// builds exactly the elements of its vector, whose count is its size.
pub proof fn lemma_vec_source_meta_agrees<T, Error>(v: Vec<T>)
    ensures
        meta_agrees::<T, Slice<T>, Error, (), Vec<T>>(v),
{
}

/// Size/length agreement law for the vector-copy primitive.
pub proof fn lemma_vec_copy_meta_agrees<'a, T: Copy, Error>(v: &'a Vec<T>)
    ensures
        meta_agrees::<T, Slice<T>, Error, (), &'a Vec<T>>(v),
{
}

/// Size/length agreement law for the array-source primitive, for
/// well-formed arrays.
pub proof fn lemma_array_source_meta_agrees<T, Error, const N: usize>(a: crate::shape::Array<T, N>)
    requires
        a.wf(),
    ensures
        meta_agrees::<T, Slice<T>, Error, (), crate::shape::Array<T, N>>(a),
{
}

/// Size/length agreement law for the element-source descriptor.
pub proof fn lemma_from_iter_meta_agrees<T, Extra>(f: FromIter<T>)
    ensures
        meta_agrees::<T, Slice<T>, InitFromIterError, Extra, FromIter<T>>(f),
{
}

/// A descriptor whose result may be freely moved after construction.
///
/// A strict refinement of [`PinInit`]: it adds no methods, only the
/// promise that the built value has no address-dependent invariants.
/// Engines that hand out a movable result demand this marker; engines
/// that pin the result immediately accept any [`PinInit`].
pub trait Init<Dst, Error, Extra>: PinInit<Dst, Error, Extra> {
}

/// Build a sized value by writing it into the destination. Infallible.
impl<T, Error> PinInit<T, Error, ()> for T {
    open spec fn wf(&self) -> bool {
        true
    }

    open spec fn meta_spec(&self) -> nat {
        0
    }

    open spec fn pre(&self, extra: ()) -> bool {
        true
    }

    open spec fn post(&self, extra: (), r: Result<T, Error>) -> bool {
        r == Result::<T, Error>::Ok(*self)
    }

    fn metadata(&self) -> (r: usize) {
        0
    }

    fn init(self, extra: ()) -> (r: Result<T, Error>) {
        Ok(self)
    }
}

impl<T, Error> Init<T, Error, ()> for T {
}

/// Build a sized value from an already-decided outcome: write the `Ok`
/// value, or report the carried error without writing.
impl<T, E> PinInit<T, E, ()> for Result<T, E> {
    open spec fn wf(&self) -> bool {
        true
    }

    open spec fn meta_spec(&self) -> nat {
        0
    }

    open spec fn pre(&self, extra: ()) -> bool {
        true
    }

    open spec fn post(&self, extra: (), r: Result<T, E>) -> bool {
        r == *self
    }

    fn metadata(&self) -> (r: usize) {
        0
    }

    fn init(self, extra: ()) -> (r: Result<T, E>) {
        self
    }
}

impl<T, E> Init<T, E, ()> for Result<T, E> {
}

/// Build a sized value by copying it out of an existing one. Infallible.
impl<'a, T: Copy, Error> PinInit<T, Error, ()> for &'a T {
    open spec fn wf(&self) -> bool {
        true
    }

    open spec fn meta_spec(&self) -> nat {
        0
    }

    open spec fn pre(&self, extra: ()) -> bool {
        true
    }

    open spec fn post(&self, extra: (), r: Result<T, Error>) -> bool {
        r == Result::<T, Error>::Ok(**self)
    }

    fn metadata(&self) -> (r: usize) {
        0
    }

    fn init(self, extra: ()) -> (r: Result<T, Error>) {
        Ok(*self)
    }
}

impl<'a, T: Copy, Error> Init<T, Error, ()> for &'a T {
}

/// Build a sized value by moving it out of an existing box: the box's
/// backing allocation is released once the value has moved into the
/// destination. Infallible.
impl<T, Error> PinInit<T, Error, ()> for Box<T> {
    open spec fn wf(&self) -> bool {
        true
    }

    open spec fn meta_spec(&self) -> nat {
        0
    }

    open spec fn pre(&self, extra: ()) -> bool {
        true
    }

    open spec fn post(&self, extra: (), r: Result<T, Error>) -> bool {
        r matches Ok(v) && v == *self
    }

    fn metadata(&self) -> (r: usize) {
        0
    }

    fn init(self, extra: ()) -> (r: Result<T, Error>) {
        Ok(*self)
    }
}

impl<T, Error> Init<T, Error, ()> for Box<T> {
}

/// Build a sequence by moving the elements out of an existing vector.
/// The size is the vector's length. Infallible.
impl<T, Error> PinInit<Slice<T>, Error, ()> for Vec<T> {
    open spec fn wf(&self) -> bool {
        true
    }

    open spec fn meta_spec(&self) -> nat {
        self@.len()
    }

    open spec fn pre(&self, extra: ()) -> bool {
        true
    }

    open spec fn post(&self, extra: (), r: Result<Slice<T>, Error>) -> bool {
        r matches Ok(s) && s@ == self@
    }

    fn metadata(&self) -> (r: usize) {
        self.len()
    }

    fn init(self, extra: ()) -> (r: Result<Slice<T>, Error>) {
        Ok(Slice::from_vec(self))
    }
}

impl<T, Error> Init<Slice<T>, Error, ()> for Vec<T> {
}

/// Build a sequence by copying the elements of an existing vector.
/// The size is the vector's length. Infallible.
impl<'a, T: Copy, Error> PinInit<Slice<T>, Error, ()> for &'a Vec<T> {
    open spec fn wf(&self) -> bool {
        true
    }

    open spec fn meta_spec(&self) -> nat {
        self@.len()
    }

    open spec fn pre(&self, extra: ()) -> bool {
        true
    }

    open spec fn post(&self, extra: (), r: Result<Slice<T>, Error>) -> bool {
        r matches Ok(s) && s@ == self@
    }

    fn metadata(&self) -> (r: usize) {
        self.len()
    }

    fn init(self, extra: ()) -> (r: Result<Slice<T>, Error>) {
        let mut elems: Vec<T> = Vec::new();
        let n = self.len();
        for i in 0..n
            invariant
                n == self@.len(),
                elems@ == self@.subrange(0, i as int),
        {
            elems.push(self[i]);
        }
        assert(elems@ =~= self@);
        Ok(Slice::from_vec(elems))
    }
}

impl<'a, T: Copy, Error> Init<Slice<T>, Error, ()> for &'a Vec<T> {
}

/// Build a sequence of exactly `N` elements from a fixed-length array
/// value. The size is the compile-time constant `N`. Infallible.
impl<T, Error, const N: usize> PinInit<Slice<T>, Error, ()> for crate::shape::Array<T, N> {
    open spec fn wf(&self) -> bool {
        self@.len() == N
    }

    open spec fn meta_spec(&self) -> nat {
        N as nat
    }

    open spec fn pre(&self, extra: ()) -> bool {
        true
    }

    open spec fn post(&self, extra: (), r: Result<Slice<T>, Error>) -> bool {
        r matches Ok(s) && s@ == self@
    }

    fn metadata(&self) -> (r: usize) {
        N
    }

    fn init(self, extra: ()) -> (r: Result<Slice<T>, Error>) {
        Ok(Slice::from_vec(self.into_vec()))
    }
}

impl<T, Error, const N: usize> Init<Slice<T>, Error, ()> for crate::shape::Array<T, N> {
}

/// Build a text destination by copying an existing text's bytes. The
/// size is the source's byte count. Infallible.
impl<'a, Error> PinInit<crate::text::Text, Error, ()> for &'a crate::text::Text {
    open spec fn wf(&self) -> bool {
        true
    }

    open spec fn meta_spec(&self) -> nat {
        (**self)@.len()
    }

    open spec fn pre(&self, extra: ()) -> bool {
        true
    }

    open spec fn post(&self, extra: (), r: Result<crate::text::Text, Error>) -> bool {
        r matches Ok(t) && t@ == (**self)@
    }

    fn metadata(&self) -> (r: usize) {
        self.len()
    }

    fn init(self, extra: ()) -> (r: Result<crate::text::Text, Error>) {
        let src = self.as_bytes();
        let mut bytes: Vec<u8> = Vec::new();
        let n = src.len();
        for i in 0..n
            invariant
                n == src@.len(),
                bytes@ == src@.subrange(0, i as int),
        {
            bytes.push(src[i]);
        }
        assert(bytes@ =~= src@);
        Ok(crate::text::Text { bytes })
    }
}

impl<'a, Error> Init<crate::text::Text, Error, ()> for &'a crate::text::Text {
}

/// Run an infallible descriptor against a caller-provided destination
/// slot. The slot must be uninitialized and is filled exactly once.
pub fn initialize<T, Error, I: Init<T, Error, ()>>(slot: &mut Slot<T>, init: I)
    requires
        (*old(slot)) is Vacant,
        init.wf(),
        init.pre(()),
        never_errs(init, ()),
    ensures
        (*final(slot)) matches Slot::Filled(v) && init.post((), Ok(v)),
{
    match init.init(()) {
        Ok(v) => {
            *slot = Slot::Filled(v);
        },
        Err(_) => {
            unreached()
        },
    }
}

/// Run a descriptor against a caller-provided destination slot. On
/// success the slot holds the built value; on failure it is untouched,
/// still uninitialized, and the error is reported.
pub fn try_initialize<T, Error, I: Init<T, Error, ()>>(slot: &mut Slot<T>, init: I) -> (r: Result<
    (),
    Error,
>)
    requires
        (*old(slot)) is Vacant,
        init.wf(),
        init.pre(()),
    ensures
        match r {
            Ok(()) => (*final(slot)) matches Slot::Filled(v) && init.post((), Ok(v)),
            Err(e) => (*final(slot)) is Vacant && init.post((), Err(e)),
        },
{
    match init.init(()) {
        Ok(v) => {
            *slot = Slot::Filled(v);
            Ok(())
        },
        Err(e) => Err(e),
    }
}

/// As [`initialize`], for a descriptor whose result must then be treated
/// as pinned: the slot's value must not be moved out afterwards.
pub fn initialize_pinned<T, Error, I: PinInit<T, Error, ()>>(slot: &mut Slot<T>, init: I)
    requires
        (*old(slot)) is Vacant,
        init.wf(),
        init.pre(()),
        never_errs(init, ()),
    ensures
        (*final(slot)) matches Slot::Filled(v) && init.post((), Ok(v)),
{
    match init.init(()) {
        Ok(v) => {
            *slot = Slot::Filled(v);
        },
        Err(_) => {
            unreached()
        },
    }
}

/// As [`try_initialize`], for a descriptor whose result must then be
/// treated as pinned.
pub fn try_initialize_pinned<T, Error, I: PinInit<T, Error, ()>>(
    slot: &mut Slot<T>,
    init: I,
) -> (r: Result<(), Error>)
    requires
        (*old(slot)) is Vacant,
        init.wf(),
        init.pre(()),
    ensures
        match r {
            Ok(()) => (*final(slot)) matches Slot::Filled(v) && init.post((), Ok(v)),
            Err(e) => (*final(slot)) is Vacant && init.post((), Err(e)),
        },
{
    match init.init(()) {
        Ok(v) => {
            *slot = Slot::Filled(v);
            Ok(())
        },
        Err(e) => Err(e),
    }
}

/// Convenience constructors for combinators, as methods on any
/// descriptor. The names start with `init_` to avoid collisions with
/// methods of the wrapped types.
pub trait PinInitExt<Dst, Error, Extra>: Sized + PinInit<Dst, Error, Extra> {
    /// Wrap `self`, converting its errors through `func`.
    fn init_map_err<E2, F: FnOnce(Error) -> E2>(self, func: F) -> (r: MapErr<
        Dst,
        Error,
        F,
        Self,
    >)
        ensures
            r.func == func,
            r.init == self,
    ;

    /// Wrap `self`, feeding it contexts converted through `func`.
    fn init_map_extra<Extra2, F: FnOnce(Extra2) -> Result<Extra, Error>>(self, func: F) -> (r:
        MapExtra<Dst, F, Self>)
        ensures
            r.func == func,
            r.init == self,
    ;

    /// Wrap `self`, dropping whatever context the caller supplies.
    fn init_ignore_extra(self) -> (r: IgnoreExtra<Dst, Self>)
        ensures
            r.init == self,
    ;

    /// Pair `self` with the context it will be run against.
    fn init_with_extra(self, extra: Extra) -> (r: WithExtra<Dst, Extra, Self>)
        ensures
            r.init == self,
            r.extra == extra,
    ;

    /// Place `self`'s output before `init2`'s in one destination.
    fn init_chain<I2: PinInit<Dst, Error, Extra>>(self, init2: I2) -> (r: Chain<Self, I2>)
        ensures
            r.init1 == self,
            r.init2 == init2,
    ;

    /// Present `self` as relocatable: the destination type has no
    /// address-dependent state.
    fn init_assert_unpin(self) -> (r: AssertPinned<Dst, Error, Extra, Self>)
        ensures
            r.init == self,
    ;
}

impl<Dst, Error, Extra, I: PinInit<Dst, Error, Extra>> PinInitExt<Dst, Error, Extra> for I {
    fn init_map_err<E2, F: FnOnce(Error) -> E2>(self, func: F) -> (r: MapErr<Dst, Error, F, I>) {
        MapErr::new(func, self)
    }

    fn init_map_extra<Extra2, F: FnOnce(Extra2) -> Result<Extra, Error>>(self, func: F) -> (r:
        MapExtra<Dst, F, I>) {
        MapExtra::new(func, self)
    }

    fn init_ignore_extra(self) -> (r: IgnoreExtra<Dst, I>) {
        IgnoreExtra::new(self)
    }

    fn init_with_extra(self, extra: Extra) -> (r: WithExtra<Dst, Extra, I>) {
        WithExtra::new(self, extra)
    }

    fn init_chain<I2: PinInit<Dst, Error, Extra>>(self, init2: I2) -> (r: Chain<I, I2>) {
        Chain::new(self, init2)
    }

    fn init_assert_unpin(self) -> (r: AssertPinned<Dst, Error, Extra, I>) {
        AssertPinned::new_unpin(self)
    }
}

/// A sequence descriptor fed element by element from an owned source of
/// known exact length. A source that misreported its length would
/// report [`InitFromIterError::TooShort`]; a vector's length is exact,
/// so every run of this descriptor succeeds.
pub struct FromIter<T> {
    pub items: Vec<T>,
}

/// The failure report of [`FromIter`]: the source ran out before the
/// announced element count was reached.
#[derive(Debug, Clone, Copy, PartialEq, Eq, Structural)]
pub enum InitFromIterError {
    /// The source held fewer elements than it announced.
    TooShort,
}

impl<T> FromIter<T> {
    /// Build a sequence from the elements of `items`, in order.
    pub fn new(items: Vec<T>) -> (r: Self)
        ensures
            r.items == items,
    {
        FromIter { items }
    }
}

impl<T, Extra> PinInit<Slice<T>, InitFromIterError, Extra> for FromIter<T> {
    open spec fn wf(&self) -> bool {
        true
    }

    open spec fn meta_spec(&self) -> nat {
        self.items@.len()
    }

    open spec fn pre(&self, extra: Extra) -> bool {
        true
    }

    open spec fn post(&self, extra: Extra, r: Result<Slice<T>, InitFromIterError>) -> bool {
        r matches Ok(s) && s@ == self.items@
    }

    fn metadata(&self) -> (r: usize) {
        self.items.len()
    }

    fn init(self, extra: Extra) -> (r: Result<Slice<T>, InitFromIterError>) {
        Ok(Slice::from_vec(self.items))
    }
}

impl<T, Extra> Init<Slice<T>, InitFromIterError, Extra> for FromIter<T> {
}

/// Build a sized value by creating a descriptor from the context; see
/// [`With`].
pub fn with<T, F>(func: F) -> (r: With<T, F>)
    ensures
        r.func == func,
{
    With::new(func)
}

/// Build a sized value by fallibly creating a descriptor from the
/// context; see [`TryWith`].
pub fn try_with<T, F>(func: F) -> (r: TryWith<T, F>)
    ensures
        r.func == func,
{
    TryWith::new(func)
}

/// A descriptor that always fails with `err`; see [`Fail`].
pub fn fail<T, E>(err: E) -> (r: Fail<T, E>)
    ensures
        r.err == err,
        r.meta == 0usize,
{
    Fail::new(err)
}

/// Present the infallible `init` under any error type; see [`Succeed`].
pub fn succeed<T, E, I>(init: I) -> (r: Succeed<T, I, E>)
    ensures
        r.init == init,
{
    Succeed::new(init)
}

/// Wrap `init`, converting its errors through `func`; see [`MapErr`].
pub fn map_err<T, E1, F, I>(func: F, init: I) -> (r: MapErr<T, E1, F, I>)
    ensures
        r.func == func,
        r.init == init,
{
    MapErr::new(func, init)
}

/// Build an array of `N` copies of what `init` builds; see [`Repeat`].
pub fn array_repeat<const N: usize, I>(init: I) -> (r: Repeat<I, ConstLength<N>>)
    ensures
        r.init == init,
{
    Repeat::<I, RuntimeLength>::new_array(init)
}

/// Build a sequence of `length` copies of what `init` builds; see
/// [`Repeat`].
pub fn slice_repeat<I>(length: usize, init: I) -> (r: Repeat<I, RuntimeLength>)
    ensures
        r.length.length == length,
        r.init == init,
{
    Repeat::new_slice(length, init)
}

/// Build an array of `N` elements, element `j` from `func(j)`; see
/// [`ForEach`].
pub fn array_for_each<const N: usize, F>(func: F) -> (r: ForEach<F, ConstLength<N>>)
    ensures
        r.func == func,
{
    ForEach::<F, RuntimeLength>::new_array(func)
}

/// Build a sequence of `length` elements, element `j` from `func(j)`;
/// see [`ForEach`].
pub fn slice_for_each<F>(length: usize, func: F) -> (r: ForEach<F, RuntimeLength>)
    ensures
        r.length.length == length,
        r.func == func,
{
    ForEach::new_slice(length, func)
}

/// Build an array of `N` elements, element `j` from `func(j, extra)`;
/// see [`ForEachWith`].
pub fn array_for_each_with<const N: usize, F>(func: F) -> (r: ForEachWith<F, ConstLength<N>>)
    ensures
        r.func == func,
{
    ForEachWith::<F, RuntimeLength>::new_array(func)
}

/// Build a sequence of `length` elements, element `j` from
/// `func(j, extra)`; see [`ForEachWith`].
pub fn slice_for_each_with<F>(length: usize, func: F) -> (r: ForEachWith<F, RuntimeLength>)
    ensures
        r.length.length == length,
        r.func == func,
{
    ForEachWith::new_slice(length, func)
}

/// Place `init1`'s output before `init2`'s in one destination; see
/// [`Chain`].
pub fn chain<I1, I2>(init1: I1, init2: I2) -> (r: Chain<I1, I2>)
    ensures
        r.init1 == init1,
        r.init2 == init2,
{
    Chain::new(init1, init2)
}

/// Wrap `init`, dropping whatever context the caller supplies; see
/// [`IgnoreExtra`].
pub fn ignore_extra<T, I>(init: I) -> (r: IgnoreExtra<T, I>)
    ensures
        r.init == init,
{
    IgnoreExtra::new(init)
}

/// Wrap `init`, feeding it contexts converted through `func`; see
/// [`MapExtra`].
pub fn map_extra<T, F, I>(func: F, init: I) -> (r: MapExtra<T, F, I>)
    ensures
        r.func == func,
        r.init == init,
{
    MapExtra::new(func, init)
}

/// Pair `init` with the context it will be run against; see
/// [`WithExtra`].
pub fn with_extra<T, I, Extra>(init: I, extra: Extra) -> (r: WithExtra<T, Extra, I>)
    ensures
        r.init == init,
        r.extra == extra,
{
    WithExtra::new(init, extra)
}

/// One uninitialized cell; see [`Uninit`].
pub fn uninit<T>() -> (r: Uninit<Slot<T>>)
    ensures
        r.meta == 0usize,
{
    Uninit::new()
}

/// One all-zero value; see [`Zeroed`].
pub fn zeroed<T: crate::shape::Zeroable>() -> (r: Zeroed<T>)
    ensures
        r.meta == 0usize,
{
    Zeroed::new()
}

/// Restrict `init` to the destination type `T`; see [`ForType`].
pub fn for_type<T, I>(init: I) -> (r: ForType<T, I>)
    ensures
        r.init == init,
{
    ForType::new(init)
}

/// Present the array descriptor `init` as a sequence descriptor; see
/// [`ForSlice`].
pub fn for_slice<const N: usize, I>(init: I) -> (r: ForSlice<I, N>)
    ensures
        r.init == init,
{
    ForSlice::new(init)
}

/// Run `init`, then `func` on what it built; see [`Then`].
pub fn then<T, I, F>(init: I, func: F) -> (r: Then<T, I, F>)
    ensures
        r.init == init,
        r.func == func,
{
    Then::new(init, func)
}

/// Run `init`, then `func` on what it built, keeping the result
/// pinned; see [`ThenPinned`].
pub fn then_pinned<T, I, F>(init: I, func: F) -> (r: ThenPinned<T, I, F>)
    ensures
        r.init == init,
        r.func == func,
{
    ThenPinned::new(init, func)
}

/// Present the text descriptor `init` as a byte-sequence descriptor;
/// see [`AsBytes`].
pub fn as_bytes<I>(init: I) -> (r: AsBytes<I>)
    ensures
        r.init == init,
{
    AsBytes::new(init)
}

/// Present the byte-sequence descriptor `init` as a text descriptor,
/// validated after construction; see [`AsUtf8`].
pub fn as_utf8<I>(init: I) -> (r: AsUtf8<I>)
    ensures
        r.init == init,
{
    AsUtf8::new(init)
}

/// Flatten `M` rows of `N` elements into `P` elements; the product must
/// be exactly `P`. See [`Flatten`].
pub fn flatten<T, const N: usize, const M: usize, const P: usize, I>(init: I) -> (r: Flatten<
    crate::shape::Array<crate::shape::Array<T, N>, M>,
    crate::shape::Array<T, P>,
    I,
>)
    requires
        N * M == P,
    ensures
        r.init == init,
{
    Flatten::new(init)
}

/// Flatten `M` rows of `N` elements into `P` elements, if `P` is
/// exactly the product; hand the descriptor back otherwise. See
/// [`Flatten`].
pub fn try_flatten<T, const N: usize, const M: usize, const P: usize, I>(init: I) -> (r: Result<
    Flatten<crate::shape::Array<crate::shape::Array<T, N>, M>, crate::shape::Array<T, P>, I>,
    I,
>)
    ensures
        match r {
            Ok(f) => N * M == P && f.init == init,
            Err(i) => N * M != P && i == init,
        },
{
    Flatten::try_new(init)
}

/// Flatten a sequence of `N`-element rows into one sequence; see
/// [`Flatten`].
pub fn flatten_slice<T, const N: usize, I>(init: I) -> (r: Flatten<
    Slice<crate::shape::Array<T, N>>,
    Slice<T>,
    I,
>)
    ensures
        r.init == init,
{
    Flatten::new_slice(init)
}

/// Present the sized-value descriptor `init` through the unsized
/// destination it is a view of; see [`Unsize`].
pub fn unsize<Src, Dst, I>(init: I) -> (r: Unsize<Src, Dst, I>)
    ensures
        r.init == init,
{
    Unsize::new(init)
}


} // verus!
