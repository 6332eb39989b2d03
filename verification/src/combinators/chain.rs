//! Two sequence descriptors placed back to back in one destination.

use vstd::prelude::*;

use crate::shape::Slice;
use crate::text::Text;
use crate::{Init, PinInit, meta_agrees};

verus! {

/// Build a sequence or text destination in two pieces: first everything
/// the first descriptor builds, then everything the second builds,
/// immediately after it. The size is the exact sum of the two sizes; a
/// sum beyond the machine's size type is not well-formed and is refused
/// before anything runs.
pub struct Chain<I1, I2> {
    pub init1: I1,
    pub init2: I2,
}

impl<I1, I2> Chain<I1, I2> {
    /// Place `init1`'s output before `init2`'s in one destination.
    pub fn new(init1: I1, init2: I2) -> (r: Self)
        ensures
            r.init1 == init1,
            r.init2 == init2,
    {
        Chain { init1, init2 }
    }
}

impl<
    T,
    Error,
    Extra: Copy,
    I1: PinInit<Slice<T>, Error, Extra>,
    I2: PinInit<Slice<T>, Error, Extra>,
> PinInit<Slice<T>, Error, Extra> for Chain<I1, I2> {
    open spec fn wf(&self) -> bool {
        &&& self.init1.wf()
        &&& self.init2.wf()
        &&& self.init1.meta_spec() + self.init2.meta_spec() <= usize::MAX
    }

    open spec fn meta_spec(&self) -> nat {
        self.init1.meta_spec() + self.init2.meta_spec()
    }

    open spec fn pre(&self, extra: Extra) -> bool {
        &&& self.init1.pre(extra)
        &&& self.init2.pre(extra)
    }

    open spec fn post(&self, extra: Extra, r: Result<Slice<T>, Error>) -> bool {
        match r {
            Ok(s) => exists|s1: Slice<T>, s2: Slice<T>|
                #[trigger] self.init1.post(extra, Ok(s1)) && #[trigger] self.init2.post(
                    extra,
                    Ok(s2),
                ) && s@ == s1@ + s2@,
            Err(e) => self.init1.post(extra, Err(e)) || exists|s1: Slice<T>|
                #[trigger] self.init1.post(extra, Ok(s1)) && self.init2.post(extra, Err(e)),
        }
    }

    fn metadata(&self) -> (r: usize) {
        self.init1.metadata() + self.init2.metadata()
    }

    fn init(self, extra: Extra) -> (r: Result<Slice<T>, Error>) {
        let s1 = match self.init1.init(extra) {
            Ok(s1) => s1,
            Err(e) => {
                return Err(e);
            },
        };
        let s2 = match self.init2.init(extra) {
            Ok(s2) => s2,
            Err(e) => {
                return Err(e);
            },
        };
        let mut elems = s1.into_vec();
        let mut tail = s2.into_vec();
        elems.append(&mut tail);
        Ok(Slice::from_vec(elems))
    }
}

impl<
    T,
    Error,
    Extra: Copy,
    I1: Init<Slice<T>, Error, Extra>,
    I2: Init<Slice<T>, Error, Extra>,
> Init<Slice<T>, Error, Extra> for Chain<I1, I2> {
}

impl<
    Error,
    Extra: Copy,
    I1: PinInit<Text, Error, Extra>,
    I2: PinInit<Text, Error, Extra>,
> PinInit<Text, Error, Extra> for Chain<I1, I2> {
    open spec fn wf(&self) -> bool {
        &&& self.init1.wf()
        &&& self.init2.wf()
        &&& self.init1.meta_spec() + self.init2.meta_spec() <= usize::MAX
    }

    open spec fn meta_spec(&self) -> nat {
        self.init1.meta_spec() + self.init2.meta_spec()
    }

    open spec fn pre(&self, extra: Extra) -> bool {
        &&& self.init1.pre(extra)
        &&& self.init2.pre(extra)
    }

    open spec fn post(&self, extra: Extra, r: Result<Text, Error>) -> bool {
        match r {
            Ok(t) => exists|t1: Text, t2: Text|
                #[trigger] self.init1.post(extra, Ok(t1)) && #[trigger] self.init2.post(
                    extra,
                    Ok(t2),
                ) && t@ == t1@ + t2@,
            Err(e) => self.init1.post(extra, Err(e)) || exists|t1: Text|
                #[trigger] self.init1.post(extra, Ok(t1)) && self.init2.post(extra, Err(e)),
        }
    }

    fn metadata(&self) -> (r: usize) {
        self.init1.metadata() + self.init2.metadata()
    }

    fn init(self, extra: Extra) -> (r: Result<Text, Error>) {
        let t1 = match self.init1.init(extra) {
            Ok(t1) => t1,
            Err(e) => {
                return Err(e);
            },
        };
        let t2 = match self.init2.init(extra) {
            Ok(t2) => t2,
            Err(e) => {
                return Err(e);
            },
        };
        let mut bytes = t1.into_bytes();
        let mut tail = t2.into_bytes();
        bytes.append(&mut tail);
        Ok(Text { bytes })
    }
}

impl<
    Error,
    Extra: Copy,
    I1: Init<Text, Error, Extra>,
    I2: Init<Text, Error, Extra>,
> Init<Text, Error, Extra> for Chain<I1, I2> {
}

/// Sequencing law: a chained sequence descriptor builds exactly the
/// first part followed by the second, and its size metadata is their
/// exact, unwrapped sum, so size and built length agree whenever they
/// agree for the two parts.
pub proof fn lemma_chain_meta_agrees<
    T,
    Error,
    Extra: Copy,
    I1: PinInit<Slice<T>, Error, Extra>,
    I2: PinInit<Slice<T>, Error, Extra>,
>(c: Chain<I1, I2>)
    requires
        meta_agrees::<T, Slice<T>, Error, Extra, I1>(c.init1),
        meta_agrees::<T, Slice<T>, Error, Extra, I2>(c.init2),
    ensures
        meta_agrees::<T, Slice<T>, Error, Extra, Chain<I1, I2>>(c),
{
    assert forall|extra: Extra, r: Result<Slice<T>, Error>|
        #[trigger] PinInit::<Slice<T>, Error, Extra>::post(&c, extra, r) && r is Ok implies r->Ok_0@.len()
        == PinInit::<Slice<T>, Error, Extra>::meta_spec(&c) by {
        let s = r->Ok_0;
        let (s1, s2) = choose|s1: Slice<T>, s2: Slice<T>|
            #[trigger] c.init1.post(extra, Ok(s1)) && #[trigger] c.init2.post(extra, Ok(s2)) && s@
                == s1@ + s2@;
    }
}

/// Sequencing law for text: as [`lemma_chain_meta_agrees`], in bytes.
pub proof fn lemma_chain_text_meta_agrees<
    Error,
    Extra: Copy,
    I1: PinInit<Text, Error, Extra>,
    I2: PinInit<Text, Error, Extra>,
>(c: Chain<I1, I2>)
    requires
        meta_agrees::<u8, Text, Error, Extra, I1>(c.init1),
        meta_agrees::<u8, Text, Error, Extra, I2>(c.init2),
    ensures
        meta_agrees::<u8, Text, Error, Extra, Chain<I1, I2>>(c),
{
    assert forall|extra: Extra, r: Result<Text, Error>|
        #[trigger] PinInit::<Text, Error, Extra>::post(&c, extra, r) && r is Ok implies r->Ok_0@.len()
        == PinInit::<Text, Error, Extra>::meta_spec(&c) by {
        let t = r->Ok_0;
        let (t1, t2) = choose|t1: Text, t2: Text|
            #[trigger] c.init1.post(extra, Ok(t1)) && #[trigger] c.init2.post(extra, Ok(t2)) && t@
                == t1@ + t2@;
    }
}

/// Overflow rejection for sequencing: a well-formed chain's size is the
/// exact mathematical sum of its parts — never a wrapped value — and a
/// pair whose sum does not fit the machine's size type is not
/// well-formed, so no size query or construction can run on it.
pub proof fn lemma_chain_rejects_overflow<
    T,
    Error,
    Extra: Copy,
    I1: PinInit<Slice<T>, Error, Extra>,
    I2: PinInit<Slice<T>, Error, Extra>,
>(c: Chain<I1, I2>)
    requires
        PinInit::<Slice<T>, Error, Extra>::wf(&c),
    ensures
        PinInit::<Slice<T>, Error, Extra>::meta_spec(&c) == c.init1.meta_spec()
            + c.init2.meta_spec(),
        c.init1.meta_spec() + c.init2.meta_spec() <= usize::MAX,
{
}

} // verus!
