//! A text descriptor presented as a byte-sequence descriptor.

use vstd::prelude::*;

use crate::shape::Slice;
use crate::text::Text;
use crate::{Init, PinInit, meta_agrees};

verus! {

/// Build a byte sequence from a text descriptor: text is bytes, so the
/// reinterpretation is trivially valid and the size carries over
/// unchanged.
pub struct AsBytes<I> {
    pub init: I,
}

impl<I> AsBytes<I> {
    /// Present the text descriptor `init` as a byte-sequence
    /// descriptor.
    pub fn new(init: I) -> (r: Self)
        ensures
            r.init == init,
    {
        AsBytes { init }
    }
}

impl<Error, Extra, I: PinInit<Text, Error, Extra>> PinInit<Slice<u8>, Error, Extra> for AsBytes<
    I,
> {
    open spec fn wf(&self) -> bool {
        self.init.wf()
    }

    open spec fn meta_spec(&self) -> nat {
        self.init.meta_spec()
    }

    open spec fn pre(&self, extra: Extra) -> bool {
        self.init.pre(extra)
    }

    open spec fn post(&self, extra: Extra, r: Result<Slice<u8>, Error>) -> bool {
        match r {
            Ok(s) => exists|t: Text| #[trigger] self.init.post(extra, Ok(t)) && s@ == t@,
            Err(e) => self.init.post(extra, Err(e)),
        }
    }

    fn metadata(&self) -> (r: usize) {
        self.init.metadata()
    }

    fn init(self, extra: Extra) -> (r: Result<Slice<u8>, Error>) {
        match self.init.init(extra) {
            Ok(t) => Ok(Slice::from_vec(t.into_bytes())),
            Err(e) => Err(e),
        }
    }
}

impl<Error, Extra, I: Init<Text, Error, Extra>> Init<Slice<u8>, Error, Extra> for AsBytes<I> {
}

/// Size/length agreement law for the text-to-bytes reinterpretation:
/// it carries the wrapped descriptor's size and bytes over unchanged.
pub proof fn lemma_as_bytes_meta_agrees<Error, Extra, I: PinInit<Text, Error, Extra>>(
    ab: AsBytes<I>,
)
    requires
        meta_agrees::<u8, Text, Error, Extra, I>(ab.init),
    ensures
        meta_agrees::<u8, crate::shape::Slice<u8>, Error, Extra, AsBytes<I>>(ab),
{
    assert forall|extra: Extra, r: Result<Slice<u8>, Error>|
        #[trigger] PinInit::<Slice<u8>, Error, Extra>::post(&ab, extra, r) && r is Ok implies r->Ok_0@.len()
        == PinInit::<Slice<u8>, Error, Extra>::meta_spec(&ab) by {
        let s = r->Ok_0;
        let t = choose|t: Text| #[trigger] ab.init.post(extra, Ok(t)) && s@ == t@;
    }
}

} // verus!
