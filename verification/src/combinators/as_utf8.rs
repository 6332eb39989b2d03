//! A byte-sequence descriptor presented as a text descriptor.

use vstd::prelude::*;

use crate::shape::Slice;
use crate::text::{Text, Utf8Error, is_utf8, validate_utf8};
use crate::{Init, PinInit, meta_agrees};
use vstd::std_specs::convert::FromSpec;

verus! {

/// Build a text destination from a byte-sequence descriptor: after the
/// bytes are built they are checked for well-formed UTF-8, and bytes
/// that are not well-formed are rejected as a construction failure
/// carrying the converted [`Utf8Error`].
pub struct AsUtf8<I> {
    pub init: I,
}

impl<I> AsUtf8<I> {
    /// Present the byte-sequence descriptor `init` as a text
    /// descriptor, validated after construction.
    pub fn new(init: I) -> (r: Self)
        ensures
            r.init == init,
    {
        AsUtf8 { init }
    }
}

impl<
    Error: From<Utf8Error>,
    Extra,
    I: PinInit<Slice<u8>, Error, Extra>,
> PinInit<Text, Error, Extra> for AsUtf8<I> {
    open spec fn wf(&self) -> bool {
        self.init.wf()
    }

    open spec fn meta_spec(&self) -> nat {
        self.init.meta_spec()
    }

    open spec fn pre(&self, extra: Extra) -> bool {
        self.init.pre(extra)
    }

    open spec fn post(&self, extra: Extra, r: Result<Text, Error>) -> bool {
        match r {
            Ok(t) => t.wf() && exists|s: Slice<u8>|
                #[trigger] self.init.post(extra, Ok(s)) && t@ == s@,
            Err(e) => {
                ||| self.init.post(extra, Err(e))
                ||| exists|s: Slice<u8>|
                    #[trigger] self.init.post(extra, Ok(s)) && !is_utf8(s@) && (
                    Error::obeys_from_spec() ==> e == Error::from_spec(Utf8Error))
            },
        }
    }

    fn metadata(&self) -> (r: usize) {
        self.init.metadata()
    }

    fn init(self, extra: Extra) -> (r: Result<Text, Error>) {
        match self.init.init(extra) {
            Ok(s) => {
                let bytes = s.into_vec();
                if validate_utf8(&bytes) {
                    Ok(Text { bytes })
                } else {
                    Err(Error::from(Utf8Error))
                }
            },
            Err(e) => Err(e),
        }
    }
}

impl<Error: From<Utf8Error>, Extra, I: Init<Slice<u8>, Error, Extra>> Init<
    Text,
    Error,
    Extra,
> for AsUtf8<I> {
}

/// Size/length agreement law for the bytes-to-text reinterpretation:
/// the validated text carries the wrapped descriptor's size over
/// unchanged.
pub proof fn lemma_as_utf8_meta_agrees<
    Error: From<Utf8Error>,
    Extra,
    I: PinInit<Slice<u8>, Error, Extra>,
>(au: AsUtf8<I>)
    requires
        meta_agrees::<u8, Slice<u8>, Error, Extra, I>(au.init),
    ensures
        meta_agrees::<u8, Text, Error, Extra, AsUtf8<I>>(au),
{
    assert forall|extra: Extra, r: Result<Text, Error>|
        #[trigger] PinInit::<Text, Error, Extra>::post(&au, extra, r) && r is Ok implies r->Ok_0@.len()
        == PinInit::<Text, Error, Extra>::meta_spec(&au) by {
        let t = r->Ok_0;
        let s = choose|s: Slice<u8>| #[trigger] au.init.post(extra, Ok(s)) && t@ == s@;
    }
}

} // verus!
