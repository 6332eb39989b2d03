//! The text engines: building a text buffer from a text descriptor, and
//! extending an existing one in place.

use vstd::prelude::*;

use crate::text::Text;
use crate::{Init, PinInit, never_errs};

verus! {

/// Build a text buffer from a text descriptor, or report its error.
pub fn try_new_string<Error, I: Init<Text, Error, ()>>(init: I) -> (r: Result<Text, Error>)
    requires
        init.wf(),
        init.pre(()),
    ensures
        match r {
            Ok(t) => init.post((), Ok(t)),
            Err(e) => init.post((), Err(e)),
        },
{
    init.init(())
}

/// Build a text buffer from a text descriptor that cannot fail.
pub fn new_string<Error, I: Init<Text, Error, ()>>(init: I) -> (r: Text)
    requires
        init.wf(),
        init.pre(()),
        never_errs(init, ()),
    ensures
        init.post((), Ok(r)),
{
    match try_new_string(init) {
        Ok(t) => t,
        Err(_) => unreached(),
    }
}

/// In-place extension of a text buffer by a text descriptor. On failure
/// the buffer's bytes are exactly what they were; the reported length
/// never runs ahead of the built bytes.
pub trait StringExt: Sized {
    /// The bytes currently held, in order.
    spec fn text_view(&self) -> Seq<u8>;

    /// Build a whole text in place at the end, or report the
    /// descriptor's error with the buffer unchanged.
    fn try_append_emplace<Error, I: Init<Text, Error, ()>>(&mut self, init: I) -> (r: Result<
        (),
        Error,
    >)
        requires
            init.wf(),
            init.pre(()),
        ensures
            match r {
                Ok(()) => exists|t: Text|
                    #[trigger] init.post((), Ok(t)) && final(self).text_view() == old(
                        self,
                    ).text_view() + t@,
                Err(e) => final(self).text_view() == old(self).text_view() && init.post(
                    (),
                    Err(e),
                ),
            },
    ;

    /// Build a whole text in place at the end; the descriptor cannot
    /// fail.
    fn append_emplace<Error, I: Init<Text, Error, ()>>(&mut self, init: I)
        requires
            init.wf(),
            init.pre(()),
            never_errs(init, ()),
        ensures
            exists|t: Text|
                #[trigger] init.post((), Ok(t)) && final(self).text_view() == old(
                    self,
                ).text_view() + t@,
    ;
}

impl StringExt for Text {
    open spec fn text_view(&self) -> Seq<u8> {
        self@
    }

    fn try_append_emplace<Error, I: Init<Text, Error, ()>>(&mut self, init: I) -> (r: Result<
        (),
        Error,
    >) {
        let _additional = init.metadata();
        match init.init(()) {
            Ok(t) => {
                let mut tail = t.into_bytes();
                self.bytes.append(&mut tail);
                Ok(())
            },
            Err(e) => Err(e),
        }
    }

    fn append_emplace<Error, I: Init<Text, Error, ()>>(&mut self, init: I) {
        match self.try_append_emplace(init) {
            Ok(()) => (),
            Err(_) => unreached(),
        }
    }
}

} // verus!
