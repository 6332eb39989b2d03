//! Descriptor combinators: wrappers that compose or reshape descriptors
//! while preserving the construction contract.

pub(crate) mod assert_pinned;
pub(crate) mod as_bytes;
pub(crate) mod as_utf8;
pub(crate) mod chain;
pub(crate) mod fail;
pub(crate) mod flatten;
pub(crate) mod for_each;
pub(crate) mod for_each_with;
pub(crate) mod for_slice;
pub(crate) mod for_type;
pub(crate) mod ignore_extra;
pub(crate) mod map_err;
pub(crate) mod map_extra;
pub(crate) mod repeat;
pub(crate) mod succeed;
pub(crate) mod then;
pub(crate) mod then_pinned;
pub(crate) mod try_with;
pub(crate) mod uninit;
pub(crate) mod unsize;
pub(crate) mod with;
pub(crate) mod with_extra;
pub(crate) mod zeroed;
