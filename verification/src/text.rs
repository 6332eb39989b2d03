//! The text destination shape: a byte buffer that is well-formed UTF-8.
//!
//! Text destinations carry their size as a byte count. Whether a byte
//! sequence is well-formed UTF-8 is defined here from the encoding's
//! grammar, and a verified validator decides it at run time; the
//! byte-to-text reinterpretation descriptor uses that check.

use vstd::prelude::*;

verus! {

/// A continuation byte: the trailing bytes of every multi-byte scalar.
pub open spec fn is_cont_byte(b: u8) -> bool {
    0x80 <= b <= 0xBF
}

/// A well-formed two-byte encoding head: scalars U+0080 to U+07FF.
pub open spec fn valid_pair(a: u8, b: u8) -> bool {
    0xC2 <= a <= 0xDF && is_cont_byte(b)
}

/// A well-formed three-byte encoding head: scalars U+0800 to U+FFFF,
/// overlong forms and surrogates excluded.
pub open spec fn valid_triple(a: u8, b: u8, c: u8) -> bool {
    &&& {
        ||| (a == 0xE0 && 0xA0 <= b <= 0xBF)
        ||| (0xE1 <= a <= 0xEC && is_cont_byte(b))
        ||| (a == 0xED && 0x80 <= b <= 0x9F)
        ||| (0xEE <= a <= 0xEF && is_cont_byte(b))
    }
    &&& is_cont_byte(c)
}

/// A well-formed four-byte encoding head: scalars U+10000 to U+10FFFF,
/// overlong forms and values past the last scalar excluded.
pub open spec fn valid_quad(a: u8, b: u8, c: u8, d: u8) -> bool {
    &&& {
        ||| (a == 0xF0 && 0x90 <= b <= 0xBF)
        ||| (0xF1 <= a <= 0xF3 && is_cont_byte(b))
        ||| (a == 0xF4 && 0x80 <= b <= 0x8F)
    }
    &&& is_cont_byte(c)
    &&& is_cont_byte(d)
}

/// The byte length of the well-formed scalar encoded at the front of
/// `s`, or `0` when the front of `s` is not a well-formed encoding.
pub open spec fn scalar_len_front(s: Seq<u8>) -> int {
    if s.len() >= 1 && s[0] < 0x80 {
        1
    } else if s.len() >= 2 && valid_pair(s[0], s[1]) {
        2
    } else if s.len() >= 3 && valid_triple(s[0], s[1], s[2]) {
        3
    } else if s.len() >= 4 && valid_quad(s[0], s[1], s[2], s[3]) {
        4
    } else {
        0
    }
}

/// Whether `s` is a well-formed UTF-8 byte sequence: a concatenation of
/// well-formed scalar encodings.
pub open spec fn is_utf8(s: Seq<u8>) -> bool
    decreases s.len(),
{
    if s.len() == 0 {
        true
    } else {
        let k = scalar_len_front(s);
        k > 0 && is_utf8(s.skip(k))
    }
}

/// The report of the byte-to-text reinterpretation descriptor when its
/// bytes are not well-formed UTF-8.
#[derive(Debug, Clone, Copy, PartialEq, Eq, Structural)]
pub struct Utf8Error;

/// A text destination: a byte buffer whose well-formed state is
/// [`is_utf8`] of its bytes. Its size metadata is the byte count.
#[derive(Debug)]
pub struct Text {
    pub bytes: Vec<u8>,
}

impl View for Text {
    type V = Seq<u8>;

    open spec fn view(&self) -> Seq<u8> {
        self.bytes@
    }
}

impl Text {
    /// The buffer holds well-formed UTF-8.
    pub open spec fn wf(&self) -> bool {
        is_utf8(self@)
    }

    /// The empty text.
    pub fn empty() -> (r: Text)
        ensures
            r@.len() == 0,
            r.wf(),
    {
        Text { bytes: Vec::new() }
    }

    /// Take ownership of `bytes` as text, after checking that they are
    /// well-formed UTF-8; report [`Utf8Error`] otherwise.
    pub fn from_vec(bytes: Vec<u8>) -> (r: Result<Text, Utf8Error>)
        ensures
            match r {
                Ok(t) => is_utf8(bytes@) && t@ == bytes@,
                Err(e) => !is_utf8(bytes@),
            },
    {
        if validate_utf8(&bytes) {
            Ok(Text { bytes })
        } else {
            Err(Utf8Error)
        }
    }

    /// The bytes, surrendering the text shape.
    pub fn into_bytes(self) -> (r: Vec<u8>)
        ensures
            r == self.bytes,
            r@ == self@,
    {
        self.bytes
    }

    /// Read access to the bytes.
    pub fn as_bytes(&self) -> (r: &Vec<u8>)
        ensures
            r@ == self@,
    {
        &self.bytes
    }

    /// The byte count.
    pub fn len(&self) -> (r: usize)
        ensures
            r == self@.len(),
    {
        self.bytes.len()
    }
}

/// Decide [`is_utf8`] of the given bytes.
pub fn validate_utf8(bytes: &Vec<u8>) -> (r: bool)
    ensures
        r == is_utf8(bytes@),
{
    let n = bytes.len();
    let mut i: usize = 0;
    proof {
        assert(bytes@.skip(0) =~= bytes@);
    }
    while i < n
        invariant
            n == bytes@.len(),
            0 <= i <= n,
            is_utf8(bytes@) == is_utf8(bytes@.skip(i as int)),
        decreases n - i,
    {
        let b0 = bytes[i];
        let ghost rest = bytes@.skip(i as int);
        let k: usize = if b0 < 0x80 {
            1
        } else if 0xC2 <= b0 && b0 <= 0xDF {
            if n - i >= 2 && is_cont(bytes[i + 1]) {
                2
            } else {
                0
            }
        } else if 0xE0 <= b0 && b0 <= 0xEF {
            if n - i >= 3 && valid_second_of_triple(b0, bytes[i + 1]) && is_cont(bytes[i + 2]) {
                3
            } else {
                0
            }
        } else if 0xF0 <= b0 && b0 <= 0xF4 {
            if n - i >= 4 && valid_second_of_quad(b0, bytes[i + 1]) && is_cont(bytes[i + 2])
                && is_cont(bytes[i + 3]) {
                4
            } else {
                0
            }
        } else {
            0
        };
        if k == 0 {
            proof {
                assert(scalar_len_front(rest) == 0);
                assert(!is_utf8(rest));
            }
            return false;
        }
        proof {
            assert(scalar_len_front(rest) == k);
            assert(rest.skip(k as int) =~= bytes@.skip(i + k as int));
        }
        i = i + k;
    }
    proof {
        assert(bytes@.skip(n as int) =~= Seq::<u8>::empty());
    }
    true
}

/// Decide [`is_cont_byte`].
fn is_cont(b: u8) -> (r: bool)
    ensures
        r == is_cont_byte(b),
{
    0x80 <= b && b <= 0xBF
}

/// Decide the second-byte constraint of a three-byte encoding headed by
/// `a`.
fn valid_second_of_triple(a: u8, b: u8) -> (r: bool)
    requires
        0xE0 <= a <= 0xEF,
    ensures
        r == ((a == 0xE0 && 0xA0 <= b <= 0xBF) || (0xE1 <= a <= 0xEC && is_cont_byte(b)) || (a
            == 0xED && 0x80 <= b <= 0x9F) || (0xEE <= a <= 0xEF && is_cont_byte(b))),
{
    if a == 0xE0 {
        0xA0 <= b && b <= 0xBF
    } else if a == 0xED {
        0x80 <= b && b <= 0x9F
    } else {
        0x80 <= b && b <= 0xBF
    }
}

/// Decide the second-byte constraint of a four-byte encoding headed by
/// `a`.
fn valid_second_of_quad(a: u8, b: u8) -> (r: bool)
    requires
        0xF0 <= a <= 0xF4,
    ensures
        r == ((a == 0xF0 && 0x90 <= b <= 0xBF) || (0xF1 <= a <= 0xF3 && is_cont_byte(b)) || (a
            == 0xF4 && 0x80 <= b <= 0x8F)),
{
    if a == 0xF0 {
        0x90 <= b && b <= 0xBF
    } else if a == 0xF4 {
        0x80 <= b && b <= 0x8F
    } else {
        0x80 <= b && b <= 0xBF
    }
}

/// Well-formed UTF-8 is closed under concatenation.
pub proof fn lemma_utf8_concat(a: Seq<u8>, b: Seq<u8>)
    requires
        is_utf8(a),
        is_utf8(b),
    ensures
        is_utf8(a + b),
    decreases a.len(),
{
    if a.len() == 0 {
        assert(a + b =~= b);
    } else {
        let k = scalar_len_front(a);
        assert(scalar_len_front(a + b) == k);
        lemma_utf8_concat(a.skip(k), b);
        assert(a.skip(k) + b =~= (a + b).skip(k));
    }
}

/// A run of zero bytes is well-formed UTF-8.
pub proof fn lemma_utf8_zeroes(s: Seq<u8>)
    requires
        forall|j: int| 0 <= j < s.len() ==> s[j] == 0u8,
    ensures
        is_utf8(s),
    decreases s.len(),
{
    if s.len() > 0 {
        assert(scalar_len_front(s) == 1);
        lemma_utf8_zeroes(s.skip(1));
    }
}

/// A sequence of bytes below `0x80` is well-formed UTF-8.
pub proof fn lemma_utf8_ascii(s: Seq<u8>)
    requires
        forall|j: int| 0 <= j < s.len() ==> s[j] < 0x80,
    ensures
        is_utf8(s),
    decreases s.len(),
{
    if s.len() > 0 {
        assert(scalar_len_front(s) == 1);
        lemma_utf8_ascii(s.skip(1));
    }
}

} // verus!
