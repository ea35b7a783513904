//! Text as the native interface reads it: bytes that end in a NUL.
//!
//! The interface takes and returns text as C strings. A [`JavaChars`] owns
//! such a buffer. Its text is what stands before the first NUL, as a reader
//! on the native side would see it.

use vstd::prelude::*;
use vstd::slice::slice_to_vec;
use vstd::utf8::*;

verus! {

/// The number of bytes of `buffer` before its first NUL, or the length of
/// `buffer` if it holds none.
pub open spec fn text_len(buffer: Seq<u8>) -> nat
    decreases buffer.len(),
{
    if buffer.len() == 0 || buffer[0] == 0 {
        0
    } else {
        1 + text_len(buffer.drop_first())
    }
}

/// The bytes of `buffer` before its first NUL.
pub open spec fn text_of(buffer: Seq<u8>) -> Seq<u8> {
    buffer.take(text_len(buffer) as int)
}

/// The characters that `buffer` spells, if its text is UTF-8.
pub open spec fn decoded(buffer: Seq<u8>) -> Option<Seq<char>> {
    if valid_utf8(text_of(buffer)) {
        Some(decode_utf8(text_of(buffer)))
    } else {
        None
    }
}

/// Whether `buffer` ends in a NUL.
pub open spec fn terminated(buffer: Seq<u8>) -> bool {
    buffer.len() > 0 && buffer.last() == 0
}

/// Whether the text of `buffer` ends at `end`: no NUL before it, and a NUL
/// or the end of the buffer at it.
pub open spec fn ends_text(buffer: Seq<u8>, end: int) -> bool {
    &&& 0 <= end <= buffer.len()
    &&& forall|j: int| 0 <= j < end ==> buffer[j] != 0
    &&& end < buffer.len() ==> buffer[end] == 0
}

/// The text of a buffer ends at exactly one place, and `text_len` names it.
pub proof fn lemma_text_len(buffer: Seq<u8>, end: int)
    ensures
        ends_text(buffer, text_len(buffer) as int),
        ends_text(buffer, end) ==> end == text_len(buffer),
    decreases buffer.len(),
{
    if buffer.len() == 0 || buffer[0] == 0 {
        if ends_text(buffer, end) && end > 0 {
            assert(buffer[0] != 0);
        }
    } else {
        let rest = buffer.drop_first();
        lemma_text_len(rest, end - 1);
        let n: int = text_len(rest) as int;
        assert forall|j: int| 0 <= j < n + 1 implies buffer[j] != 0 by {
            if j > 0 {
                assert(rest[j - 1] == buffer[j]);
            }
        }
        if n + 1 < buffer.len() {
            assert(rest[n] == buffer[n + 1]);
        }
        if ends_text(buffer, end) {
            assert(end > 0);
            assert forall|j: int| 0 <= j < end - 1 implies rest[j] != 0 by {
                assert(rest[j] == buffer[j + 1]);
            }
            if end - 1 < rest.len() {
                assert(rest[end - 1] == buffer[end]);
            }
            assert(ends_text(rest, end - 1));
        }
    }
}

/// Text that holds no NUL comes back from its buffer unchanged: the buffer
/// made of the UTF-8 bytes of `chars` and a NUL spells `chars`.
pub proof fn lemma_buffer_round_trip(chars: Seq<char>)
    requires
        !encode_utf8(chars).contains(0u8),
    ensures
        text_of(encode_utf8(chars).push(0)) == encode_utf8(chars),
        decoded(encode_utf8(chars).push(0)) == Some(chars),
{
    let bytes = encode_utf8(chars);
    let buffer = bytes.push(0);
    assert forall|j: int| 0 <= j < bytes.len() implies buffer[j] != 0 by {
        assert(buffer[j] == bytes[j]);
        assert(bytes.contains(bytes[j]));
    }
    assert(ends_text(buffer, bytes.len() as int));
    lemma_text_len(buffer, bytes.len() as int);
    assert(text_of(buffer) =~= bytes);
    encode_utf8_valid_utf8(chars);
    encode_utf8_decode_utf8(chars);
}

/// ASCII text without a NUL takes one byte for each character, none of
/// them a NUL, and comes back from its buffer unchanged.
pub proof fn lemma_ascii_round_trip(chars: Seq<char>)
    requires
        is_ascii_chars(chars),
        forall|i: int| 0 <= i < chars.len() ==> chars[i] != '\0',
    ensures
        encode_utf8(chars).len() == chars.len(),
        !encode_utf8(chars).contains(0u8),
        decoded(encode_utf8(chars).push(0)) == Some(chars),
{
    let bytes = encode_utf8(chars);
    is_ascii_chars_encode_utf8(chars);
    assert forall|i: int| 0 <= i < bytes.len() implies bytes[i] != 0 by {
        let c = chars[i];
        assert('\0' <= c <= '\u{7f}');
        assert(c != '\0');
        assert(bytes[i] == c as u8);
    }
    lemma_buffer_round_trip(chars);
}

/// `String::from_utf8` of std, with the error dropped: `Some` exactly when
/// `bytes` is valid UTF-8, and then a string whose bytes are `bytes`.
#[verifier::external_body]
fn string_from_utf8(bytes: Vec<u8>) -> (string: Option<String>)
    ensures
        string is Some <==> valid_utf8(bytes@),
        string matches Some(s) ==> encode_utf8(s@) == bytes@,
{
    String::from_utf8(bytes).ok()
}

/// Whether two pieces of text are the same characters.
pub(crate) fn same_text(a: &str, b: &str) -> (same: bool)
    ensures
        same == (a@ == b@),
{
    let x = a.as_bytes();
    let y = b.as_bytes();
    proof {
        // the characters are what the bytes decode to
        encode_utf8_decode_utf8(a@);
        encode_utf8_decode_utf8(b@);
    }
    if x.len() != y.len() {
        return false;
    }
    let mut i: usize = 0;
    while i < x.len()
        invariant
            i <= x.len(),
            x.len() == y.len(),
            x@ == encode_utf8(a@),
            y@ == encode_utf8(b@),
            forall|j: int| 0 <= j < i ==> x@[j] == y@[j],
        decreases x.len() - i,
    {
        if x[i] != y[i] {
            return false;
        }
        i = i + 1;
    }
    assert(x@ =~= y@);
    true
}

/// A buffer of bytes that ends in a NUL.
///
/// Text goes into the buffer as UTF-8. For text without a NUL and without
/// characters beyond the Basic Multilingual Plane that is the encoding
/// which the interface reads and writes; for other text the two differ,
/// and text that the interface wrote may not decode.
#[derive(Debug)]
pub struct JavaChars {
    contents: Vec<u8>,
}

impl View for JavaChars {
    type V = Seq<u8>;

    closed spec fn view(&self) -> Seq<u8> {
        self.contents@
    }
}

impl JavaChars {
    #[verifier::type_invariant]
    spec fn ends_in_nul(&self) -> bool {
        terminated(self.contents@)
    }

    /// The buffer for `text`: its UTF-8 bytes and a NUL.
    pub fn new(text: &str) -> (chars: JavaChars)
        ensures
            chars@ == encode_utf8(text@).push(0),
    {
        JavaChars::from_slice(text.as_bytes())
    }

    /// The buffer that holds `bytes` and a NUL after them.
    pub fn from_slice(bytes: &[u8]) -> (chars: JavaChars)
        ensures
            chars@ == bytes@.push(0),
    {
        let mut contents = slice_to_vec(bytes);
        contents.push(0);
        JavaChars { contents }
    }

    /// Takes over a buffer that the native side filled. `None` where
    /// `bytes` does not end in a NUL.
    pub fn from_raw_vec(bytes: Vec<u8>) -> (chars: Option<JavaChars>)
        ensures
            terminated(bytes@) ==> (chars matches Some(c) && c@ == bytes@),
            !terminated(bytes@) ==> chars is None,
    {
        let n: usize = bytes.len();
        if n > 0 && bytes[n - 1] == 0 {
            Some(JavaChars { contents: bytes })
        } else {
            None
        }
    }

    /// The bytes of the buffer, the final NUL included.
    pub fn as_slice(&self) -> (bytes: &[u8])
        ensures
            bytes@ == self@,
            terminated(bytes@),
    {
        proof {
            use_type_invariant(self);
        }
        self.contents.as_slice()
    }

    /// The text of the buffer as a string. `None` where the text is not
    /// UTF-8.
    pub fn to_string(&self) -> (text: Option<String>)
        ensures
            match decoded(self@) {
                Some(chars) => text matches Some(s) && s@ == chars,
                None => text is None,
            },
    {
        let mut end: usize = 0;
        while end < self.contents.len() && self.contents[end] != 0
            invariant
                end <= self.contents.len(),
                forall|j: int| 0 <= j < end ==> self.contents@[j] != 0,
            decreases self.contents.len() - end,
        {
            end = end + 1;
        }
        proof {
            lemma_text_len(self@, end as int);
        }
        let mut bytes = slice_to_vec(self.contents.as_slice());
        bytes.truncate(end);
        assert(bytes@ == text_of(self@));
        let text = string_from_utf8(bytes);
        proof {
            if text is Some {
                encode_utf8_decode_utf8(text->0@);
            }
        }
        text
    }
}

} // verus!
