//! Handles to Java strings, and the text that is borrowed from them.

use crate::chars::{decoded, JavaChars};
use crate::env::{referred, JavaEnv};
use crate::native::{jboolean, jobject, jsize, jstring, JNI_FALSE};
use crate::object::JObject;
use crate::reference::{Handle, NativeCall, RefType};
use crate::token::{Capability, JniResult};
use vstd::prelude::*;
use vstd::slice::slice_subrange;

verus! {

/// The length that the interface means by `n`: `n` itself, and for a
/// negative `n`, which no interface returns, what it is as an unsigned
/// number of the machine's word size.
pub open spec fn length_of(n: jsize) -> int {
    if n >= 0 {
        n as int
    } else {
        usize::MAX + 1 + n
    }
}

/// Reads a length that the interface returned.
fn length(n: jsize) -> (len: usize)
    ensures
        len == length_of(n),
{
    if n >= 0 {
        n as usize
    } else {
        let below: jsize = -(n + 1);
        usize::MAX - (below as usize)
    }
}

/// A handle to a Java string.
#[derive(Debug)]
pub struct JavaString {
    env: usize,
    ptr: jstring,
    rtype: RefType,
}

impl View for JavaString {
    type V = Handle;

    closed spec fn view(&self) -> Handle {
        Handle { env: self.env, ptr: self.ptr, rtype: self.rtype }
    }
}

impl JObject for JavaString {
    fn get_env(&self) -> (env: usize) {
        self.env
    }

    fn get_obj(&self) -> (obj: jobject) {
        self.ptr
    }

    fn ref_type(&self) -> (rtype: RefType) {
        self.rtype
    }

    fn from_unsafe_type(env: &JavaEnv, ptr: jobject, typ: RefType) -> (obj: JavaString) {
        JavaString { env: env.ptr(), ptr, rtype: typ }
    }
}

/// Text that the interface lent out of a string. It has to be given back:
/// [`JavaStringChars::release`] names the call.
#[derive(Debug)]
pub struct JavaStringChars {
    string: jstring,
    chars: usize,
}

/// What a borrowed text is: the string it was lent from, and the address
/// of the buffer.
pub struct CharsView {
    pub string: jstring,
    pub chars: usize,
}

impl View for JavaStringChars {
    type V = CharsView;

    closed spec fn view(&self) -> CharsView {
        CharsView { string: self.string, chars: self.chars }
    }
}

impl JavaStringChars {
    /// The borrowed text as a string, read from `lent`, the bytes of the
    /// buffer. `None` where the text is not UTF-8.
    pub fn to_str(&self, lent: &JavaChars) -> (text: Option<String>)
        ensures
            match decoded(lent@) {
                Some(chars) => text matches Some(s) && s@ == chars,
                None => text is None,
            },
    {
        lent.to_string()
    }

    /// Gives the text up. The result is the call that hands the buffer
    /// back to the string it was lent from.
    pub fn release(self) -> (call: NativeCall)
        ensures
            call == (NativeCall::ReleaseStringUTFChars { string: self@.string, chars: self@.chars }),
    {
        NativeCall::ReleaseStringUTFChars { string: self.string, chars: self.chars }
    }
}

impl JavaString {
    /// Ends a call of `NewStringUTF` that returned `created`.
    pub fn new(env: &mut JavaEnv, created: jstring, cap: Capability) -> (result: JniResult<
        JavaString,
    >)
        requires
            old(env)@.holds_capability(cap),
        ensures
            referred(old(env)@, final(env)@, created, RefType::Local, result),
    {
        env.refer(created, cap)
    }

    /// The number of UTF-16 code units in the string, which
    /// `GetStringLength` returned as `units`.
    pub fn len(&self, env: &JavaEnv, units: jsize, cap: &Capability) -> (len: usize)
        requires
            env@.holds_capability(*cap),
            env@.confines(self@),
        ensures
            len == length_of(units),
    {
        length(units)
    }

    /// The number of bytes in the encoded text of the string, which
    /// `GetStringUTFLength` returned as `bytes`. It is not the number of
    /// code units unless the text is ASCII.
    pub fn size(&self, bytes: jsize) -> (size: usize)
        ensures
            size == length_of(bytes),
    {
        length(bytes)
    }

    /// The text that `GetStringUTFChars` lent at address `chars`. The
    /// second part says whether the interface copied the text, which it
    /// reported in `is_copy`.
    pub fn chars(&self, chars: usize, is_copy: jboolean) -> (lent: (JavaStringChars, bool))
        ensures
            lent.0@ == (CharsView { string: self@.ptr, chars }),
            lent.1 == (is_copy != JNI_FALSE),
    {
        (JavaStringChars { string: self.ptr, chars }, is_copy != JNI_FALSE)
    }

    /// The text of the string. `GetStringUTFChars` lent it at address
    /// `chars`, and `lent` holds the bytes of that buffer. Whatever the
    /// text turns out to be, the second part is the call that gives the
    /// buffer back.
    pub fn to_str(&self, chars: usize, is_copy: jboolean, lent: &JavaChars) -> (result: (
        Option<String>,
        NativeCall,
    ))
        ensures
            match decoded(lent@) {
                Some(text) => result.0 matches Some(s) && s@ == text,
                None => result.0 is None,
            },
            result.1 == (NativeCall::ReleaseStringUTFChars { string: self@.ptr, chars }),
    {
        let (borrowed, _) = self.chars(chars, is_copy);
        let text = borrowed.to_str(lent);
        (text, borrowed.release())
    }

    /// The room that a buffer needs to take `length` code units of
    /// encoded text and the NUL after them: three bytes for each code
    /// unit, and one more. `None` where that is more than the machine
    /// can count.
    pub fn region_room(length: usize) -> (room: Option<usize>)
        ensures
            3 * length + 1 <= usize::MAX ==> room == Some((3 * length + 1) as usize),
            3 * length + 1 > usize::MAX ==> room is None,
    {
        match length.checked_mul(3) {
            None => None,
            Some(bytes) => bytes.checked_add(1),
        }
    }

    /// A part of the string's text in a buffer of its own.
    /// `GetStringUTFRegion` wrote the text of `length` code units to
    /// `written`; the result holds the first `length` bytes of it and a
    /// NUL after them.
    pub fn region(&self, length: usize, written: &[u8]) -> (buffer: JavaChars)
        requires
            length <= written@.len(),
        ensures
            buffer@ == written@.take(length as int).push(0),
    {
        JavaChars::from_slice(slice_subrange(written, 0, length))
    }
}

} // verus!
