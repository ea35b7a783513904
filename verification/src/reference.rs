//! The three ownership classes of a reference, and how each is released.
//!
//! The native interface hands out local, global and weak global
//! references. Each class has a release function of its own, and handing
//! a reference to the release function of another class is undefined
//! behaviour. [`RefType::release_of`] says which call releases which
//! class, and every handle is released through it.

use crate::native::{jobject, jstring};
use vstd::prelude::*;

verus! {

/// The ownership class of a reference.
#[derive(Debug, Clone, Copy, PartialEq, Eq, Structural)]
pub enum RefType {
    /// Valid in the current frame of the thread that made it.
    Local,
    /// Valid in every thread until it is released.
    Global,
    /// Like `Global`, but does not keep the object alive.
    Weak,
}

/// What a handle holds: the environment that made it, the raw reference,
/// and the ownership class of that reference.
#[derive(Debug, Clone, Copy, PartialEq, Eq, Structural)]
pub struct Handle {
    /// The address of the environment that made the handle.
    pub env: usize,
    /// The raw reference.
    pub ptr: jobject,
    /// The ownership class of `ptr`.
    pub rtype: RefType,
}

/// A native call that the caller of this crate has to make.
///
/// These are the calls whose result decides nothing: the crate says
/// which call is due and with which arguments, the caller makes it.
#[derive(Debug, Clone, Copy, PartialEq, Eq, Structural)]
pub enum NativeCall {
    /// Print the pending exception to the error stream.
    ExceptionDescribe,
    /// Pop the current local frame; `result` survives in the frame below.
    PopLocalFrame { result: jobject },
    /// Release the local reference `obj`.
    DeleteLocalRef { obj: jobject },
    /// Release the global reference `obj`.
    DeleteGlobalRef { obj: jobject },
    /// Release the weak global reference `obj`.
    DeleteWeakGlobalRef { obj: jobject },
    /// Give back the text buffer at address `chars` that was borrowed
    /// from `string`.
    ReleaseStringUTFChars { string: jstring, chars: usize },
}

impl NativeCall {
    /// The class and the reference that this call releases, if it releases
    /// a reference.
    pub open spec fn released(self) -> Option<(RefType, jobject)> {
        match self {
            NativeCall::DeleteLocalRef { obj } => Some((RefType::Local, obj)),
            NativeCall::DeleteGlobalRef { obj } => Some((RefType::Global, obj)),
            NativeCall::DeleteWeakGlobalRef { obj } => Some((RefType::Weak, obj)),
            _ => None,
        }
    }
}

impl RefType {
    /// The call that releases the reference `obj` of this class.
    pub open spec fn release_of(self, obj: jobject) -> NativeCall {
        match self {
            RefType::Local => NativeCall::DeleteLocalRef { obj },
            RefType::Global => NativeCall::DeleteGlobalRef { obj },
            RefType::Weak => NativeCall::DeleteWeakGlobalRef { obj },
        }
    }

    /// Releasing a reference is one call, the one of its own class on that
    /// reference: it releases nothing else, and it is never the call by
    /// which another class releases anything.
    pub proof fn lemma_release_matches_class(self, obj: jobject, other: RefType, any: jobject)
        ensures
            self.release_of(obj).released() == Some((self, obj)),
            other != self ==> self.release_of(obj) != other.release_of(any),
            self == RefType::Local <==> self.release_of(obj) == (NativeCall::DeleteLocalRef { obj }),
            self == RefType::Global <==> self.release_of(obj) == (NativeCall::DeleteGlobalRef { obj }),
            self == RefType::Weak <==> self.release_of(obj) == (NativeCall::DeleteWeakGlobalRef {
                obj,
            }),
    {
    }
}

} // verus!
