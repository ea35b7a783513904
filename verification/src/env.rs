//! The environment: one thread's side of the native interface.
//!
//! A [`JavaEnv`] stands for the interface pointer of one attached thread.
//! It owns the exception protocol of that thread: it knows which token is
//! live, issues the next one when a call ends, and accepts no other.
//!
//! No function here calls the native interface. Each one is the part of an
//! operation that decides: it takes what the native call returned and says
//! what the caller has now.

use crate::chars::JavaChars;
use crate::native::{jboolean, jclass, jint, jobject, jthrowable, yes, JniError, JniVersion};
use crate::native::{JNI_FALSE, JNI_TRUE, NULL};
use crate::object::{JObject, JavaClass, JavaObject, JavaThrowable};
use crate::reference::{Handle, NativeCall, RefType};
use crate::token::{Capability, Exception, JniResult, Stamp, TokenState};
use std::marker::PhantomData;
use std::rc::Rc;
use vstd::prelude::*;
use vstd::utf8::encode_utf8;

verus! {

/// What an environment is, to the contracts of this crate.
pub struct EnvView {
    /// The address of the interface pointer.
    pub ptr: usize,
    /// Whether closing the environment detaches the thread.
    pub detach: bool,
    /// The version that was asked of the runtime.
    pub version: JniVersion,
    /// Which token is live. With the exception token live an exception
    /// may be pending, and nothing but clearing leads on.
    pub state: TokenState,
    /// The serial number of the live token.
    pub issued: nat,
}

impl EnvView {
    /// The environment of a thread that has just been attached.
    pub open spec fn fresh(ptr: usize, detach: bool, version: JniVersion) -> EnvView {
        EnvView { ptr, detach, version, state: TokenState::HasCapability, issued: 1 }
    }

    /// The stamp of the one token that this environment accepts.
    pub open spec fn live(self) -> Stamp {
        Stamp::Issued { env: self.ptr, serial: self.issued }
    }

    /// Whether `cap` is the live token.
    pub open spec fn holds_capability(self, cap: Capability) -> bool {
        self.state == TokenState::HasCapability && cap@ == self.live()
    }

    /// Whether `exn` is the live token.
    pub open spec fn holds_exception(self, exn: Exception) -> bool {
        self.state == TokenState::HasException && exn@ == self.live()
    }

    /// This environment after it has issued its next token, of kind `state`.
    pub open spec fn next(self, state: TokenState) -> EnvView {
        EnvView { state, issued: self.issued + 1, ..self }
    }

    /// The environment that `later` is after some tokens have been issued.
    pub open spec fn precedes(self, later: EnvView) -> bool {
        self.ptr == later.ptr && self.issued < later.issued
    }

    /// Whether a handle may be used in this environment: a local reference
    /// only where it was made.
    pub open spec fn confines(self, handle: Handle) -> bool {
        handle.rtype == RefType::Local ==> handle.env == self.ptr
    }

    /// The handle of a local reference that this environment made.
    pub open spec fn local(self, ptr: jobject) -> Handle {
        Handle { env: self.ptr, ptr, rtype: RefType::Local }
    }
}

/// The environment of one attached thread.
///
/// The interface pointer behind it is good in one thread only, so an
/// environment can neither be sent to another thread nor shared with one.
pub struct JavaEnv {
    ptr: usize,
    detach: bool,
    version: JniVersion,
    state: TokenState,
    issued: Ghost<nat>,
    confined: PhantomData<Rc<()>>,
}

impl View for JavaEnv {
    type V = EnvView;

    closed spec fn view(&self) -> EnvView {
        EnvView {
            ptr: self.ptr,
            detach: self.detach,
            version: self.version,
            state: self.state,
            issued: self.issued@,
        }
    }
}

/// Whether `result` and the environment `post` are what a call leaves that
/// consumed the live capability of `pre` and ended with `status`.
pub open spec fn settled(
    pre: EnvView,
    post: EnvView,
    status: JniError,
    result: Result<Capability, (JniError, Exception)>,
) -> bool {
    if status == JniError::JNI_OK {
        &&& post == pre.next(TokenState::HasCapability)
        &&& result matches Ok(cap)
        &&& post.holds_capability(cap)
    } else {
        &&& post == pre.next(TokenState::HasException)
        &&& result matches Err((code, exn))
        &&& code == status
        &&& post.holds_exception(exn)
    }
}

/// Whether `result` and the environment `post` are what an attempt to throw
/// leaves that consumed the live capability of `pre` and ended with `status`.
pub open spec fn thrown(
    pre: EnvView,
    post: EnvView,
    status: JniError,
    result: Result<Exception, JniError>,
) -> bool {
    if status == JniError::JNI_OK {
        &&& post == pre.next(TokenState::HasException)
        &&& result matches Ok(exn)
        &&& post.holds_exception(exn)
    } else {
        &&& post == pre.next(TokenState::HasCapability)
        &&& result == Err::<Exception, JniError>(status)
    }
}

/// Whether `result` and the environment `post` are what a call leaves that
/// consumed the live capability of `pre` and returned the reference
/// `reply`, to be held under the class `rtype`: the exception token where
/// `reply` is null, else the handle and a fresh capability.
pub open spec fn referred<T: View<V = Handle>>(
    pre: EnvView,
    post: EnvView,
    reply: jobject,
    rtype: RefType,
    result: JniResult<T>,
) -> bool {
    if reply == NULL {
        &&& post == pre.next(TokenState::HasException)
        &&& result matches Err(exn)
        &&& post.holds_exception(exn)
    } else {
        &&& post == pre.next(TokenState::HasCapability)
        &&& result matches Ok((obj, cap))
        &&& obj@ == (Handle { env: pre.ptr, ptr: reply, rtype })
        &&& post.holds_capability(cap)
    }
}

/// Whether `result` and the environment `post` are what the question
/// "is an exception pending?" leaves when the interface answered `pending`.
pub open spec fn checked(
    pre: EnvView,
    post: EnvView,
    pending: jboolean,
    result: Result<Capability, Exception>,
) -> bool {
    if yes(pending) {
        &&& post == pre.next(TokenState::HasException)
        &&& result matches Err(exn)
        &&& post.holds_exception(exn)
    } else {
        &&& post == pre.next(TokenState::HasCapability)
        &&& result matches Ok(cap)
        &&& post.holds_capability(cap)
    }
}

/// Whether `result` and the environment `post` are what the question
/// "which exception is pending?" leaves when the interface answered with
/// the reference `pending`.
pub open spec fn occurred(
    pre: EnvView,
    post: EnvView,
    pending: jthrowable,
    result: Result<Capability, (JavaThrowable, Exception)>,
) -> bool {
    if pending == NULL {
        &&& post == pre.next(TokenState::HasCapability)
        &&& result matches Ok(cap)
        &&& post.holds_capability(cap)
    } else {
        &&& post == pre.next(TokenState::HasException)
        &&& result matches Err((obj, exn))
        &&& obj@ == pre.local(pending)
        &&& post.holds_exception(exn)
    }
}

/// What is left to do when an environment is closed.
#[derive(Debug, Clone, Copy, PartialEq, Eq, Structural)]
pub enum Teardown {
    /// An exception is still pending. Describe it, clear it, and abort:
    /// the program lost track of an exception.
    Abort,
    /// Look up the runtime of this environment with `GetJavaVM` and
    /// detach the current thread from it with `DetachCurrentThread`.
    /// [`Teardown::looked_up`] and [`Teardown::detached`] read the two
    /// statuses: a failure of either call is fatal.
    Detach,
    /// Nothing: the thread was attached before this environment was made.
    Done,
}

/// A failure after which the runtime is in no state to go on with. The
/// caller reports it and aborts.
#[derive(Debug, Clone, Copy, PartialEq, Eq, Structural)]
pub enum Fatal {
    /// `GetJavaVM` failed with this status: the runtime of an environment
    /// that has to detach its thread cannot be found.
    GetJavaVM(JniError),
    /// `DetachCurrentThread` failed with this status.
    DetachCurrentThread(JniError),
    /// `DestroyJavaVM` failed with this status.
    DestroyJavaVM(JniError),
}

impl Teardown {
    /// Ends the call of `GetJavaVM` that [`Teardown::Detach`] asks for
    /// first. On success the thread is detached next; a failure is fatal.
    pub fn looked_up(status: JniError) -> (result: Result<(), Fatal>)
        ensures
            status == JniError::JNI_OK ==> result == Ok::<(), Fatal>(()),
            status != JniError::JNI_OK ==> result == Err::<(), Fatal>(Fatal::GetJavaVM(status)),
    {
        match status {
            JniError::JNI_OK => Ok(()),
            _ => Err(Fatal::GetJavaVM(status)),
        }
    }

    /// Ends the call of `DetachCurrentThread` that [`Teardown::Detach`]
    /// asks for last. A failure is fatal.
    pub fn detached(status: JniError) -> (result: Result<(), Fatal>)
        ensures
            status == JniError::JNI_OK ==> result == Ok::<(), Fatal>(()),
            status != JniError::JNI_OK ==> result == Err::<(), Fatal>(
                Fatal::DetachCurrentThread(status),
            ),
    {
        match status {
            JniError::JNI_OK => Ok(()),
            _ => Err(Fatal::DetachCurrentThread(status)),
        }
    }
}

/// Why a version that the interface reported is refused.
#[derive(Debug, Clone, Copy, PartialEq, Eq, Structural)]
pub enum VersionFault {
    /// The integer names no released version.
    Unsupported { raw: jint },
    /// The runtime reports an older version than was asked of it.
    BelowRequested { reported: JniVersion },
}

impl EnvView {
    /// How this environment reads the version `raw` that the interface
    /// reported: the version it names, unless it names none or one older
    /// than the version that was asked of the runtime.
    pub open spec fn reads_version(self, raw: int) -> Result<JniVersion, VersionFault> {
        match JniVersion::decode(raw) {
            None => Err(VersionFault::Unsupported { raw: raw as jint }),
            Some(reported) => if reported.meets(self.version) {
                Ok(reported)
            } else {
                Err(VersionFault::BelowRequested { reported })
            },
        }
    }

    /// What is left to do when this environment is closed and the
    /// interface answers `pending` to "is an exception pending?".
    pub open spec fn teardown(self, pending: jboolean) -> Teardown {
        if yes(pending) {
            Teardown::Abort
        } else if self.detach {
            Teardown::Detach
        } else {
            Teardown::Done
        }
    }

    /// This environment after it was closed with the answer `pending`.
    pub open spec fn after_close(self, pending: jboolean) -> EnvView {
        if yes(pending) {
            self.next(TokenState::HasException).next(TokenState::HasCapability)
        } else {
            EnvView { detach: false, ..self.next(TokenState::HasCapability) }
        }
    }

    /// Clearing always leads back. From any state with a pending
    /// exception, clearing gives a state whose live token is a capability;
    /// the exception token is spent; and when the interface is asked next
    /// and answers that nothing is pending, as it does after a clear, the
    /// answer comes with a capability again.
    pub proof fn lemma_clear_round_trip(
        self,
        exn: Exception,
        cap: Capability,
        after: EnvView,
        answer: Result<Capability, Exception>,
    )
        requires
            self.holds_exception(exn),
        ensures
            self.next(TokenState::HasCapability).state == TokenState::HasCapability,
            cap@ == self.next(TokenState::HasCapability).live() ==> self.next(
                TokenState::HasCapability,
            ).holds_capability(cap),
            !self.next(TokenState::HasCapability).holds_exception(exn),
            checked(self.next(TokenState::HasCapability), after, JNI_FALSE, answer) ==> answer is Ok
                && after.state == TokenState::HasCapability,
    {
    }

    /// At most one token is live. Two tokens that an environment holds
    /// carry the same stamp, no environment holds a capability and an
    /// exception at once, and none holds a token made out of nothing.
    pub proof fn lemma_one_live_token(self, a: Capability, b: Capability, x: Exception, y: Exception)
        ensures
            self.holds_capability(a) && self.holds_capability(b) ==> a@ == b@,
            self.holds_exception(x) && self.holds_exception(y) ==> x@ == y@,
            !(self.holds_capability(a) && self.holds_exception(x)),
            a@ == Stamp::Unbound ==> !self.holds_capability(a),
            x@ == Stamp::Unbound ==> !self.holds_exception(x),
    {
    }

    /// A token is good for one call. Issuing a token makes every earlier
    /// state precede the new one, `precedes` is transitive, and a token
    /// that was live in a preceding state is refused: after any number of
    /// calls that issue a token, only the last one issued is accepted.
    pub proof fn lemma_spent_token_is_refused(
        self,
        state: TokenState,
        later: EnvView,
        last: EnvView,
        cap: Capability,
        exn: Exception,
    )
        ensures
            self.precedes(self.next(state)),
            self.precedes(later) && later.precedes(last) ==> self.precedes(last),
            self.precedes(later) && self.holds_capability(cap) ==> !later.holds_capability(cap),
            self.precedes(later) && self.holds_exception(exn) ==> !later.holds_exception(exn),
    {
    }

    /// The calls of one thread that issue a token stand in a strict total
    /// order, the order of their serial numbers: no state precedes
    /// itself, and of two states of one environment with different serial
    /// numbers one precedes the other.
    pub proof fn lemma_calls_are_ordered(self, other: EnvView)
        ensures
            !self.precedes(self),
            !(self.precedes(other) && other.precedes(self)),
            self.ptr == other.ptr && self.issued != other.issued ==> self.precedes(other)
                || other.precedes(self),
    {
    }

    /// An environment never reports a version below the one that was asked
    /// of the runtime: what it reads is the version that the integer names,
    /// and it meets the floor.
    pub proof fn lemma_version_floor(self, raw: int)
        ensures
            self.reads_version(raw) matches Ok(version) ==> version.code() == raw && version.meets(
                self.version,
            ),
            self.reads_version(raw) is Ok <==> (JniVersion::decode(raw) matches Some(v) && v.meets(
                self.version,
            )),
    {
    }
}

impl JavaEnv {
    /// The environment of a thread that has just been attached, with its
    /// first capability.
    pub(crate) fn attached(ptr: usize, detach: bool, version: JniVersion) -> (made: (
        JavaEnv,
        Capability,
    ))
        ensures
            made.0@ == EnvView::fresh(ptr, detach, version),
            made.0@.holds_capability(made.1),
    {
        let env = JavaEnv {
            ptr,
            detach,
            version,
            state: TokenState::HasCapability,
            issued: Ghost(1),
            confined: PhantomData,
        };
        let cap = Capability::issue(Ghost(ptr), Ghost(1));
        (env, cap)
    }

    /// The address of the interface pointer.
    pub fn ptr(&self) -> (ptr: usize)
        ensures
            ptr == self@.ptr,
    {
        self.ptr
    }

    /// Whether closing this environment detaches the thread.
    pub fn detaches(&self) -> (detach: bool)
        ensures
            detach == self@.detach,
    {
        self.detach
    }

    /// The version that was asked of the runtime.
    pub fn requested_version(&self) -> (version: JniVersion)
        ensures
            version == self@.version,
    {
        self.version
    }

    /// Which token is live.
    pub fn state(&self) -> (state: TokenState)
        ensures
            state == self@.state,
    {
        self.state
    }

    /// Issues the next token as a capability.
    pub(crate) fn grant(&mut self) -> (cap: Capability)
        ensures
            final(self)@ == old(self)@.next(TokenState::HasCapability),
            final(self)@.holds_capability(cap),
    {
        self.issued = Ghost(self.issued@ + 1);
        self.state = TokenState::HasCapability;
        Capability::issue(Ghost(self.ptr), self.issued)
    }

    /// Issues the next token as an exception.
    pub(crate) fn raise(&mut self) -> (exn: Exception)
        ensures
            final(self)@ == old(self)@.next(TokenState::HasException),
            final(self)@.holds_exception(exn),
    {
        self.issued = Ghost(self.issued@ + 1);
        self.state = TokenState::HasException;
        Exception::issue(Ghost(self.ptr), self.issued)
    }

    /// Ends a call that took the capability and returned `status`.
    fn settle(&mut self, status: JniError, cap: Capability) -> (result: Result<
        Capability,
        (JniError, Exception),
    >)
        requires
            old(self)@.holds_capability(cap),
        ensures
            settled(old(self)@, final(self)@, status, result),
    {
        match status {
            JniError::JNI_OK => Ok(self.grant()),
            _ => Err((status, self.raise())),
        }
    }

    /// Asks whether an exception is pending. `pending` is what
    /// `ExceptionCheck` answered. Always legal: it needs no token, and it
    /// issues one, so that a token held until now is spent.
    pub fn exception_check(&mut self, pending: jboolean) -> (result: Result<Capability, Exception>)
        ensures
            checked(old(self)@, final(self)@, pending, result),
    {
        if pending == JNI_TRUE {
            Err(self.raise())
        } else {
            Ok(self.grant())
        }
    }

    /// Ends the pending exception: `ExceptionClear` has cleared it, and
    /// the exception token becomes a capability. This cannot fail.
    pub fn exception_clear(&mut self, exn: Exception) -> (cap: Capability)
        requires
            old(self)@.holds_exception(exn),
        ensures
            final(self)@ == old(self)@.next(TokenState::HasCapability),
            final(self)@.holds_capability(cap),
    {
        self.grant()
    }

    /// Ends a call of `PushLocalFrame` that returned `status`.
    pub fn push_local_frame(&mut self, status: JniError, cap: Capability) -> (result: Result<
        Capability,
        (JniError, Exception),
    >)
        requires
            old(self)@.holds_capability(cap),
        ensures
            settled(old(self)@, final(self)@, status, result),
    {
        self.settle(status, cap)
    }

    /// Ends a call of `EnsureLocalCapacity` that returned `status`.
    pub fn ensure_local_capacity(&mut self, status: JniError, cap: Capability) -> (result: Result<
        Capability,
        (JniError, Exception),
    >)
        requires
            old(self)@.holds_capability(cap),
        ensures
            settled(old(self)@, final(self)@, status, result),
    {
        self.settle(status, cap)
    }

    /// Ends a call that took the capability and returned the local
    /// reference `reply`.
    pub(crate) fn refer<T: JObject>(&mut self, reply: jobject, cap: Capability) -> (result: JniResult<T>)
        requires
            old(self)@.holds_capability(cap),
        ensures
            referred(old(self)@, final(self)@, reply, RefType::Local, result),
    {
        if reply == NULL {
            Err(self.raise())
        } else {
            let obj = T::from_unsafe(self, reply);
            Ok((obj, self.grant()))
        }
    }

    /// Ends a call that took the capability, tried to throw, and returned
    /// `status`.
    fn throwing(&mut self, status: JniError, cap: Capability) -> (result: Result<
        Exception,
        JniError,
    >)
        requires
            old(self)@.holds_capability(cap),
        ensures
            thrown(old(self)@, final(self)@, status, result),
    {
        match status {
            JniError::JNI_OK => Ok(self.raise()),
            _ => {
                let _ = self.grant();
                Err(status)
            },
        }
    }

    /// Reads the version that `GetVersion` reported, and refuses it where
    /// it names no released version or one below the version that was
    /// asked of the runtime.
    pub fn check_version(&self, reported: jint) -> (result: Result<JniVersion, VersionFault>)
        ensures
            result == self@.reads_version(reported as int),
    {
        match JniVersion::from_raw(reported) {
            None => Err(VersionFault::Unsupported { raw: reported }),
            Some(version) => if version.at_least(self.version) {
                Ok(version)
            } else {
                Err(VersionFault::BelowRequested { reported: version })
            },
        }
    }

    /// The version of the interface, which `GetVersion` reported as
    /// `reported`. It is the version that was asked of the runtime or a
    /// later one. A runtime that reports anything else broke its contract:
    /// `check_version` tells, and the caller must not go on with it.
    pub fn version(&self, reported: jint, cap: &Capability) -> (version: JniVersion)
        requires
            self@.holds_capability(*cap),
            self@.reads_version(reported as int) is Ok,
        ensures
            self@.reads_version(reported as int) == Ok::<JniVersion, VersionFault>(version),
            version.code() == reported,
            version.meets(self@.version),
    {
        match self.check_version(reported) {
            Ok(version) => version,
            Err(_) => vstd::pervasive::unreached(),
        }
    }

    /// Ends a call of `DefineClass` with the class loader `loader` that
    /// returned `defined`.
    pub fn define_class<T: JObject>(&mut self, loader: &T, defined: jclass, cap: Capability) -> (result:
        JniResult<JavaClass>)
        requires
            old(self)@.holds_capability(cap),
            old(self)@.confines(loader@),
        ensures
            referred(old(self)@, final(self)@, defined, RefType::Local, result),
    {
        self.refer(defined, cap)
    }

    /// Ends a call of `FindClass` that returned `found`.
    pub fn find_class(&mut self, found: jclass, cap: Capability) -> (result: JniResult<JavaClass>)
        requires
            old(self)@.holds_capability(cap),
        ensures
            referred(old(self)@, final(self)@, found, RefType::Local, result),
    {
        self.refer(found, cap)
    }

    /// The superclass of `sub`, which `GetSuperclass` returned as
    /// `superclass`: `None` where that is null.
    pub fn get_super_class(&self, sub: &JavaClass, superclass: jclass, cap: &Capability) -> (result:
        Option<JavaClass>)
        requires
            self@.holds_capability(*cap),
            self@.confines(sub@),
        ensures
            superclass == NULL ==> result is None,
            superclass != NULL ==> (result matches Some(class) && class@ == self@.local(
                superclass,
            )),
    {
        JObject::from(self, superclass)
    }

    /// Whether an object of class `sub` can be assigned where `sup` is
    /// expected, which `IsAssignableFrom` answered with `answer`.
    pub fn is_assignable_from(
        &self,
        sub: &JavaClass,
        sup: &JavaClass,
        answer: jboolean,
        cap: &Capability,
    ) -> (assignable: bool)
        requires
            self@.holds_capability(*cap),
            self@.confines(sub@),
            self@.confines(sup@),
        ensures
            assignable == yes(answer),
    {
        answer == JNI_TRUE
    }

    /// Ends a call of `Throw` on `obj` that returned `status`. On success
    /// an exception is pending. On failure the capability is gone and no
    /// token comes back: ask with `exception_check` for the next one.
    pub fn throw(&mut self, obj: &JavaThrowable, status: JniError, cap: Capability) -> (result:
        Result<Exception, JniError>)
        requires
            old(self)@.holds_capability(cap),
            old(self)@.confines(obj@),
        ensures
            thrown(old(self)@, final(self)@, status, result),
    {
        self.throwing(status, cap)
    }

    /// Ends a call of `ThrowNew` with the class `clazz` that returned
    /// `status`. See `throw`.
    pub fn throw_new(&mut self, clazz: &JavaClass, status: JniError, cap: Capability) -> (result:
        Result<Exception, JniError>)
        requires
            old(self)@.holds_capability(cap),
            old(self)@.confines(clazz@),
        ensures
            thrown(old(self)@, final(self)@, status, result),
    {
        self.throwing(status, cap)
    }

    /// Asks which exception is pending. `pending` is the reference that
    /// `ExceptionOccurred` returned, null for none. Always legal: it needs
    /// no token, and it issues one.
    pub fn exception_occured(&mut self, pending: jthrowable) -> (result: Result<
        Capability,
        (JavaThrowable, Exception),
    >)
        ensures
            occurred(old(self)@, final(self)@, pending, result),
    {
        if pending == NULL {
            Ok(self.grant())
        } else {
            let obj = JavaThrowable::from_unsafe(self, pending);
            Err((obj, self.raise()))
        }
    }

    /// The call that prints the pending exception. It is legal only
    /// while one is pending, so it asks for the exception token.
    pub fn exception_describe(&self, exn: &Exception) -> (call: NativeCall)
        requires
            self@.holds_exception(*exn),
        ensures
            call == NativeCall::ExceptionDescribe,
    {
        NativeCall::ExceptionDescribe
    }

    /// The message to hand to `FatalError`: the bytes of `msg` and a NUL.
    /// That call does not return.
    pub fn fatal_error(&self, msg: &str) -> (buffer: JavaChars)
        ensures
            buffer@ == encode_utf8(msg@).push(0),
    {
        JavaChars::new(msg)
    }

    /// The call that pops the current local frame and carries no
    /// reference out of it.
    pub fn pop_local_frame_null(&self, cap: &Capability) -> (call: NativeCall)
        requires
            self@.holds_capability(*cap),
        ensures
            call == (NativeCall::PopLocalFrame { result: NULL }),
    {
        NativeCall::PopLocalFrame { result: NULL }
    }

    /// The handle that survives a popped local frame. `PopLocalFrame` was
    /// called with `result` to carry out and returned `popped`, the
    /// reference to the same object in the frame below. The interface
    /// never returns null there; the caller must not go on if it did.
    pub fn pop_local_frame<T: JObject>(&self, result: &T, popped: jobject, cap: &Capability) -> (carried:
        T)
        requires
            self@.holds_capability(*cap),
            self@.confines(result@),
            popped != NULL,
        ensures
            carried@ == self@.local(popped),
    {
        T::from_unsafe(self, popped)
    }

    /// Whether two handles refer to the same object, which `IsSameObject`
    /// answered with `answer`.
    pub fn is_same_object<T1: JObject, T2: JObject>(
        &self,
        obj1: &T1,
        obj2: &T2,
        answer: jboolean,
        cap: &Capability,
    ) -> (same: bool)
        requires
            self@.holds_capability(*cap),
            self@.confines(obj1@),
            self@.confines(obj2@),
        ensures
            same == yes(answer),
    {
        answer == JNI_TRUE
    }

    /// Whether a handle refers to nothing. `answer` is what `IsSameObject`
    /// said of the reference and null.
    pub fn is_null<T: JObject>(&self, obj1: &T, answer: jboolean, cap: &Capability) -> (null: bool)
        requires
            self@.holds_capability(*cap),
            self@.confines(obj1@),
        ensures
            null == yes(answer),
    {
        answer == JNI_TRUE
    }

    /// The call that releases the local reference of `handle`. Only a
    /// local reference may be handed to it.
    pub(crate) fn delete_local_ref(&self, handle: Handle) -> (call: NativeCall)
        requires
            handle.rtype == RefType::Local,
            self@.confines(handle),
        ensures
            call == (NativeCall::DeleteLocalRef { obj: handle.ptr }),
    {
        NativeCall::DeleteLocalRef { obj: handle.ptr }
    }

    /// The call that releases the global reference of `handle`. Only a
    /// global reference may be handed to it.
    pub(crate) fn delete_global_ref(&self, handle: Handle) -> (call: NativeCall)
        requires
            handle.rtype == RefType::Global,
        ensures
            call == (NativeCall::DeleteGlobalRef { obj: handle.ptr }),
    {
        NativeCall::DeleteGlobalRef { obj: handle.ptr }
    }

    /// The call that releases the weak global reference of `handle`.
    /// Only a weak global reference may be handed to it.
    pub(crate) fn delete_weak_ref(&self, handle: Handle) -> (call: NativeCall)
        requires
            handle.rtype == RefType::Weak,
        ensures
            call == (NativeCall::DeleteWeakGlobalRef { obj: handle.ptr }),
    {
        NativeCall::DeleteWeakGlobalRef { obj: handle.ptr }
    }

    /// Ends a call of `AllocObject` with the class `clazz` that returned
    /// `allocated`.
    pub fn alloc_object(&mut self, clazz: &JavaClass, allocated: jobject, cap: Capability) -> (result:
        JniResult<JavaObject>)
        requires
            old(self)@.holds_capability(cap),
            old(self)@.confines(clazz@),
        ensures
            referred(old(self)@, final(self)@, allocated, RefType::Local, result),
    {
        self.refer(allocated, cap)
    }

    /// The status that `MonitorEnter` returned for `obj`. Entering a
    /// monitor raises nothing, so the capability is only borrowed.
    pub fn monitor_enter<T: JObject>(&self, obj: &T, status: JniError, cap: &Capability) -> (result:
        JniError)
        requires
            self@.holds_capability(*cap),
            self@.confines(obj@),
        ensures
            result == status,
    {
        status
    }

    /// Ends a call of `MonitorExit` on `obj` that returned `status`.
    pub fn monitor_exit<T: JObject>(&mut self, obj: &T, status: JniError, cap: Capability) -> (result:
        Result<Capability, (JniError, Exception)>)
        requires
            old(self)@.holds_capability(cap),
            old(self)@.confines(obj@),
        ensures
            settled(old(self)@, final(self)@, status, result),
    {
        self.settle(status, cap)
    }

    /// Closes the environment. `pending` is what `ExceptionCheck`
    /// answered just now. The result says what is left to do. An
    /// environment detaches its thread at most once: after this it
    /// detaches nothing.
    pub fn close(&mut self, pending: jboolean) -> (plan: Teardown)
        ensures
            plan == old(self)@.teardown(pending),
            final(self)@ == old(self)@.after_close(pending),
    {
        match self.exception_check(pending) {
            Ok(_) => {
                if self.detach {
                    self.detach = false;
                    Teardown::Detach
                } else {
                    Teardown::Done
                }
            },
            Err(exn) => {
                let _ = self.exception_describe(&exn);
                let _ = self.exception_clear(exn);
                Teardown::Abort
            },
        }
    }
}

} // verus!
