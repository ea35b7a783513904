//! Handles: references to Java objects, each with its ownership class.
//!
//! Every handle type holds the same three things (see [`Handle`]) and
//! differs only in what the type system lets a caller do with it. What
//! they share is the trait [`JObject`]: how a handle is made from a raw
//! reference, promoted to another ownership class, compared, and released.
//!
//! A handle does not release its reference when it goes out of scope. The
//! owner calls [`JObject::release`] and makes the call that it names.

use crate::env::{referred, JavaEnv};
use crate::native::{jarray, jboolean, jclass, jobject, jthrowable, yes, JNI_FALSE, JNI_TRUE, NULL};
use crate::reference::{Handle, NativeCall, RefType};
use crate::token::{Capability, JniResult};
use std::marker::PhantomData;
use vstd::prelude::*;

verus! {

/// What the interface may answer when it is asked whether the references
/// `a` and `b` are the same object: one of its two flags, and "yes"
/// whenever `a` and `b` are the same reference.
pub open spec fn may_answer_same(a: jobject, b: jobject, answer: jboolean) -> bool {
    (answer == JNI_TRUE || answer == JNI_FALSE) && (a == b ==> yes(answer))
}

/// A handle that holds the null reference is null: the interface can only
/// answer "yes" when asked whether null is the same object as null, and
/// the null check of every handle type reports that answer.
pub proof fn lemma_null_reference_is_null(handle: Handle, answer: jboolean)
    requires
        handle.ptr == NULL,
        may_answer_same(handle.ptr, NULL, answer),
    ensures
        yes(answer),
{
}

/// What every handle type can do.
pub trait JObject: Sized + View<V = Handle> {
    /// The address of the environment that made this handle.
    fn get_env(&self) -> (env: usize)
        ensures
            env == self@.env,
    ;

    /// The raw reference.
    fn get_obj(&self) -> (obj: jobject)
        ensures
            obj == self@.ptr,
    ;

    /// The ownership class of the reference.
    fn ref_type(&self) -> (rtype: RefType)
        ensures
            rtype == self@.rtype,
    ;

    /// The handle for the raw reference `ptr` of class `typ`, made by
    /// `env`. Nothing checks that `ptr` is a reference of that class.
    fn from_unsafe_type(env: &JavaEnv, ptr: jobject, typ: RefType) -> (obj: Self)
        ensures
            obj@ == (Handle { env: env@.ptr, ptr, rtype: typ }),
    ;

    /// The handle for the raw local reference `ptr`.
    fn from_unsafe(env: &JavaEnv, ptr: jobject) -> (obj: Self)
        ensures
            obj@ == env@.local(ptr),
    {
        Self::from_unsafe_type(env, ptr, RefType::Local)
    }

    /// The handle for the raw local reference `ptr`, or `None` where `ptr`
    /// is null.
    fn from(env: &JavaEnv, ptr: jobject) -> (obj: Option<Self>)
        ensures
            ptr == NULL ==> obj is None,
            ptr != NULL ==> (obj matches Some(o) && o@ == env@.local(ptr)),
    {
        if ptr == NULL {
            None
        } else {
            Some(Self::from_unsafe(env, ptr))
        }
    }

    /// Ends a call that asked for a new reference of class `typ` to this
    /// object and got `created`. The handle itself stays as it is. A
    /// local reference is only made from a local one: nothing turns a
    /// global or weak reference back into a local one.
    fn promote(&self, env: &mut JavaEnv, created: jobject, typ: RefType, cap: Capability) -> (result:
        JniResult<Self>)
        requires
            old(env)@.holds_capability(cap),
            old(env)@.confines(self@),
            typ == RefType::Local ==> self@.rtype == RefType::Local,
        ensures
            referred(old(env)@, final(env)@, created, typ, result),
    {
        if created == NULL {
            Err(env.raise())
        } else {
            let obj = Self::from_unsafe_type(env, created, typ);
            Ok((obj, env.grant()))
        }
    }

    /// Ends a call of `NewLocalRef` on this object that returned
    /// `created`. The object must be held by a local reference already.
    fn local(&self, env: &mut JavaEnv, created: jobject, cap: Capability) -> (result: JniResult<
        Self,
    >)
        requires
            old(env)@.holds_capability(cap),
            old(env)@.confines(self@),
            self@.rtype == RefType::Local,
        ensures
            referred(old(env)@, final(env)@, created, RefType::Local, result),
    {
        self.promote(env, created, RefType::Local, cap)
    }

    /// Ends a call of `NewGlobalRef` on this object that returned
    /// `created`.
    fn global(&self, env: &mut JavaEnv, created: jobject, cap: Capability) -> (result: JniResult<
        Self,
    >)
        requires
            old(env)@.holds_capability(cap),
            old(env)@.confines(self@),
        ensures
            referred(old(env)@, final(env)@, created, RefType::Global, result),
    {
        self.promote(env, created, RefType::Global, cap)
    }

    /// Ends a call of `NewWeakGlobalRef` on this object that returned
    /// `created`.
    fn weak(&self, env: &mut JavaEnv, created: jobject, cap: Capability) -> (result: JniResult<
        Self,
    >)
        requires
            old(env)@.holds_capability(cap),
            old(env)@.confines(self@),
        ensures
            referred(old(env)@, final(env)@, created, RefType::Weak, result),
    {
        self.promote(env, created, RefType::Weak, cap)
    }

    /// The class of this object, which `GetObjectClass` returned as
    /// `class`. The interface never returns null there; the caller must
    /// not go on if it did.
    fn get_class(&self, env: &JavaEnv, class: jclass, cap: &Capability) -> (result: JavaClass)
        requires
            env@.holds_capability(*cap),
            env@.confines(self@),
            class != NULL,
        ensures
            result@ == env@.local(class),
    {
        JavaClass { env: env.ptr(), ptr: class, rtype: RefType::Local }
    }

    /// Ends a call of `NewLocalRef` on this object that returned
    /// `created`; the new reference is held as a plain object. The object
    /// must be held by a local reference already.
    fn as_jobject(&self, env: &mut JavaEnv, created: jobject, cap: Capability) -> (result:
        JniResult<JavaObject>)
        requires
            old(env)@.holds_capability(cap),
            old(env)@.confines(self@),
            self@.rtype == RefType::Local,
        ensures
            referred(old(env)@, final(env)@, created, RefType::Local, result),
    {
        match self.local(env, created, cap) {
            Err(exn) => Err(exn),
            Ok((obj, cap)) => {
                let plain = JavaObject {
                    env: obj.get_env(),
                    ptr: obj.get_obj(),
                    rtype: obj.ref_type(),
                };
                Ok((plain, cap))
            },
        }
    }

    /// Whether this object is an instance of `clazz`, which
    /// `IsInstanceOf` answered with `answer`.
    fn is_instance_of(&self, env: &JavaEnv, clazz: &JavaClass, answer: jboolean, cap: &Capability)
        -> (instance: bool)
        requires
            env@.holds_capability(*cap),
            env@.confines(self@),
            env@.confines(clazz@),
        ensures
            instance == yes(answer),
    {
        answer == JNI_TRUE
    }

    /// Whether this handle and `val` refer to the same object, which
    /// `IsSameObject` answered with `answer`. Two handles are equal when
    /// they refer to one object, whatever raw references they hold.
    fn is_same<T: View<V = Handle>>(&self, val: &T, answer: jboolean) -> (same: bool)
        ensures
            same == yes(answer),
    {
        answer == JNI_TRUE
    }

    /// Whether this handle refers to nothing. `answer` is what
    /// `IsSameObject` said of the reference and null. A weak reference
    /// can turn null at any time: ask before every use.
    fn is_null(&self, answer: jboolean) -> (null: bool)
        ensures
            null == yes(answer),
    {
        answer == JNI_TRUE
    }

    /// Gives the handle up. The result is the one call that releases its
    /// reference: the release function of the handle's own class. The
    /// handle is gone after this, so no reference is released twice.
    fn release(self, env: &JavaEnv) -> (call: NativeCall)
        requires
            env@.confines(self@),
        ensures
            call == self@.rtype.release_of(self@.ptr),
    {
        let handle = Handle { env: self.get_env(), ptr: self.get_obj(), rtype: self.ref_type() };
        match handle.rtype {
            RefType::Local => env.delete_local_ref(handle),
            RefType::Global => env.delete_global_ref(handle),
            RefType::Weak => env.delete_weak_ref(handle),
        }
    }
}

/// A handle to any Java object.
#[derive(Debug)]
pub struct JavaObject {
    env: usize,
    ptr: jobject,
    rtype: RefType,
}

impl View for JavaObject {
    type V = Handle;

    closed spec fn view(&self) -> Handle {
        Handle { env: self.env, ptr: self.ptr, rtype: self.rtype }
    }
}

impl JObject for JavaObject {
    fn get_env(&self) -> (env: usize) {
        self.env
    }

    fn get_obj(&self) -> (obj: jobject) {
        self.ptr
    }

    fn ref_type(&self) -> (rtype: RefType) {
        self.rtype
    }

    fn from_unsafe_type(env: &JavaEnv, ptr: jobject, typ: RefType) -> (obj: JavaObject) {
        JavaObject { env: env.ptr(), ptr, rtype: typ }
    }
}

/// A handle to a Java class.
#[derive(Debug)]
pub struct JavaClass {
    env: usize,
    ptr: jclass,
    rtype: RefType,
}

impl View for JavaClass {
    type V = Handle;

    closed spec fn view(&self) -> Handle {
        Handle { env: self.env, ptr: self.ptr, rtype: self.rtype }
    }
}

impl JObject for JavaClass {
    fn get_env(&self) -> (env: usize) {
        self.env
    }

    fn get_obj(&self) -> (obj: jobject) {
        self.ptr
    }

    fn ref_type(&self) -> (rtype: RefType) {
        self.rtype
    }

    fn from_unsafe_type(env: &JavaEnv, ptr: jobject, typ: RefType) -> (obj: JavaClass) {
        JavaClass { env: env.ptr(), ptr, rtype: typ }
    }
}

impl JavaClass {
    /// The superclass of this class, which `GetSuperclass` returned as
    /// `superclass`: `None` where that is null.
    pub fn get_super(&self, env: &JavaEnv, superclass: jclass, cap: &Capability) -> (result:
        Option<JavaClass>)
        requires
            env@.holds_capability(*cap),
            env@.confines(self@),
        ensures
            superclass == NULL ==> result is None,
            superclass != NULL ==> (result matches Some(class) && class@ == env@.local(superclass)),
    {
        env.get_super_class(self, superclass, cap)
    }

    /// Ends a call of `AllocObject` with this class that returned
    /// `allocated`.
    pub fn allocate(&self, env: &mut JavaEnv, allocated: jobject, cap: Capability) -> (result:
        JniResult<JavaObject>)
        requires
            old(env)@.holds_capability(cap),
            old(env)@.confines(self@),
        ensures
            referred(old(env)@, final(env)@, allocated, RefType::Local, result),
    {
        env.alloc_object(self, allocated, cap)
    }

    /// Ends a call of `FindClass` that returned `found`.
    pub fn find(env: &mut JavaEnv, found: jclass, cap: Capability) -> (result: JniResult<
        JavaClass,
    >)
        requires
            old(env)@.holds_capability(cap),
        ensures
            referred(old(env)@, final(env)@, found, RefType::Local, result),
    {
        env.find_class(found, cap)
    }
}

/// A handle to a Java throwable. Only such a handle can be thrown.
#[derive(Debug)]
pub struct JavaThrowable {
    env: usize,
    ptr: jthrowable,
    rtype: RefType,
}

impl View for JavaThrowable {
    type V = Handle;

    closed spec fn view(&self) -> Handle {
        Handle { env: self.env, ptr: self.ptr, rtype: self.rtype }
    }
}

impl JObject for JavaThrowable {
    fn get_env(&self) -> (env: usize) {
        self.env
    }

    fn get_obj(&self) -> (obj: jobject) {
        self.ptr
    }

    fn ref_type(&self) -> (rtype: RefType) {
        self.rtype
    }

    fn from_unsafe_type(env: &JavaEnv, ptr: jobject, typ: RefType) -> (obj: JavaThrowable) {
        JavaThrowable { env: env.ptr(), ptr, rtype: typ }
    }
}

/// A handle to a Java array whose elements are `T`.
///
/// `T` only keeps the accessors of one element type from being used on an
/// array of another. Nothing of it exists at run time.
pub struct JavaArray<T: JObject> {
    env: usize,
    ptr: jarray,
    rtype: RefType,
    phantom: PhantomData<T>,
}

impl<T: JObject> View for JavaArray<T> {
    type V = Handle;

    closed spec fn view(&self) -> Handle {
        Handle { env: self.env, ptr: self.ptr, rtype: self.rtype }
    }
}

impl<T: JObject> JObject for JavaArray<T> {
    fn get_env(&self) -> (env: usize) {
        self.env
    }

    fn get_obj(&self) -> (obj: jobject) {
        self.ptr
    }

    fn ref_type(&self) -> (rtype: RefType) {
        self.rtype
    }

    fn from_unsafe_type(env: &JavaEnv, ptr: jobject, typ: RefType) -> (obj: JavaArray<T>) {
        JavaArray { env: env.ptr(), ptr, rtype: typ, phantom: PhantomData }
    }
}

} // verus!
