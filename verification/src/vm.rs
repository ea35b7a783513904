//! The runtime: how it is started, and how a thread gets its environment.
//!
//! A [`JavaVM`] stands for one running Java runtime. Starting it, attaching
//! a thread to it and destroying it are native calls that report a status
//! code and raise no Java exception, so their failures are plain
//! [`JniError`] values and no token is involved until an environment
//! exists.

use crate::chars::{same_text, JavaChars};
use crate::env::{EnvView, Fatal, JavaEnv};
use crate::native::{jboolean, JniError, JniVersion};
use crate::object::JavaObject;
use crate::token::{Capability, TokenState};
use vstd::prelude::*;
use vstd::std_specs::cmp::PartialEqSpecImpl;
use vstd::utf8::encode_utf8;

verus! {

/// One start-up option of the runtime.
#[allow(non_snake_case)]
#[derive(Debug)]
pub struct JavaVMOption {
    /// The option as text, such as `-Xcheck:jni`.
    pub optionString: String,
    /// Extra data that some options take: an address that only the
    /// runtime reads, 0 for none.
    pub extraInfo: usize,
}

/// What a start-up option is: its text and its extra data.
pub struct OptionView {
    pub text: Seq<char>,
    pub extra: usize,
}

impl View for JavaVMOption {
    type V = OptionView;

    open spec fn view(&self) -> OptionView {
        OptionView { text: self.optionString@, extra: self.extraInfo }
    }
}

impl OptionView {
    /// Whether the runtime can be handed the text: as a C string it must
    /// hold no NUL.
    pub open spec fn sendable(self) -> bool {
        !encode_utf8(self.text).contains(0u8)
    }
}

impl JavaVMOption {
    /// The option `option`, without extra data.
    pub fn new(option: &str) -> (opt: JavaVMOption)
        ensures
            opt@ == (OptionView { text: option@, extra: 0 }),
    {
        JavaVMOption::new_extra(option, 0)
    }

    /// The option `option` with the extra data at address `extra`.
    pub fn new_extra(option: &str, extra: usize) -> (opt: JavaVMOption)
        ensures
            opt@ == (OptionView { text: option@, extra }),
    {
        JavaVMOption { optionString: option.to_owned(), extraInfo: extra }
    }

    /// The text of the option as the runtime reads it: its bytes and a
    /// NUL. `None` where the text holds a NUL itself.
    pub fn native_text(&self) -> (buffer: Option<JavaChars>)
        ensures
            self@.sendable() ==> (buffer matches Some(b) && b@ == encode_utf8(self@.text).push(0)),
            !self@.sendable() ==> buffer is None,
    {
        let bytes = self.optionString.as_str().as_bytes();
        let mut i: usize = 0;
        while i < bytes.len()
            invariant
                i <= bytes.len(),
                bytes@ == encode_utf8(self@.text),
                forall|j: int| 0 <= j < i ==> bytes@[j] != 0,
            decreases bytes.len() - i,
        {
            if bytes[i] == 0 {
                assert(bytes@.contains(bytes@[i as int]));
                return None;
            }
            i = i + 1;
        }
        Some(JavaChars::from_slice(bytes))
    }
}

impl Clone for JavaVMOption {
    fn clone(&self) -> (opt: JavaVMOption)
        ensures
            opt@ == self@,
    {
        JavaVMOption { optionString: self.optionString.clone(), extraInfo: self.extraInfo }
    }
}

impl PartialEq for JavaVMOption {
    fn eq(&self, other: &JavaVMOption) -> (equal: bool) {
        same_text(self.optionString.as_str(), other.optionString.as_str()) && self.extraInfo
            == other.extraInfo
    }
}

impl PartialEqSpecImpl for JavaVMOption {
    open spec fn obeys_eq_spec() -> bool {
        true
    }

    open spec fn eq_spec(&self, other: &JavaVMOption) -> bool {
        self@ == other@
    }
}

impl Eq for JavaVMOption {

}

impl<'a> PartialEq<&'a str> for JavaVMOption {
    fn eq(&self, other: &&'a str) -> (equal: bool) {
        same_text(self.optionString.as_str(), *other)
    }
}

impl<'a> PartialEqSpecImpl<&'a str> for JavaVMOption {
    open spec fn obeys_eq_spec() -> bool {
        true
    }

    open spec fn eq_spec(&self, other: &&'a str) -> bool {
        self@.text == other@
    }
}

impl<'a> PartialEq<JavaVMOption> for &'a str {
    fn eq(&self, other: &JavaVMOption) -> (equal: bool) {
        same_text(*self, other.optionString.as_str())
    }
}

impl<'a> PartialEqSpecImpl<JavaVMOption> for &'a str {
    open spec fn obeys_eq_spec() -> bool {
        true
    }

    open spec fn eq_spec(&self, other: &JavaVMOption) -> bool {
        self@ == other@.text
    }
}

/// The views of a sequence of options, in order.
pub open spec fn option_views(options: Seq<JavaVMOption>) -> Seq<OptionView> {
    Seq::new(options.len(), |i: int| options[i]@)
}

/// A copy of `options`.
fn copy_options(options: &[JavaVMOption]) -> (copy: Vec<JavaVMOption>)
    ensures
        option_views(copy@) == option_views(options@),
{
    let mut copy: Vec<JavaVMOption> = Vec::new();
    let mut i: usize = 0;
    while i < options.len()
        invariant
            i <= options.len(),
            copy@.len() == i,
            forall|j: int| 0 <= j < i ==> copy@[j]@ == options@[j]@,
        decreases options.len() - i,
    {
        copy.push(options[i].clone());
        i = i + 1;
    }
    assert(option_views(copy@) =~= option_views(options@));
    copy
}

/// What the runtime is started with.
#[allow(non_snake_case)]
#[derive(Debug)]
pub struct JavaVMInitArgs {
    /// The version of the native interface that the runtime must offer.
    pub version: JniVersion,
    /// The start-up options, in the order in which the runtime reads them.
    pub options: Vec<JavaVMOption>,
    /// Whether the runtime skips options that it does not know. If not,
    /// it refuses to start on one.
    pub ignoreUnrecognized: bool,
}

/// What start-up arguments are: a version, the options in order, and
/// the strictness flag.
pub struct InitArgsView {
    pub version: JniVersion,
    pub options: Seq<OptionView>,
    pub ignore_unrecognized: bool,
}

impl View for JavaVMInitArgs {
    type V = InitArgsView;

    open spec fn view(&self) -> InitArgsView {
        InitArgsView {
            version: self.version,
            options: option_views(self.options@),
            ignore_unrecognized: self.ignoreUnrecognized,
        }
    }
}

impl InitArgsView {
    /// Whether the runtime can be handed every option.
    pub open spec fn sendable(self) -> bool {
        forall|i: int| 0 <= i < self.options.len() ==> (#[trigger] self.options[i]).sendable()
    }

    /// Whether `buffers` are the texts of the options as the runtime reads
    /// them: one buffer for each option, in order.
    pub open spec fn sent_as(self, buffers: Seq<JavaChars>) -> bool {
        &&& buffers.len() == self.options.len()
        &&& forall|i: int|
            0 <= i < buffers.len() ==> (#[trigger] buffers[i])@ == encode_utf8(
                self.options[i].text,
            ).push(0)
    }
}

impl JavaVMInitArgs {
    /// Start-up arguments with a copy of `options`.
    #[allow(non_snake_case)]
    pub fn new(version: JniVersion, options: &[JavaVMOption], ignoreUnrecognized: bool) -> (args:
        JavaVMInitArgs)
        ensures
            args@ == (InitArgsView {
                version,
                options: option_views(options@),
                ignore_unrecognized: ignoreUnrecognized,
            }),
    {
        JavaVMInitArgs { version, options: copy_options(options), ignoreUnrecognized }
    }

    /// The texts of the options as the runtime reads them, in order.
    /// `None` where the text of an option holds a NUL.
    pub fn native_options(&self) -> (buffers: Option<Vec<JavaChars>>)
        ensures
            self@.sendable() ==> (buffers matches Some(b) && self@.sent_as(b@)),
            !self@.sendable() ==> buffers is None,
    {
        let mut buffers: Vec<JavaChars> = Vec::new();
        let mut i: usize = 0;
        while i < self.options.len()
            invariant
                i <= self.options.len(),
                buffers@.len() == i,
                forall|j: int| 0 <= j < i ==> (#[trigger] self@.options[j]).sendable(),
                forall|j: int|
                    0 <= j < i ==> (#[trigger] buffers@[j])@ == encode_utf8(
                        self@.options[j].text,
                    ).push(0),
            decreases self.options.len() - i,
        {
            match self.options[i].native_text() {
                None => {
                    assert(!self@.options[i as int].sendable());
                    return None;
                },
                Some(buffer) => {
                    buffers.push(buffer);
                },
            }
            i = i + 1;
        }
        Some(buffers)
    }
}

impl Clone for JavaVMInitArgs {
    fn clone(&self) -> (args: JavaVMInitArgs)
        ensures
            args@ == self@,
    {
        JavaVMInitArgs {
            version: self.version,
            options: copy_options(self.options.as_slice()),
            ignoreUnrecognized: self.ignoreUnrecognized,
        }
    }
}

impl PartialEq for JavaVMInitArgs {
    fn eq(&self, other: &JavaVMInitArgs) -> (equal: bool) {
        if self.version != other.version || self.ignoreUnrecognized != other.ignoreUnrecognized {
            return false;
        }
        if self.options.len() != other.options.len() {
            assert(self@.options.len() != other@.options.len());
            return false;
        }
        let mut i: usize = 0;
        while i < self.options.len()
            invariant
                i <= self.options.len(),
                self.options.len() == other.options.len(),
                self.version == other.version,
                self.ignoreUnrecognized == other.ignoreUnrecognized,
                forall|j: int| 0 <= j < i ==> self.options@[j]@ == other.options@[j]@,
            decreases self.options.len() - i,
        {
            if self.options[i] != other.options[i] {
                assert(self@.options[i as int] != other@.options[i as int]);
                return false;
            }
            i = i + 1;
        }
        assert(self@.options =~= other@.options);
        true
    }
}

impl PartialEqSpecImpl for JavaVMInitArgs {
    open spec fn obeys_eq_spec() -> bool {
        true
    }

    open spec fn eq_spec(&self, other: &JavaVMInitArgs) -> bool {
        self@ == other@
    }
}

impl Eq for JavaVMInitArgs {

}

/// What a thread is attached with.
#[derive(Debug)]
pub struct JavaVMAttachArgs {
    /// The version of the native interface that the thread asks for.
    pub version: JniVersion,
    /// The name of the thread on the Java side.
    pub name: String,
    /// The thread group that the thread joins.
    pub group: JavaObject,
}

impl JavaVMAttachArgs {
    /// Attach arguments for a thread called `name` in the group `group`.
    pub fn new(version: JniVersion, name: &str, group: JavaObject) -> (args: JavaVMAttachArgs)
        ensures
            args.version == version,
            args.name@ == name@,
            args.group == group,
    {
        JavaVMAttachArgs { version, name: name.to_owned(), group }
    }
}

/// The native call that attaches the current thread to the runtime. It
/// is made with `version`, no thread name and no thread group.
#[derive(Debug, Clone, Copy, PartialEq, Eq, Structural)]
pub struct AttachCall {
    /// Whether the thread is attached as a daemon.
    pub daemon: bool,
    /// The version to ask for.
    pub version: JniVersion,
}

/// What asking a runtime for the environment of the current thread led to.
pub enum Attach {
    /// The thread was attached already. Closing the environment leaves it
    /// attached.
    Ready(JavaEnv, Capability),
    /// The thread is not attached. Make the call, and hand what it
    /// returned to [`JavaVM::attached`].
    Detached(AttachCall),
    /// The runtime refused with this status.
    Failed(JniError),
}

/// A running Java runtime.
#[derive(Debug)]
pub struct JavaVM {
    ptr: usize,
    version: JniVersion,
}

/// What a runtime is: the address of the native runtime, 0 once it is
/// destroyed, and the version it was started with.
pub struct VmView {
    pub ptr: usize,
    pub version: JniVersion,
}

impl View for JavaVM {
    type V = VmView;

    closed spec fn view(&self) -> VmView {
        VmView { ptr: self.ptr, version: self.version }
    }
}

impl VmView {
    /// What asking for an environment leads to, where the runtime
    /// answered the question "is this thread attached?" with `probe` and
    /// the environment at address `env`.
    pub open spec fn probed(self, daemon: bool, probe: JniError, env: usize, step: Attach) -> bool {
        match probe {
            JniError::JNI_OK => {
                &&& step matches Attach::Ready(made, cap)
                &&& made@ == EnvView::fresh(env, false, self.version)
                &&& made@.holds_capability(cap)
            },
            JniError::JNI_EDETACHED => step == Attach::Detached(
                AttachCall { daemon, version: self.version },
            ),
            _ => step == Attach::Failed(probe),
        }
    }

    /// Every environment of a runtime reports the version that the runtime
    /// was started with or a later one, as long as the environment lives:
    /// it starts with the runtime's version as its floor, no token that
    /// it issues and no closing changes the floor, and it reads no
    /// version below it.
    pub proof fn lemma_environments_keep_the_floor(
        self,
        env: usize,
        detach: bool,
        state: TokenState,
        pending: jboolean,
        later: EnvView,
        raw: int,
    )
        ensures
            EnvView::fresh(env, detach, self.version).version == self.version,
            later.next(state).version == later.version,
            later.after_close(pending).version == later.version,
            later.version == self.version ==> (later.reads_version(raw) matches Ok(reported)
                ==> reported.meets(self.version)),
    {
    }
}

impl JavaVM {
    /// Ends the call of `JNI_CreateJavaVM` with `args`. The call returned
    /// `status` and, on success, the runtime at address `vm`.
    ///
    /// Destroying a runtime while one of its environments is still in use
    /// takes the whole process down; nothing here keeps track of them.
    pub fn new(args: JavaVMInitArgs, status: JniError, vm: usize) -> (result: Result<
        JavaVM,
        JniError,
    >)
        requires
            args@.sendable(),
        ensures
            status == JniError::JNI_OK ==> (result matches Ok(made) && made@ == (VmView {
                ptr: vm,
                version: args@.version,
            })),
            status != JniError::JNI_OK ==> result == Err::<JavaVM, JniError>(status),
    {
        match status {
            JniError::JNI_OK => Ok(JavaVM { ptr: vm, version: args.version }),
            _ => Err(status),
        }
    }

    /// The version that the runtime was started with.
    pub fn version(&self) -> (version: JniVersion)
        ensures
            version == self@.version,
    {
        self.version
    }

    /// The address of the native runtime, 0 once it is destroyed.
    pub fn ptr(&self) -> (ptr: usize)
        ensures
            ptr == self@.ptr,
    {
        self.ptr
    }

    /// Asks for the environment of the current thread. `probe` and `env`
    /// are what `GetEnv` returned. Ask once for each thread: a second
    /// environment of the same thread has tokens of its own, and the two
    /// know nothing of each other.
    pub fn get_env(&self, probe: JniError, env: usize) -> (step: Attach)
        ensures
            self@.probed(false, probe, env, step),
    {
        self.get_env_gen(false, probe, env)
    }

    /// Like `get_env`, but a thread that is not attached yet is attached
    /// as a daemon.
    pub fn get_env_daemon(&self, probe: JniError, env: usize) -> (step: Attach)
        ensures
            self@.probed(true, probe, env, step),
    {
        self.get_env_gen(true, probe, env)
    }

    fn get_env_gen(&self, daemon: bool, probe: JniError, env: usize) -> (step: Attach)
        ensures
            self@.probed(daemon, probe, env, step),
    {
        match probe {
            JniError::JNI_OK => {
                let (made, cap) = JavaEnv::attached(env, false, self.version);
                Attach::Ready(made, cap)
            },
            JniError::JNI_EDETACHED => Attach::Detached(
                AttachCall { daemon, version: self.version },
            ),
            _ => Attach::Failed(probe),
        }
    }

    /// Ends the call that attached the current thread, which is
    /// `AttachCurrentThread` or `AttachCurrentThreadAsDaemon`. The call
    /// returned `status` and, on success, the environment at address
    /// `env`. Closing that environment detaches the thread again.
    pub fn attached(&self, status: JniError, env: usize) -> (result: Result<
        (JavaEnv, Capability),
        JniError,
    >)
        ensures
            status == JniError::JNI_OK ==> (result matches Ok((made, cap)) && made@
                == EnvView::fresh(env, true, self@.version) && made@.holds_capability(cap)),
            status != JniError::JNI_OK ==> result == Err::<(JavaEnv, Capability), JniError>(status),
    {
        match status {
            JniError::JNI_OK => Ok(JavaEnv::attached(env, true, self.version)),
            _ => Err(status),
        }
    }

    /// Destroys the runtime, once. The result is the address of the
    /// native runtime that has to be destroyed now with `DestroyJavaVM`,
    /// and `None` where it was destroyed before. [`JavaVM::destroyed`]
    /// reads the status of that call.
    pub fn destroy_java_vm(&mut self) -> (doomed: Option<usize>)
        ensures
            final(self)@ == (VmView { ptr: 0, ..old(self)@ }),
            old(self)@.ptr == 0 ==> doomed is None,
            old(self)@.ptr != 0 ==> doomed == Some(old(self)@.ptr),
    {
        if self.ptr == 0 {
            None
        } else {
            let vm: usize = self.ptr;
            self.ptr = 0;
            Some(vm)
        }
    }
}

impl JavaVM {
    /// Ends the call of `DestroyJavaVM`. A runtime that could not be
    /// taken down cannot be recovered either: a failure is fatal.
    pub fn destroyed(status: JniError) -> (result: Result<(), Fatal>)
        ensures
            status == JniError::JNI_OK ==> result == Ok::<(), Fatal>(()),
            status != JniError::JNI_OK ==> result == Err::<(), Fatal>(Fatal::DestroyJavaVM(status)),
    {
        match status {
            JniError::JNI_OK => Ok(()),
            _ => Err(Fatal::DestroyJavaVM(status)),
        }
    }
}

} // verus!
