use rust_jni::env::Fatal;
use rust_jni::native::{JniError, JniVersion};
use rust_jni::object::{JObject, JavaObject};
use rust_jni::token::TokenState;
use rust_jni::vm::{Attach, AttachCall, JavaVM, JavaVMAttachArgs, JavaVMInitArgs, JavaVMOption};

fn runtime(version: JniVersion) -> JavaVM {
    let args = JavaVMInitArgs::new(version, &[], false);
    JavaVM::new(args, JniError::JNI_OK, 0x1000).unwrap()
}

#[test]
fn started_runtime_keeps_address_and_version() {
    let args = JavaVMInitArgs::new(
        JniVersion::JNI_VERSION_1_8,
        &[JavaVMOption::new("-Xcheck:jni")],
        true,
    );
    assert!(args.native_options().is_some());
    let vm = JavaVM::new(args, JniError::JNI_OK, 0x7f12_3400).unwrap();
    assert_eq!(vm.ptr(), 0x7f12_3400);
    assert_eq!(vm.version(), JniVersion::JNI_VERSION_1_8);
}

#[test]
fn failed_start_returns_the_status() {
    let failures = [
        JniError::JNI_ERR,
        JniError::JNI_EDETACHED,
        JniError::JNI_EVERSION,
        JniError::JNI_ENOMEM,
        JniError::JNI_EEXIST,
        JniError::JNI_EINVAL,
    ];
    for status in failures.iter() {
        let args = JavaVMInitArgs::new(JniVersion::JNI_VERSION_1_6, &[], false);
        assert_eq!(JavaVM::new(args, *status, 0x1000).err(), Some(*status));
    }
}

#[test]
fn attached_thread_gets_its_environment_at_once() {
    let vm = runtime(JniVersion::JNI_VERSION_1_4);
    match vm.get_env(JniError::JNI_OK, 0x2000) {
        Attach::Ready(env, _cap) => {
            assert_eq!(env.ptr(), 0x2000);
            assert!(!env.detaches());
            assert_eq!(env.requested_version(), JniVersion::JNI_VERSION_1_4);
            assert_eq!(env.state(), TokenState::HasCapability);
        }
        _ => panic!("the thread is attached"),
    }
}

#[test]
fn detached_thread_has_to_be_attached() {
    let vm = runtime(JniVersion::JNI_VERSION_1_4);
    match vm.get_env(JniError::JNI_EDETACHED, 0) {
        Attach::Detached(call) => {
            assert_eq!(call, AttachCall { daemon: false, version: JniVersion::JNI_VERSION_1_4 });
        }
        _ => panic!("the thread is detached"),
    }
    match vm.get_env_daemon(JniError::JNI_EDETACHED, 0) {
        Attach::Detached(call) => {
            assert_eq!(call, AttachCall { daemon: true, version: JniVersion::JNI_VERSION_1_4 });
        }
        _ => panic!("the thread is detached"),
    }
    let (env, _cap) = vm.attached(JniError::JNI_OK, 0x5000).ok().unwrap();
    assert_eq!(env.ptr(), 0x5000);
    assert!(env.detaches());
    assert_eq!(env.requested_version(), JniVersion::JNI_VERSION_1_4);
    assert_eq!(env.state(), TokenState::HasCapability);
}

#[test]
fn daemon_thread_that_is_attached_gets_its_environment_at_once() {
    let vm = runtime(JniVersion::JNI_VERSION_1_6);
    match vm.get_env_daemon(JniError::JNI_OK, 0x2000) {
        Attach::Ready(env, _cap) => {
            assert_eq!(env.ptr(), 0x2000);
            assert!(!env.detaches());
        }
        _ => panic!("the thread is attached"),
    }
}

#[test]
fn refused_probe_fails_with_its_status() {
    let vm = runtime(JniVersion::JNI_VERSION_1_6);
    let failures = [
        JniError::JNI_ERR,
        JniError::JNI_EVERSION,
        JniError::JNI_ENOMEM,
        JniError::JNI_EEXIST,
        JniError::JNI_EINVAL,
    ];
    for status in failures.iter() {
        match vm.get_env(*status, 0) {
            Attach::Failed(code) => assert_eq!(code, *status),
            _ => panic!("the runtime refused"),
        }
        match vm.get_env_daemon(*status, 0) {
            Attach::Failed(code) => assert_eq!(code, *status),
            _ => panic!("the runtime refused"),
        }
    }
}

#[test]
fn failed_attach_returns_the_status() {
    let vm = runtime(JniVersion::JNI_VERSION_1_6);
    let failures = [
        JniError::JNI_ERR,
        JniError::JNI_EDETACHED,
        JniError::JNI_EVERSION,
        JniError::JNI_ENOMEM,
        JniError::JNI_EEXIST,
        JniError::JNI_EINVAL,
    ];
    for status in failures.iter() {
        match vm.attached(*status, 0x5000) {
            Ok(_) => panic!("the attach failed"),
            Err(code) => assert_eq!(code, *status),
        }
    }
}

#[test]
fn runtime_is_destroyed_once() {
    let mut vm = runtime(JniVersion::JNI_VERSION_1_6);
    assert_eq!(vm.destroy_java_vm(), Some(0x1000));
    assert_eq!(vm.ptr(), 0);
    assert_eq!(vm.destroy_java_vm(), None);
    assert_eq!(vm.destroy_java_vm(), None);
    assert_eq!(vm.ptr(), 0);
    assert_eq!(vm.version(), JniVersion::JNI_VERSION_1_6);
}

#[test]
fn attach_args_keep_what_they_are_given() {
    let vm = runtime(JniVersion::JNI_VERSION_1_6);
    let env = match vm.get_env(JniError::JNI_OK, 0x2000) {
        Attach::Ready(env, _cap) => env,
        _ => panic!("the thread is attached"),
    };
    let group: JavaObject = JavaObject::from_unsafe(&env, 0x20);
    let args = JavaVMAttachArgs::new(JniVersion::JNI_VERSION_1_2, "worker", group);
    assert_eq!(args.version, JniVersion::JNI_VERSION_1_2);
    assert_eq!(args.name, "worker");
    assert_eq!(args.group.get_obj(), 0x20);
}

fn can_be_shared<T: Sync + Send>() {}

#[test]
fn runtime_can_be_shared_between_threads() {
    can_be_shared::<JavaVM>();
}

#[test]
fn failed_destruction_is_fatal() {
    assert_eq!(JavaVM::destroyed(JniError::JNI_OK), Ok(()));
    assert_eq!(JavaVM::destroyed(JniError::JNI_ERR), Err(Fatal::DestroyJavaVM(JniError::JNI_ERR)));
    assert_eq!(
        JavaVM::destroyed(JniError::JNI_ENOMEM),
        Err(Fatal::DestroyJavaVM(JniError::JNI_ENOMEM))
    );
}
