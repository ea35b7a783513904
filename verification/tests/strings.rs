use rust_jni::chars::JavaChars;
use rust_jni::env::JavaEnv;
use rust_jni::native::{JniError, JniVersion, JNI_FALSE, JNI_TRUE, NULL};
use rust_jni::object::JObject;
use rust_jni::reference::{NativeCall, RefType};
use rust_jni::string::JavaString;
use rust_jni::token::{Capability, TokenState};
use rust_jni::vm::{Attach, JavaVM, JavaVMInitArgs};

fn attach() -> (JavaEnv, Capability) {
    let args = JavaVMInitArgs::new(JniVersion::JNI_VERSION_1_6, &[], false);
    let vm = JavaVM::new(args, JniError::JNI_OK, 0x1000).unwrap();
    match vm.get_env(JniError::JNI_OK, 0x2000) {
        Attach::Ready(env, cap) => (env, cap),
        _ => panic!("the thread is attached"),
    }
}

fn string(env: &mut JavaEnv, ptr: usize, cap: Capability) -> (JavaString, Capability) {
    match JavaString::new(env, ptr, cap) {
        Ok(made) => made,
        Err(_) => panic!("the string was made"),
    }
}

#[test]
fn string_lengths_differ_beyond_ascii() {
    let (mut env, cap) = attach();
    let (s, cap) = string(&mut env, 0x300, cap);
    // "h\u{e9}": two code units, three bytes
    let lent = JavaChars::new("h\u{e9}");
    let (text, _release) = s.to_str(0x7000, JNI_FALSE, &lent);
    assert_eq!(text, Some("h\u{e9}".to_string()));
    assert_eq!(s.len(&env, 2, &cap), 2);
    assert_eq!(s.size(3), 3);
}

#[test]
fn new_string_can_fail() {
    let (mut env, cap) = attach();
    assert!(JavaString::new(&mut env, NULL, cap).is_err());
    assert_eq!(env.state(), TokenState::HasException);
}

#[test]
fn new_string_is_a_local_handle() {
    let (mut env, cap) = attach();
    let (s, _cap) = string(&mut env, 0x300, cap);
    assert_eq!(s.get_obj(), 0x300);
    assert_eq!(s.ref_type(), RefType::Local);
    assert_eq!(s.get_env(), 0x2000);
    assert_eq!(s.release(&env), NativeCall::DeleteLocalRef { obj: 0x300 });
}

#[test]
fn lengths_are_read_as_unsigned() {
    let (mut env, cap) = attach();
    let (s, cap) = string(&mut env, 0x300, cap);
    assert_eq!(s.len(&env, 0, &cap), 0);
    assert_eq!(s.len(&env, i32::MAX, &cap), 0x7fff_ffff);
    assert_eq!(s.size(0), 0);
    assert_eq!(s.size(i32::MAX), 0x7fff_ffff);
    // no interface returns a negative length; it reads as a cast would
    assert_eq!(s.len(&env, -1, &cap), usize::MAX);
    assert_eq!(s.size(-1), usize::MAX);
    assert_eq!(s.size(-2), usize::MAX - 1);
    assert_eq!(s.size(i32::MIN), usize::MAX - 0x7fff_ffff);
}

#[test]
fn borrowed_text_is_given_back_whatever_it_holds() {
    let (mut env, cap) = attach();
    let (s, _cap) = string(&mut env, 0x300, cap);
    let broken = JavaChars::from_raw_vec(vec![0xff, 0xfe, 0]).unwrap();
    let (text, release) = s.to_str(0x7008, JNI_FALSE, &broken);
    assert_eq!(text, None);
    assert_eq!(release, NativeCall::ReleaseStringUTFChars { string: 0x300, chars: 0x7008 });
    let empty = JavaChars::new("");
    let (text, release) = s.to_str(0x7010, JNI_TRUE, &empty);
    assert_eq!(text, Some(String::new()));
    assert_eq!(release, NativeCall::ReleaseStringUTFChars { string: 0x300, chars: 0x7010 });
}

#[test]
fn chars_remember_where_they_came_from() {
    let (mut env, cap) = attach();
    let (s, _cap) = string(&mut env, 0x300, cap);
    let (lent, copied) = s.chars(0x7000, JNI_TRUE);
    assert!(copied);
    assert_eq!(lent.to_str(&JavaChars::new("abc")), Some("abc".to_string()));
    assert_eq!(
        lent.release(),
        NativeCall::ReleaseStringUTFChars { string: 0x300, chars: 0x7000 }
    );
    let (_lent, copied) = s.chars(0x7000, JNI_FALSE);
    assert!(!copied);
    // any flag but "no" means that the text was copied
    let (_lent, copied) = s.chars(0x7000, 2);
    assert!(copied);
}

#[test]
fn region_is_the_first_bytes_and_a_nul() {
    let (mut env, cap) = attach();
    let (s, _cap) = string(&mut env, 0x300, cap);
    // two code units of "hi!" from the second on, as the interface wrote them
    let written = [b'i', b'!', 0, 0, 0, 0, 0];
    let part = s.region(2, &written);
    assert_eq!(part.as_slice(), &[b'i', b'!', 0][..]);
    assert_eq!(part.to_string(), Some("i!".to_string()));
    let nothing = s.region(0, &written);
    assert_eq!(nothing.as_slice(), &[0u8][..]);
    assert_eq!(nothing.to_string(), Some(String::new()));
    let all = s.region(7, &written);
    assert_eq!(all.as_slice(), &[b'i', b'!', 0, 0, 0, 0, 0, 0][..]);
    assert_eq!(all.to_string(), Some("i!".to_string()));
    let empty = s.region(0, &[]);
    assert_eq!(empty.as_slice(), &[0u8][..]);
}

#[test]
fn region_needs_three_bytes_for_a_code_unit_and_one_more() {
    assert_eq!(JavaString::region_room(0), Some(1));
    assert_eq!(JavaString::region_room(1), Some(4));
    assert_eq!(JavaString::region_room(2), Some(7));
    assert_eq!(JavaString::region_room(1000), Some(3001));
    assert_eq!(JavaString::region_room((usize::MAX - 1) / 3), Some((usize::MAX - 1) / 3 * 3 + 1));
    assert_eq!(JavaString::region_room((usize::MAX - 1) / 3 + 1), None);
    assert_eq!(JavaString::region_room(usize::MAX / 3 + 1), None);
    assert_eq!(JavaString::region_room(usize::MAX), None);
}
