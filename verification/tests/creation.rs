use rucaja::creation::{InitArgs, JvmOption};
use rucaja::cstring::to_c_string;
use rucaja::{CreationError, Jvm, Singleton};

#[test]
fn arguments_hold_the_options_in_order() {
    let mut guard = Singleton::new();
    let creation = Jvm::new(&mut guard, &["-Xcheck:jni", "-Xmx64m"]).unwrap();
    let expected = InitArgs {
        version: 0x0001_0008,
        n_options: 2,
        options: vec![
            JvmOption { option_string: b"-Xcheck:jni\0".to_vec(), extra_info: 0 },
            JvmOption { option_string: b"-Xmx64m\0".to_vec(), extra_info: 0 },
        ],
        ignore_unrecognized: 1,
    };
    assert_eq!(creation.init_args(), &expected);
}

#[test]
fn arguments_use_the_constants_of_the_interface() {
    let mut guard = Singleton::new();
    let creation = Jvm::new(&mut guard, &["-verbose:gc"]).unwrap();
    assert_eq!(creation.init_args().version, jni_sys::JNI_VERSION_1_8);
    assert_eq!(creation.init_args().ignore_unrecognized, jni_sys::JNI_TRUE);
}

#[test]
fn no_options_give_empty_arguments() {
    let mut guard = Singleton::new();
    let creation = Jvm::new(&mut guard, &[]).unwrap();
    assert_eq!(creation.init_args().n_options, 0);
    assert!(creation.init_args().options.is_empty());
    assert!(guard.is_claimed());
}

#[test]
fn the_empty_option_is_a_lone_terminator() {
    let mut guard = Singleton::new();
    let creation = Jvm::new(&mut guard, &[""]).unwrap();
    assert_eq!(creation.init_args().n_options, 1);
    assert_eq!(creation.init_args().options[0].option_string, vec![0u8]);
}

#[test]
fn options_are_handed_over_as_utf8() {
    let mut guard = Singleton::new();
    let creation = Jvm::new(&mut guard, &["-Dname=\u{e9}\u{20ac}"]).unwrap();
    assert_eq!(
        creation.init_args().options[0].option_string,
        vec![0x2d, 0x44, 0x6e, 0x61, 0x6d, 0x65, 0x3d, 0xc3, 0xa9, 0xe2, 0x82, 0xac, 0x00]
    );
}

#[test]
fn a_fresh_guard_is_free() {
    assert!(!Singleton::new().is_claimed());
}

#[test]
fn a_second_creation_fails() {
    let mut guard = Singleton::new();
    assert!(Jvm::new(&mut guard, &["-Xcheck:jni"]).is_ok());
    assert!(guard.is_claimed());
    match Jvm::new(&mut guard, &["-Xcheck:jni"]) {
        Err(error) => assert_eq!(error, CreationError::Exists),
        Ok(_) => panic!("a second creation was prepared"),
    }
    match Jvm::new(&mut guard, &[]) {
        Err(error) => assert_eq!(error, CreationError::Exists),
        Ok(_) => panic!("a third creation was prepared"),
    }
    assert!(guard.is_claimed());
}

#[test]
fn a_claimed_guard_comes_before_the_options() {
    let mut guard = Singleton::new();
    assert!(Jvm::new(&mut guard, &[]).is_ok());
    match Jvm::new(&mut guard, &["bad\0option"]) {
        Err(error) => assert_eq!(error, CreationError::Exists),
        Ok(_) => panic!("a second creation was prepared"),
    }
}

#[test]
fn an_option_with_a_nul_byte_is_refused() {
    let mut guard = Singleton::new();
    match Jvm::new(&mut guard, &["-Xcheck:jni", "-Dkey=a\0b", "-Xmx64m"]) {
        Err(error) => assert_eq!(error, CreationError::MalformedOption { index: 1 }),
        Ok(_) => panic!("an option with a NUL byte was handed over"),
    }
    assert!(!guard.is_claimed());
}

#[test]
fn the_first_malformed_option_is_named() {
    let mut guard = Singleton::new();
    match Jvm::new(&mut guard, &["\0", "fine", "\0"]) {
        Err(error) => assert_eq!(error, CreationError::MalformedOption { index: 0 }),
        Ok(_) => panic!("an option with a NUL byte was handed over"),
    }
    match Jvm::new(&mut guard, &["fine", "fine", "tail\0"]) {
        Err(error) => assert_eq!(error, CreationError::MalformedOption { index: 2 }),
        Ok(_) => panic!("an option with a NUL byte was handed over"),
    }
}

#[test]
fn a_refused_attempt_leaves_the_guard_free() {
    let mut guard = Singleton::new();
    assert!(Jvm::new(&mut guard, &["\0"]).is_err());
    assert!(!guard.is_claimed());
    assert!(Jvm::new(&mut guard, &["-Xcheck:jni"]).is_ok());
    assert!(guard.is_claimed());
}

#[test]
fn success_gives_the_handle_of_the_machine() {
    let mut guard = Singleton::new();
    let creation = Jvm::new(&mut guard, &["-Xcheck:jni"]).unwrap();
    let jvm = creation.conclude(jni_sys::JNI_OK, 0x7f00_4000, 0x7f00_8000).unwrap();
    assert_eq!(jvm.jvm(), 0x7f00_4000);
}

#[test]
fn the_first_environment_is_dropped() {
    let mut first_guard = Singleton::new();
    let mut second_guard = Singleton::new();
    let first = Jvm::new(&mut first_guard, &[]).unwrap().conclude(0, 0x1000, 0x2000).unwrap();
    let second = Jvm::new(&mut second_guard, &[]).unwrap().conclude(0, 0x1000, 0).unwrap();
    assert_eq!(first.jvm(), second.jvm());
}

#[test]
fn every_status_has_its_error() {
    let cases = [
        (jni_sys::JNI_EDETACHED, CreationError::Detached),
        (jni_sys::JNI_EEXIST, CreationError::Exists),
        (jni_sys::JNI_EINVAL, CreationError::InvalidArguments),
        (jni_sys::JNI_ENOMEM, CreationError::OutOfMemory),
        (jni_sys::JNI_ERR, CreationError::Unknown),
        (jni_sys::JNI_EVERSION, CreationError::Version),
    ];
    for (status, expected) in cases {
        assert_eq!(CreationError::from_status(status), Some(expected));
        let mut guard = Singleton::new();
        let creation = Jvm::new(&mut guard, &[]).unwrap();
        match creation.conclude(status, 0x1000, 0x2000) {
            Err(error) => assert_eq!(error, expected),
            Ok(_) => panic!("status {} gave a handle", status),
        }
    }
}

#[test]
fn status_numbers_are_those_of_the_interface() {
    assert_eq!(CreationError::from_status(0), None);
    assert_eq!(CreationError::from_status(-1), Some(CreationError::Unknown));
    assert_eq!(CreationError::from_status(-2), Some(CreationError::Detached));
    assert_eq!(CreationError::from_status(-3), Some(CreationError::Version));
    assert_eq!(CreationError::from_status(-4), Some(CreationError::OutOfMemory));
    assert_eq!(CreationError::from_status(-5), Some(CreationError::Exists));
    assert_eq!(CreationError::from_status(-6), Some(CreationError::InvalidArguments));
    assert_eq!(CreationError::from_status(jni_sys::JNI_OK), None);
}

#[test]
fn an_undefined_status_is_unrecognized() {
    for status in [1, 2, -7, 42, i32::MIN, i32::MAX] {
        assert_eq!(
            CreationError::from_status(status),
            Some(CreationError::Unrecognized { code: status })
        );
        let mut guard = Singleton::new();
        let creation = Jvm::new(&mut guard, &[]).unwrap();
        match creation.conclude(status, 0x1000, 0x2000) {
            Err(error) => assert_eq!(error, CreationError::Unrecognized { code: status }),
            Ok(_) => panic!("status {} gave a handle", status),
        }
    }
}

#[test]
fn every_error_has_its_message() {
    assert_eq!(CreationError::Detached.message(), "thread detached from JVM");
    assert_eq!(CreationError::Exists.message(), "JVM exists already");
    assert_eq!(CreationError::InvalidArguments.message(), "invalid arguments");
    assert_eq!(CreationError::OutOfMemory.message(), "not enough memory");
    assert_eq!(CreationError::Unknown.message(), "unknown error");
    assert_eq!(CreationError::Version.message(), "JNI version error");
    assert_eq!(CreationError::Unrecognized { code: 9 }.message(), "unknown JNI error value");
    assert_eq!(
        CreationError::MalformedOption { index: 3 }.message(),
        "option string contains a NUL byte"
    );
    assert_eq!(CreationError::TooManyOptions.message(), "too many options");
}

#[test]
fn a_signaled_error_names_the_primitive() {
    assert_eq!(
        CreationError::Detached.diagnostic(),
        "`JNI_CreateJavaVM()` signaled an error: thread detached from JVM"
    );
    assert_eq!(
        CreationError::Exists.diagnostic(),
        "`JNI_CreateJavaVM()` signaled an error: JVM exists already"
    );
    assert_eq!(
        CreationError::InvalidArguments.diagnostic(),
        "`JNI_CreateJavaVM()` signaled an error: invalid arguments"
    );
    assert_eq!(
        CreationError::OutOfMemory.diagnostic(),
        "`JNI_CreateJavaVM()` signaled an error: not enough memory"
    );
    assert_eq!(
        CreationError::Unknown.diagnostic(),
        "`JNI_CreateJavaVM()` signaled an error: unknown error"
    );
    assert_eq!(
        CreationError::Version.diagnostic(),
        "`JNI_CreateJavaVM()` signaled an error: JNI version error"
    );
    assert_eq!(
        CreationError::Unrecognized { code: -9 }.diagnostic(),
        "`JNI_CreateJavaVM()` signaled an error: unknown JNI error value"
    );
}

#[test]
fn an_error_found_before_the_call_names_no_primitive() {
    assert!(!CreationError::MalformedOption { index: 0 }.signaled());
    assert!(!CreationError::TooManyOptions.signaled());
    assert!(CreationError::Exists.signaled());
    assert!(CreationError::Unrecognized { code: 5 }.signaled());
    assert_eq!(
        CreationError::MalformedOption { index: 0 }.diagnostic(),
        "option string contains a NUL byte"
    );
    assert_eq!(CreationError::TooManyOptions.diagnostic(), "too many options");
}

#[test]
fn text_is_closed_by_one_nul_byte() {
    assert_eq!(to_c_string("java/lang/String"), Some(b"java/lang/String\0".to_vec()));
    assert_eq!(to_c_string(""), Some(vec![0u8]));
    assert_eq!(to_c_string("\u{e9}"), Some(vec![0xc3, 0xa9, 0x00]));
}

#[test]
fn text_with_a_nul_byte_has_no_terminated_form() {
    assert_eq!(to_c_string("\0"), None);
    assert_eq!(to_c_string("a\0b"), None);
    assert_eq!(to_c_string("tail\0"), None);
    assert_eq!(to_c_string("\0head"), None);
}
