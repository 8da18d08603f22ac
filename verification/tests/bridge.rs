use rucaja::{
    jvm_exception_occured, print_and_panic_on_jvm_exception, print_jvm_exception, Jvm, JvmClass,
    JvmMethod, JvmObject, Singleton, Verdict,
};

fn machine(address: usize) -> Jvm {
    let mut guard = Singleton::new();
    let creation = Jvm::new(&mut guard, &["-Xcheck:jni"]).unwrap();
    creation.conclude(jni_sys::JNI_OK, address, 0x5000).unwrap()
}

#[test]
fn a_null_reference_is_no_pending_exception() {
    assert!(!jvm_exception_occured(0));
}

#[test]
fn any_other_reference_is_a_pending_exception() {
    assert!(jvm_exception_occured(1));
    assert!(jvm_exception_occured(0x7f00_1000));
    assert!(jvm_exception_occured(usize::MAX));
}

#[test]
fn a_lookup_describes_and_goes_on() {
    assert_eq!(print_jvm_exception(0), Verdict::Clear);
    assert_eq!(print_jvm_exception(0x7f00_1000), Verdict::Describe);
    assert_eq!(print_jvm_exception(usize::MAX), Verdict::Describe);
}

#[test]
fn an_invocation_describes_and_aborts() {
    assert_eq!(print_and_panic_on_jvm_exception(0), Verdict::Clear);
    assert_eq!(print_and_panic_on_jvm_exception(0x7f00_1000), Verdict::DescribeAndAbort);
    assert_eq!(print_and_panic_on_jvm_exception(usize::MAX), Verdict::DescribeAndAbort);
}

#[test]
fn a_null_class_reference_is_absent() {
    let jvm = machine(0x1000);
    assert_eq!(JvmClass::from_jvm_ptr(&jvm, 0), None);
}

#[test]
fn a_class_handle_wraps_its_reference() {
    let jvm = machine(0x1000);
    let class = JvmClass::from_jvm_ptr(&jvm, 0x2000).unwrap();
    assert_eq!(class.jvm_ptr(), 0x2000);
    assert_eq!(class.jvm(), 0x1000);
}

#[test]
fn a_null_method_identifier_is_absent() {
    let jvm = machine(0x1000);
    assert_eq!(JvmMethod::from_jvm_ptr(&jvm, 0), None);
}

#[test]
fn a_method_handle_wraps_its_identifier() {
    let jvm = machine(0x1000);
    let method = JvmMethod::from_jvm_ptr(&jvm, 0x3000).unwrap();
    assert_eq!(method.jvm_ptr(), 0x3000);
    assert_eq!(method.jvm(), 0x1000);
}

#[test]
fn a_null_object_reference_is_absent() {
    let jvm = machine(0x1000);
    assert_eq!(JvmObject::from_jvm_ptr(&jvm, 0), None);
}

#[test]
fn an_object_handle_wraps_its_reference() {
    let jvm = machine(0x1000);
    let object = JvmObject::from_jvm_ptr(&jvm, usize::MAX).unwrap();
    assert_eq!(object.jvm_ptr(), usize::MAX);
    assert_eq!(object.jvm(), 0x1000);
}

#[test]
fn handles_of_different_machines_differ() {
    let first = machine(0x1000);
    let second = machine(0x9000);
    assert_ne!(JvmClass::from_jvm_ptr(&first, 0x2000), JvmClass::from_jvm_ptr(&second, 0x2000));
    assert_eq!(JvmClass::from_jvm_ptr(&first, 0x2000), JvmClass::from_jvm_ptr(&first, 0x2000));
}
