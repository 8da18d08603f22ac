//! The constants of the Java Native Interface that this crate decides by.
//!
//! Each function below reads one constant of `jni_sys` and states its value;
//! the statement is taken on trust from the `jni_sys` source.

use vstd::prelude::*;

verus! {

/// `jni_sys::JNI_OK`, the status of a successful call: 0.
#[verifier::external_body]
pub(crate) fn jni_ok() -> (code: i32)
    ensures
        code == 0,
{
    jni_sys::JNI_OK
}

/// `jni_sys::JNI_ERR`, the status of an unspecified failure: -1.
#[verifier::external_body]
pub(crate) fn jni_err() -> (code: i32)
    ensures
        code == -1,
{
    jni_sys::JNI_ERR
}

/// `jni_sys::JNI_EDETACHED`, the status of a call from a thread that is not
/// attached to the virtual machine: -2.
#[verifier::external_body]
pub(crate) fn jni_edetached() -> (code: i32)
    ensures
        code == -2,
{
    jni_sys::JNI_EDETACHED
}

/// `jni_sys::JNI_EVERSION`, the status of a request for an interface version
/// that the virtual machine does not offer: -3.
#[verifier::external_body]
pub(crate) fn jni_eversion() -> (code: i32)
    ensures
        code == -3,
{
    jni_sys::JNI_EVERSION
}

/// `jni_sys::JNI_ENOMEM`, the status of a call that ran out of memory: -4.
#[verifier::external_body]
pub(crate) fn jni_enomem() -> (code: i32)
    ensures
        code == -4,
{
    jni_sys::JNI_ENOMEM
}

/// `jni_sys::JNI_EEXIST`, the status of a creation while a virtual machine
/// exists already: -5.
#[verifier::external_body]
pub(crate) fn jni_eexist() -> (code: i32)
    ensures
        code == -5,
{
    jni_sys::JNI_EEXIST
}

/// `jni_sys::JNI_EINVAL`, the status of a call with invalid arguments: -6.
#[verifier::external_body]
pub(crate) fn jni_einval() -> (code: i32)
    ensures
        code == -6,
{
    jni_sys::JNI_EINVAL
}

/// `jni_sys::JNI_VERSION_1_8`, the tag of interface version 1.8: 0x00010008.
#[verifier::external_body]
pub(crate) fn jni_version_1_8() -> (version: i32)
    ensures
        version == 0x0001_0008,
{
    jni_sys::JNI_VERSION_1_8
}

/// `jni_sys::JNI_TRUE`, the `jboolean` that stands for true: 1.
#[verifier::external_body]
pub(crate) fn jni_true() -> (flag: u8)
    ensures
        flag == 1,
{
    jni_sys::JNI_TRUE
}

} // verus!
