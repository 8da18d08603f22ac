//! A verified core for embedding a Java virtual machine in a host process.
//!
//! The crate holds every decision of the embedding layer: how creation
//! arguments are assembled, how a status of the creation primitive is read,
//! how values are marshaled, in which order the foreign calls of one
//! operation are made, and what a caller gets back. The foreign calls
//! themselves are made by a driver outside this crate, which performs the
//! [`exchange::Action`] it is handed and answers with an [`exchange::Event`].

pub mod creation;
pub mod cstring;
pub mod exception;
pub mod exchange;
pub mod foreign;
pub mod handle;
pub mod jvm;
pub mod laws;
pub mod value;

pub use creation::{Creation, CreationError, InitArgs, JvmOption, Singleton};
pub use exception::{
    jvm_exception_occured, print_and_panic_on_jvm_exception, print_jvm_exception, Verdict,
};
pub use exchange::{
    Action, CallError, Event, Exchange, ForeignCall, Phase, RawReturn, Reply, Selector,
};
pub use handle::{JvmClass, JvmMethod, JvmObject};
pub use jvm::Jvm;
pub use value::{
    jvalue_from_jboolean, jvalue_from_jbyte, jvalue_from_jchar, jvalue_from_jdouble,
    jvalue_from_jfloat, jvalue_from_jint, jvalue_from_jlong, jvalue_from_jobject,
    jvalue_from_jshort, TaggedValue, ValueKind,
};
