//! Creation of the virtual machine: the arguments that the creation
//! primitive is handed, and what its status means.
//!
//! Creation takes two steps around one foreign call. [`Jvm::new`] checks
//! that the process has not asked for a virtual machine before and prepares
//! the arguments; the driver hands them to the creation primitive; and
//! [`Creation::conclude`] reads the status that the primitive reported.

use crate::cstring::has_nul;
use crate::foreign::{
    jni_edetached, jni_eexist, jni_einval, jni_enomem, jni_err, jni_eversion, jni_ok,
};
use crate::jvm::Jvm;
use vstd::prelude::*;
use vstd::string::StringSliceAdditionalSpecFns;

verus! {

/// Why no virtual machine was created.
#[derive(Clone, Copy, Debug, PartialEq, Eq, Structural)]
pub enum CreationError {
    /// The creation primitive reported that the thread is detached from the
    /// virtual machine.
    Detached,
    /// A virtual machine exists already, or this process has asked for one
    /// before.
    Exists,
    /// The creation primitive reported invalid arguments.
    InvalidArguments,
    /// The creation primitive reported that memory ran out.
    OutOfMemory,
    /// The creation primitive reported an unspecified failure.
    Unknown,
    /// The creation primitive does not offer the requested interface version.
    Version,
    /// The creation primitive reported a status that the interface does not
    /// define.
    Unrecognized { code: i32 },
    /// The option at `index` holds a NUL byte, so it cannot be handed to the
    /// virtual machine; no option before it does.
    MalformedOption { index: usize },
    /// There are more options than the creation primitive can count.
    TooManyOptions,
}

/// What a status of the creation primitive means: nothing is wrong where
/// the status is 0, and every other status is an error of its own.
pub open spec fn status_error(status: i32) -> Option<CreationError> {
    if status == 0 {
        None
    } else if status == -2 {
        Some(CreationError::Detached)
    } else if status == -5 {
        Some(CreationError::Exists)
    } else if status == -6 {
        Some(CreationError::InvalidArguments)
    } else if status == -4 {
        Some(CreationError::OutOfMemory)
    } else if status == -1 {
        Some(CreationError::Unknown)
    } else if status == -3 {
        Some(CreationError::Version)
    } else {
        Some(CreationError::Unrecognized { code: status })
    }
}

impl CreationError {
    /// The error is one that the creation primitive reported by its status.
    pub open spec fn is_signaled(self) -> bool {
        !(self is MalformedOption) && !(self is TooManyOptions)
    }

    /// The text of [`CreationError::message`].
    pub open spec fn message_text(self) -> Seq<char> {
        match self {
            CreationError::Detached => "thread detached from JVM"@,
            CreationError::Exists => "JVM exists already"@,
            CreationError::InvalidArguments => "invalid arguments"@,
            CreationError::OutOfMemory => "not enough memory"@,
            CreationError::Unknown => "unknown error"@,
            CreationError::Version => "JNI version error"@,
            CreationError::Unrecognized { .. } => "unknown JNI error value"@,
            CreationError::MalformedOption { .. } => "option string contains a NUL byte"@,
            CreationError::TooManyOptions => "too many options"@,
        }
    }

    /// The text of [`CreationError::diagnostic`].
    pub open spec fn diagnostic_text(self) -> Seq<char> {
        if self.is_signaled() {
            "`JNI_CreateJavaVM()` signaled an error: "@ + self.message_text()
        } else {
            self.message_text()
        }
    }

    /// Reads a status of the creation primitive.
    pub fn from_status(status: i32) -> (error: Option<CreationError>)
        ensures
            error == status_error(status),
    {
        if status == jni_ok() {
            None
        } else if status == jni_edetached() {
            Some(CreationError::Detached)
        } else if status == jni_eexist() {
            Some(CreationError::Exists)
        } else if status == jni_einval() {
            Some(CreationError::InvalidArguments)
        } else if status == jni_enomem() {
            Some(CreationError::OutOfMemory)
        } else if status == jni_err() {
            Some(CreationError::Unknown)
        } else if status == jni_eversion() {
            Some(CreationError::Version)
        } else {
            Some(CreationError::Unrecognized { code: status })
        }
    }

    /// Tells whether the creation primitive reported the error by its
    /// status.
    pub fn signaled(&self) -> (signaled: bool)
        ensures
            signaled == self.is_signaled(),
    {
        match self {
            CreationError::MalformedOption { .. } => false,
            CreationError::TooManyOptions => false,
            _ => true,
        }
    }

    /// What went wrong, in a few words.
    pub fn message(&self) -> (message: &'static str)
        ensures
            message@ == self.message_text(),
    {
        match self {
            CreationError::Detached => "thread detached from JVM",
            CreationError::Exists => "JVM exists already",
            CreationError::InvalidArguments => "invalid arguments",
            CreationError::OutOfMemory => "not enough memory",
            CreationError::Unknown => "unknown error",
            CreationError::Version => "JNI version error",
            CreationError::Unrecognized { .. } => "unknown JNI error value",
            CreationError::MalformedOption { .. } => "option string contains a NUL byte",
            CreationError::TooManyOptions => "too many options",
        }
    }

    /// The line for the diagnostic stream: the message, and before it the
    /// name of the creation primitive where the primitive reported the error.
    pub fn diagnostic(&self) -> (line: String)
        ensures
            line@ == self.diagnostic_text(),
    {
        if self.signaled() {
            let mut line = String::from_str("`JNI_CreateJavaVM()` signaled an error: ");
            line.append(self.message());
            line
        } else {
            String::from_str(self.message())
        }
    }
}

/// One option of the virtual machine as the creation primitive takes it.
#[derive(Debug, PartialEq, Eq)]
pub struct JvmOption {
    /// The option's text, closed by a NUL byte.
    pub option_string: Vec<u8>,
    /// The address of the option's extra information; always null.
    pub extra_info: usize,
}

/// The mathematical value of a [`JvmOption`].
pub struct JvmOptionView {
    pub option_string: Seq<u8>,
    pub extra_info: usize,
}

impl View for JvmOption {
    type V = JvmOptionView;

    open spec fn view(&self) -> JvmOptionView {
        JvmOptionView { option_string: self.option_string@, extra_info: self.extra_info }
    }
}

/// The arguments of the creation primitive.
#[derive(Debug, PartialEq, Eq)]
pub struct InitArgs {
    /// The tag of the interface version that is asked for.
    pub version: i32,
    /// The number of options.
    pub n_options: i32,
    /// The options, in the order in which they were given.
    pub options: Vec<JvmOption>,
    /// As a `jboolean`: whether the virtual machine passes over options that
    /// it does not recognize.
    pub ignore_unrecognized: u8,
}

/// The mathematical value of [`InitArgs`].
pub struct InitArgsView {
    pub version: i32,
    pub n_options: i32,
    pub options: Seq<JvmOptionView>,
    pub ignore_unrecognized: u8,
}

impl View for InitArgs {
    type V = InitArgsView;

    open spec fn view(&self) -> InitArgsView {
        InitArgsView {
            version: self.version,
            n_options: self.n_options,
            options: self.options@.map_values(|option: JvmOption| option@),
            ignore_unrecognized: self.ignore_unrecognized,
        }
    }
}

/// The option at place `i` holds a NUL byte.
pub open spec fn malformed(options: Seq<&str>, i: int) -> bool {
    0 <= i < options.len() && has_nul(options[i].spec_bytes())
}

/// The arguments that stand for `options`: interface version 1.8, every
/// option in its place as NUL-terminated text without extra information,
/// their number, and unrecognized options passed over.
pub open spec fn init_args_for(options: Seq<&str>) -> InitArgsView {
    InitArgsView {
        version: 0x0001_0008,
        n_options: options.len() as i32,
        options: Seq::new(
            options.len(),
            |i: int|
                JvmOptionView { option_string: options[i].spec_bytes().push(0u8), extra_info: 0 },
        ),
        ignore_unrecognized: 1,
    }
}

/// One attempt to prepare a creation, as a relation between the guard
/// before and after it, the options and the result.
///
/// An attempt on a claimed guard fails with [`CreationError::Exists`]. On a
/// free guard, options that cannot be handed over fail and leave the guard
/// free; all others claim the guard and give the arguments for them.
pub open spec fn attempt(
    claimed_before: bool,
    options: Seq<&str>,
    claimed_after: bool,
    result: Result<InitArgsView, CreationError>,
) -> bool {
    if claimed_before {
        claimed_after && result == Err::<InitArgsView, CreationError>(CreationError::Exists)
    } else if options.len() > i32::MAX {
        !claimed_after && result == Err::<InitArgsView, CreationError>(
            CreationError::TooManyOptions,
        )
    } else if exists|i: int| malformed(options, i) {
        &&& !claimed_after
        &&& result matches Err(CreationError::MalformedOption { index })
        &&& malformed(options, index as int)
        &&& forall|j: int| 0 <= j < index ==> !malformed(options, j)
    } else {
        claimed_after && result == Ok::<InitArgsView, CreationError>(init_args_for(options))
    }
}

/// The guard of the one virtual machine that a process may have.
///
/// A process keeps one guard for its lifetime and hands it to every
/// [`Jvm::new`]. The guard is claimed by the first attempt that reaches the
/// creation primitive and is never free again.
#[derive(Debug)]
pub struct Singleton {
    claimed: bool,
}

impl Singleton {
    /// A creation has been prepared under this guard.
    pub closed spec fn claimed(&self) -> bool {
        self.claimed
    }

    /// A free guard.
    pub fn new() -> (guard: Singleton)
        ensures
            !guard.claimed(),
    {
        Singleton { claimed: false }
    }

    /// Tells whether a creation has been prepared under this guard.
    pub fn is_claimed(&self) -> (claimed: bool)
        ensures
            claimed == self.claimed(),
    {
        self.claimed
    }

    pub(crate) fn claim(&mut self)
        ensures
            final(self).claimed(),
    {
        self.claimed = true;
    }
}

/// A creation that has been prepared and waits for the creation primitive.
#[derive(Debug)]
pub struct Creation {
    args: InitArgs,
}

/// What a prepared creation holds, as a mathematical value.
pub open spec fn prepared(result: Result<Creation, CreationError>) -> Result<
    InitArgsView,
    CreationError,
> {
    match result {
        Ok(creation) => Ok(creation.arguments()),
        Err(error) => Err(error),
    }
}

impl Creation {
    /// The arguments that the creation primitive is to be handed.
    pub closed spec fn arguments(&self) -> InitArgsView {
        self.args@
    }

    pub(crate) fn with(args: InitArgs) -> (creation: Creation)
        ensures
            creation.arguments() == args@,
    {
        Creation { args }
    }

    /// The arguments that the creation primitive is to be handed.
    pub fn init_args(&self) -> (args: &InitArgs)
        ensures
            args@ == self.arguments(),
    {
        &self.args
    }

    /// Reads what the creation primitive reported: its status, the address
    /// of the virtual machine and the address of the first environment.
    ///
    /// Status 0 gives the handle of the virtual machine at `jvm`; the
    /// environment is dropped, since every later operation attaches its own
    /// thread. Every other status gives its error.
    pub fn conclude(self, status: i32, jvm: usize, jni_environment: usize) -> (result: Result<
        Jvm,
        CreationError,
    >)
        ensures
            status_error(status) matches Some(error) ==> result == Err::<Jvm, CreationError>(
                error,
            ),
            status_error(status) is None ==> (result matches Ok(handle) && handle.address() == jvm),
    {
        match CreationError::from_status(status) {
            Some(error) => Err(error),
            None => Ok(Jvm::at(jvm)),
        }
    }
}

} // verus!
