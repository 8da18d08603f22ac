//! The runtime handle and the operations that start from it.
//!
//! No operation here makes a foreign call. Creation is prepared by
//! [`Jvm::new`] and read by [`Creation::conclude`]; every other operation
//! gives an [`Exchange`] that says, step by step, what is to be done.

use crate::creation::{
    attempt, malformed, prepared, Creation, CreationError, InitArgs, JvmOption, JvmOptionView,
    Singleton, init_args_for,
};
use crate::cstring::{has_nul, to_c_string};
use crate::exchange::{Exchange, ExchangeView, ForeignCall, ForeignCallView, Selector};
use crate::foreign::{jni_true, jni_version_1_8};
use crate::handle::{constructor_name, JvmClass, JvmMethod};
use crate::value::TaggedValue;
use vstd::prelude::*;
use vstd::string::StringSliceAdditionalSpecFns;

verus! {

/// Holds the one reference to the embedded virtual machine.
///
/// The handle is neither copied nor cloned, and dropping it leaves the
/// virtual machine running: unloading is not supported by the foreign side.
#[derive(Debug)]
pub struct Jvm {
    jvm: usize,
}

/// The invocation of `method` of `class` on `args` in the virtual machine at
/// `jvm`, before it has begun.
pub open spec fn invocation(
    jvm: usize,
    selector: Selector,
    class: JvmClass,
    method: JvmMethod,
    args: Seq<TaggedValue>,
) -> ExchangeView {
    ExchangeView::fresh(
        jvm,
        ForeignCallView::Invoke {
            selector,
            class: class.reference(),
            method: method.reference(),
            args,
        },
    )
}

impl Jvm {
    /// The address of the virtual machine's control structure.
    pub closed spec fn address(&self) -> usize {
        self.jvm
    }

    pub(crate) fn at(jvm: usize) -> (handle: Jvm)
        ensures
            handle.address() == jvm,
    {
        Jvm { jvm }
    }

    /// The address of the virtual machine's control structure.
    #[verifier::when_used_as_spec(address)]
    pub fn jvm(&self) -> (address: usize)
        ensures
            address == self.address(),
    {
        self.jvm
    }

    /// Prepares the creation of the virtual machine with the given options.
    ///
    /// A process may have one virtual machine, `guard` sees to that: the
    /// first preparation that succeeds claims it, and every later one fails
    /// with [`CreationError::Exists`]. An option that holds a NUL byte, or
    /// more options than a `jint` counts, fail and leave the guard free.
    ///
    /// The arguments ask for interface version 1.8, hold every option in its
    /// place as NUL-terminated text, and have unrecognized options passed
    /// over.
    pub fn new(guard: &mut Singleton, jvm_option_strings: &[&str]) -> (result: Result<
        Creation,
        CreationError,
    >)
        ensures
            attempt(
                old(guard).claimed(),
                jvm_option_strings@,
                final(guard).claimed(),
                prepared(result),
            ),
    {
        if guard.is_claimed() {
            return Err(CreationError::Exists);
        }
        let count: usize = jvm_option_strings.len();
        if count > 0x7fff_ffff {
            return Err(CreationError::TooManyOptions);
        }
        let mut options: Vec<JvmOption> = Vec::new();
        let mut i: usize = 0;
        while i < count
            invariant
                i <= count,
                count == jvm_option_strings@.len(),
                count <= i32::MAX,
                !old(guard).claimed(),
                !guard.claimed(),
                options@.len() == i,
                forall|j: int| 0 <= j < i ==> !malformed(jvm_option_strings@, j),
                forall|j: int|
                    0 <= j < i ==> (#[trigger] options@[j])@ == (JvmOptionView {
                        option_string: jvm_option_strings@[j].spec_bytes().push(0u8),
                        extra_info: 0,
                    }),
            decreases count - i,
        {
            match to_c_string(jvm_option_strings[i]) {
                None => {
                    assert(malformed(jvm_option_strings@, i as int));
                    return Err(CreationError::MalformedOption { index: i });
                },
                Some(option_string) => {
                    options.push(JvmOption { option_string, extra_info: 0 });
                },
            }
            i += 1;
        }
        let args = InitArgs {
            version: jni_version_1_8(),
            n_options: count as i32,
            options,
            ignore_unrecognized: jni_true(),
        };
        assert(args@.options =~= init_args_for(jvm_option_strings@).options);
        guard.claim();
        Ok(Creation::with(args))
    }

    /// Begins the call of a constructor of `jvm_class` on `args`.
    ///
    /// The outcome is the reference to the new object as the virtual machine
    /// returned it, or an error where the constructor threw.
    pub fn call_constructor(
        &self,
        jvm_class: &JvmClass,
        jvm_constructor_method: &JvmMethod,
        args: Vec<TaggedValue>,
    ) -> (exchange: Exchange)
        ensures
            exchange@ == invocation(
                self.address(),
                Selector::Constructor,
                *jvm_class,
                *jvm_constructor_method,
                args@,
            ),
    {
        self.invoke(Selector::Constructor, jvm_class, jvm_constructor_method, args)
    }

    /// Begins the call of a static method of `jvm_class` that returns a
    /// `jboolean`.
    ///
    /// The outcome is what the method returned, or an error where it threw.
    pub fn call_static_boolean_method(
        &self,
        jvm_class: &JvmClass,
        jvm_method: &JvmMethod,
        args: Vec<TaggedValue>,
    ) -> (exchange: Exchange)
        ensures
            exchange@ == invocation(
                self.address(),
                Selector::StaticBoolean,
                *jvm_class,
                *jvm_method,
                args@,
            ),
    {
        self.invoke(Selector::StaticBoolean, jvm_class, jvm_method, args)
    }

    /// Begins the call of a static method of `jvm_class` that returns a
    /// `jint`.
    ///
    /// The outcome is what the method returned, or an error where it threw.
    pub fn call_static_int_method(
        &self,
        jvm_class: &JvmClass,
        jvm_method: &JvmMethod,
        args: Vec<TaggedValue>,
    ) -> (exchange: Exchange)
        ensures
            exchange@ == invocation(
                self.address(),
                Selector::StaticInt,
                *jvm_class,
                *jvm_method,
                args@,
            ),
    {
        self.invoke(Selector::StaticInt, jvm_class, jvm_method, args)
    }

    /// Begins the call of a static method of `jvm_class` that returns an
    /// object.
    ///
    /// The outcome is a handle for what the method returned, absent where
    /// it returned null, or an error where it threw.
    pub fn call_static_object_method(
        &self,
        jvm_class: &JvmClass,
        jvm_method: &JvmMethod,
        args: Vec<TaggedValue>,
    ) -> (exchange: Exchange)
        ensures
            exchange@ == invocation(
                self.address(),
                Selector::StaticObject,
                *jvm_class,
                *jvm_method,
                args@,
            ),
    {
        self.invoke(Selector::StaticObject, jvm_class, jvm_method, args)
    }

    /// Begins the call of a static method of `jvm_class` that returns
    /// nothing.
    ///
    /// The outcome is empty, or an error where the method threw.
    pub fn call_static_void_method(
        &self,
        jvm_class: &JvmClass,
        jvm_method: &JvmMethod,
        args: Vec<TaggedValue>,
    ) -> (exchange: Exchange)
        ensures
            exchange@ == invocation(
                self.address(),
                Selector::StaticVoid,
                *jvm_class,
                *jvm_method,
                args@,
            ),
    {
        self.invoke(Selector::StaticVoid, jvm_class, jvm_method, args)
    }

    /// Begins the lookup of the class with the given name.
    ///
    /// A name that holds a NUL byte names no class, and nothing is begun.
    /// The outcome of the exchange is the class, absent where the virtual
    /// machine found none; it is never an error.
    pub fn get_class(&self, jvm_class_name: &str) -> (exchange: Option<Exchange>)
        ensures
            exchange is None <==> has_nul(jvm_class_name.spec_bytes()),
            exchange matches Some(begun) ==> begun@ == ExchangeView::fresh(
                self.address(),
                ForeignCallView::FindClass { name: jvm_class_name.spec_bytes().push(0u8) },
            ),
    {
        match to_c_string(jvm_class_name) {
            None => None,
            Some(name) => Some(Exchange::begin(self.jvm, ForeignCall::FindClass { name })),
        }
    }

    /// Begins the lookup of the constructor of `jvm_class` with the given
    /// signature: the lookup of the method whose name is the reserved name
    /// of constructors.
    ///
    /// A signature that holds a NUL byte is no signature, and nothing is
    /// begun. The outcome of the exchange is the constructor, absent where
    /// the virtual machine found none; it is never an error.
    pub fn get_constructor(&self, jvm_class: &JvmClass, jvm_method_signature: &str) -> (exchange:
        Option<Exchange>)
        ensures
            exchange is None <==> has_nul(jvm_method_signature.spec_bytes()),
            exchange matches Some(begun) ==> begun@ == ExchangeView::fresh(
                self.address(),
                ForeignCallView::GetMethod {
                    class: jvm_class.reference(),
                    name: constructor_name(),
                    signature: jvm_method_signature.spec_bytes().push(0u8),
                },
            ),
    {
        proof {
            crate::handle::lemma_constructor_name();
        }
        JvmMethod::get_method(self, jvm_class, "<init>", jvm_method_signature)
    }

    fn invoke(
        &self,
        selector: Selector,
        jvm_class: &JvmClass,
        jvm_method: &JvmMethod,
        args: Vec<TaggedValue>,
    ) -> (exchange: Exchange)
        ensures
            exchange@ == invocation(self.address(), selector, *jvm_class, *jvm_method, args@),
    {
        Exchange::begin(
            self.jvm,
            ForeignCall::Invoke {
                selector,
                class: jvm_class.jvm_ptr(),
                method: jvm_method.jvm_ptr(),
                args,
            },
        )
    }
}

} // verus!
