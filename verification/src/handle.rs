//! Handles for what a lookup or a call resolves to: a class, a method, an
//! object.
//!
//! A handle wraps one reference of the virtual machine, held as its address,
//! and remembers the virtual machine that it came from. No handle wraps a
//! null reference: a null reference means that nothing was found, and
//! becomes an absent handle.

use crate::cstring::{has_nul, to_c_string};
use crate::exchange::{Exchange, ExchangeView, ForeignCall, ForeignCallView};
use crate::jvm::Jvm;
use vstd::prelude::*;
use vstd::string::StringSliceAdditionalSpecFns;

verus! {

/// The reserved name of constructors, `<init>`, as NUL-terminated text.
pub open spec fn constructor_name() -> Seq<u8> {
    seq![0x3cu8, 0x69u8, 0x6eu8, 0x69u8, 0x74u8, 0x3eu8, 0u8]
}

/// The text `<init>` holds no NUL byte, and [`constructor_name`] is its
/// NUL-terminated form.
pub proof fn lemma_constructor_name()
    ensures
        !has_nul("<init>".spec_bytes()),
        "<init>".spec_bytes().push(0u8) == constructor_name(),
{
    broadcast use vstd::string::is_ascii_spec_bytes;

    reveal_strlit("<init>");
    let text = "<init>";
    assert(vstd::string::is_ascii(text));
    assert(text.spec_bytes() =~= seq![0x3cu8, 0x69u8, 0x6eu8, 0x69u8, 0x74u8, 0x3eu8]);
    assert(text.spec_bytes().push(0u8) =~= constructor_name());
}

/// A resolved class.
#[derive(Debug, PartialEq, Eq)]
pub struct JvmClass {
    jvm: usize,
    jvm_ptr: usize,
}

impl JvmClass {
    #[verifier::type_invariant]
    spec fn refers(self) -> bool {
        self.jvm_ptr != 0
    }

    /// The reference that the handle wraps.
    pub closed spec fn reference(self) -> usize {
        self.jvm_ptr
    }

    /// The virtual machine that the reference belongs to.
    pub closed spec fn origin(self) -> usize {
        self.jvm
    }

    /// The handle for a reference of the virtual machine at `jvm`: absent
    /// exactly for the null reference.
    pub closed spec fn wrap(jvm: usize, jvm_ptr: usize) -> Option<JvmClass> {
        if jvm_ptr == 0 {
            None
        } else {
            Some(JvmClass { jvm, jvm_ptr })
        }
    }

    /// What [`JvmClass::wrap`] gives: nothing for the null reference, and
    /// otherwise a handle that wraps the reference it was given.
    pub proof fn wrap_is_faithful(jvm: usize, jvm_ptr: usize)
        ensures
            jvm_ptr == 0 <==> JvmClass::wrap(jvm, jvm_ptr) is None,
            JvmClass::wrap(jvm, jvm_ptr) matches Some(class) ==> class.reference() == jvm_ptr
                && class.reference() != 0 && class.origin() == jvm,
    {
    }

    /// Wraps a class reference that the virtual machine `jvm` returned.
    pub fn from_jvm_ptr(jvm: &Jvm, jvm_ptr: usize) -> (class: Option<JvmClass>)
        ensures
            class == JvmClass::wrap(jvm.address(), jvm_ptr),
            jvm_ptr == 0 <==> class is None,
            class matches Some(found) ==> found.reference() == jvm_ptr && found.origin()
                == jvm.address(),
    {
        JvmClass::resolve(jvm.jvm(), jvm_ptr)
    }

    pub(crate) fn resolve(jvm: usize, jvm_ptr: usize) -> (class: Option<JvmClass>)
        ensures
            class == JvmClass::wrap(jvm, jvm_ptr),
    {
        if jvm_ptr == 0 {
            None
        } else {
            Some(JvmClass { jvm, jvm_ptr })
        }
    }

    /// The reference that the handle wraps; never null.
    pub fn jvm_ptr(&self) -> (jvm_ptr: usize)
        ensures
            jvm_ptr == self.reference(),
            jvm_ptr != 0,
    {
        proof {
            use_type_invariant(self);
        }
        self.jvm_ptr
    }

    /// The address of the virtual machine that the reference belongs to.
    pub fn jvm(&self) -> (jvm: usize)
        ensures
            jvm == self.origin(),
    {
        self.jvm
    }
}

/// A resolved method or constructor.
#[derive(Debug, PartialEq, Eq)]
pub struct JvmMethod {
    jvm: usize,
    jvm_ptr: usize,
}

impl JvmMethod {
    #[verifier::type_invariant]
    spec fn refers(self) -> bool {
        self.jvm_ptr != 0
    }

    /// The method identifier that the handle wraps.
    pub closed spec fn reference(self) -> usize {
        self.jvm_ptr
    }

    /// The virtual machine that the identifier belongs to.
    pub closed spec fn origin(self) -> usize {
        self.jvm
    }

    /// The handle for a method identifier of the virtual machine at `jvm`:
    /// absent exactly for the null identifier.
    pub closed spec fn wrap(jvm: usize, jvm_ptr: usize) -> Option<JvmMethod> {
        if jvm_ptr == 0 {
            None
        } else {
            Some(JvmMethod { jvm, jvm_ptr })
        }
    }

    /// What [`JvmMethod::wrap`] gives: nothing for the null identifier, and
    /// otherwise a handle that wraps the identifier it was given.
    pub proof fn wrap_is_faithful(jvm: usize, jvm_ptr: usize)
        ensures
            jvm_ptr == 0 <==> JvmMethod::wrap(jvm, jvm_ptr) is None,
            JvmMethod::wrap(jvm, jvm_ptr) matches Some(method) ==> method.reference() == jvm_ptr
                && method.reference() != 0 && method.origin() == jvm,
    {
    }

    /// Wraps a method identifier that the virtual machine `jvm` returned.
    pub fn from_jvm_ptr(jvm: &Jvm, jvm_ptr: usize) -> (method: Option<JvmMethod>)
        ensures
            method == JvmMethod::wrap(jvm.address(), jvm_ptr),
            jvm_ptr == 0 <==> method is None,
            method matches Some(found) ==> found.reference() == jvm_ptr && found.origin()
                == jvm.address(),
    {
        JvmMethod::resolve(jvm.jvm(), jvm_ptr)
    }

    pub(crate) fn resolve(jvm: usize, jvm_ptr: usize) -> (method: Option<JvmMethod>)
        ensures
            method == JvmMethod::wrap(jvm, jvm_ptr),
    {
        if jvm_ptr == 0 {
            None
        } else {
            Some(JvmMethod { jvm, jvm_ptr })
        }
    }

    /// Begins the lookup of the method of `jvm_class` with the given name
    /// and signature.
    ///
    /// A name or a signature that holds a NUL byte names no method, and
    /// nothing is begun. The outcome of the exchange is the method, absent
    /// where the virtual machine found none; it is never an error.
    pub fn get_method(
        jvm: &Jvm,
        jvm_class: &JvmClass,
        jvm_method_name: &str,
        jvm_method_signature: &str,
    ) -> (exchange: Option<Exchange>)
        ensures
            exchange is None <==> has_nul(jvm_method_name.spec_bytes()) || has_nul(
                jvm_method_signature.spec_bytes(),
            ),
            exchange matches Some(begun) ==> begun@ == ExchangeView::fresh(
                jvm.address(),
                ForeignCallView::GetMethod {
                    class: jvm_class.reference(),
                    name: jvm_method_name.spec_bytes().push(0u8),
                    signature: jvm_method_signature.spec_bytes().push(0u8),
                },
            ),
    {
        let name = match to_c_string(jvm_method_name) {
            None => return None,
            Some(name) => name,
        };
        let signature = match to_c_string(jvm_method_signature) {
            None => return None,
            Some(signature) => signature,
        };
        Some(
            Exchange::begin(
                jvm.jvm(),
                ForeignCall::GetMethod { class: jvm_class.jvm_ptr(), name, signature },
            ),
        )
    }

    /// The method identifier that the handle wraps; never null.
    pub fn jvm_ptr(&self) -> (jvm_ptr: usize)
        ensures
            jvm_ptr == self.reference(),
            jvm_ptr != 0,
    {
        proof {
            use_type_invariant(self);
        }
        self.jvm_ptr
    }

    /// The address of the virtual machine that the identifier belongs to.
    pub fn jvm(&self) -> (jvm: usize)
        ensures
            jvm == self.origin(),
    {
        self.jvm
    }
}

/// A reference to an object of the virtual machine.
#[derive(Debug, PartialEq, Eq)]
pub struct JvmObject {
    jvm: usize,
    jvm_ptr: usize,
}

impl JvmObject {
    #[verifier::type_invariant]
    spec fn refers(self) -> bool {
        self.jvm_ptr != 0
    }

    /// The reference that the handle wraps.
    pub closed spec fn reference(self) -> usize {
        self.jvm_ptr
    }

    /// The virtual machine that the reference belongs to.
    pub closed spec fn origin(self) -> usize {
        self.jvm
    }

    /// The handle for a reference of the virtual machine at `jvm`: absent
    /// exactly for the null reference.
    pub closed spec fn wrap(jvm: usize, jvm_ptr: usize) -> Option<JvmObject> {
        if jvm_ptr == 0 {
            None
        } else {
            Some(JvmObject { jvm, jvm_ptr })
        }
    }

    /// What [`JvmObject::wrap`] gives: nothing for the null reference, and
    /// otherwise a handle that wraps the reference it was given.
    pub proof fn wrap_is_faithful(jvm: usize, jvm_ptr: usize)
        ensures
            jvm_ptr == 0 <==> JvmObject::wrap(jvm, jvm_ptr) is None,
            JvmObject::wrap(jvm, jvm_ptr) matches Some(object) ==> object.reference() == jvm_ptr
                && object.reference() != 0 && object.origin() == jvm,
    {
    }

    /// Wraps an object reference that the virtual machine `jvm` returned.
    pub fn from_jvm_ptr(jvm: &Jvm, jvm_ptr: usize) -> (object: Option<JvmObject>)
        ensures
            object == JvmObject::wrap(jvm.address(), jvm_ptr),
            jvm_ptr == 0 <==> object is None,
            object matches Some(found) ==> found.reference() == jvm_ptr && found.origin()
                == jvm.address(),
    {
        JvmObject::resolve(jvm.jvm(), jvm_ptr)
    }

    pub(crate) fn resolve(jvm: usize, jvm_ptr: usize) -> (object: Option<JvmObject>)
        ensures
            object == JvmObject::wrap(jvm, jvm_ptr),
    {
        if jvm_ptr == 0 {
            None
        } else {
            Some(JvmObject { jvm, jvm_ptr })
        }
    }

    /// The reference that the handle wraps; never null.
    pub fn jvm_ptr(&self) -> (jvm_ptr: usize)
        ensures
            jvm_ptr == self.reference(),
            jvm_ptr != 0,
    {
        proof {
            use_type_invariant(self);
        }
        self.jvm_ptr
    }

    /// The address of the virtual machine that the reference belongs to.
    pub fn jvm(&self) -> (jvm: usize)
        ensures
            jvm == self.origin(),
    {
        self.jvm
    }
}

} // verus!
