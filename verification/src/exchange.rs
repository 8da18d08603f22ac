//! One operation on the virtual machine, as an exchange between this crate
//! and the driver that makes the foreign calls.
//!
//! Every operation follows one course: the calling thread is attached, the
//! foreign call is made, the virtual machine is asked for a pending
//! exception, a pending exception is described, the thread is detached, and
//! the result is read. An [`Exchange`] holds where on that course an
//! operation stands. The driver asks it for the next [`Action`], performs
//! it, and reports the [`Event`] that answers it.

use crate::exception::{
    exception_pending, print_and_panic_on_jvm_exception, print_jvm_exception, Verdict,
};
use crate::handle::{JvmClass, JvmMethod, JvmObject};
use crate::value::TaggedValue;
use vstd::prelude::*;

verus! {

/// The kinds of invocation that are offered.
#[derive(Clone, Copy, Debug, PartialEq, Eq, Structural)]
pub enum Selector {
    /// A constructor: the call returns a reference to the new object.
    Constructor,
    /// A static method that returns a `jboolean`.
    StaticBoolean,
    /// A static method that returns a `jint`.
    StaticInt,
    /// A static method that returns an object reference.
    StaticObject,
    /// A static method that returns nothing.
    StaticVoid,
}

/// The foreign call of an operation, with all that it is handed but the
/// environment of the attached thread.
#[derive(Debug, PartialEq, Eq)]
pub enum ForeignCall {
    /// Look a class up by its name, which is NUL-terminated.
    FindClass { name: Vec<u8> },
    /// Look a method of `class` up by its name and signature, both
    /// NUL-terminated.
    GetMethod { class: usize, name: Vec<u8>, signature: Vec<u8> },
    /// Invoke `method` of `class` on the arguments, in their order.
    Invoke { selector: Selector, class: usize, method: usize, args: Vec<TaggedValue> },
}

/// The mathematical value of a [`ForeignCall`].
pub enum ForeignCallView {
    FindClass { name: Seq<u8> },
    GetMethod { class: usize, name: Seq<u8>, signature: Seq<u8> },
    Invoke { selector: Selector, class: usize, method: usize, args: Seq<TaggedValue> },
}

impl View for ForeignCall {
    type V = ForeignCallView;

    open spec fn view(&self) -> ForeignCallView {
        match self {
            ForeignCall::FindClass { name } => ForeignCallView::FindClass { name: name@ },
            ForeignCall::GetMethod { class, name, signature } => ForeignCallView::GetMethod {
                class: *class,
                name: name@,
                signature: signature@,
            },
            ForeignCall::Invoke { selector, class, method, args } => ForeignCallView::Invoke {
                selector: *selector,
                class: *class,
                method: *method,
                args: args@,
            },
        }
    }
}

/// What a foreign call returned, before it is read.
#[derive(Clone, Copy, Debug, PartialEq, Eq, Structural)]
pub enum RawReturn {
    /// A reference or an identifier, as its address; null where the virtual
    /// machine found or made nothing.
    Reference(usize),
    /// A `jboolean`.
    Boolean(u8),
    /// A `jint`.
    Int(i32),
    /// Nothing.
    Void,
}

/// What an operation gives its caller.
#[derive(Debug, PartialEq, Eq)]
pub enum Reply {
    /// The class that was looked up, if there is one.
    Class(Option<JvmClass>),
    /// The method that was looked up, if there is one.
    Method(Option<JvmMethod>),
    /// The reference that a constructor returned, as it came: null or not.
    NewObject(usize),
    /// The `jboolean` that a static method returned.
    Boolean(u8),
    /// The `jint` that a static method returned.
    Int(i32),
    /// The object that a static method returned, if it returned one.
    Object(Option<JvmObject>),
    /// A static method without a result has returned.
    Void,
}

/// Why an operation has no result.
#[derive(Clone, Copy, Debug, PartialEq, Eq, Structural)]
pub enum CallError {
    /// The virtual machine held an exception pending after an invocation.
    Exception,
}

impl CallError {
    /// The text of [`CallError::message`].
    pub open spec fn message_text(self) -> Seq<char> {
        "An exception occurred"@
    }

    /// What went wrong, in a few words.
    pub fn message(&self) -> (message: &'static str)
        ensures
            message@ == self.message_text(),
    {
        "An exception occurred"
    }
}

/// Where on its course an operation stands.
#[derive(Clone, Copy, Debug, PartialEq, Eq, Structural)]
pub enum Phase {
    /// The thread is to be attached.
    Attaching,
    /// The thread is attached with environment `env`; the foreign call is to
    /// be made.
    Calling { env: usize },
    /// The foreign call returned `raw`; the virtual machine is to be asked
    /// for a pending exception.
    Checking { env: usize, raw: RawReturn },
    /// An exception is pending and is to be described; `verdict` is what the
    /// bridge decided about it.
    Describing { env: usize, raw: RawReturn, verdict: Verdict },
    /// The thread is to be detached.
    Detaching { raw: RawReturn, verdict: Verdict },
    /// The operation is over.
    Done { raw: RawReturn, verdict: Verdict },
}

/// What the driver is to do next.
#[derive(Clone, Copy, Debug, PartialEq, Eq, Structural)]
pub enum Action {
    /// Attach the calling thread to the virtual machine at `jvm`.
    Attach { jvm: usize },
    /// Make the foreign call of the exchange in environment `env`.
    Invoke { env: usize },
    /// Ask the virtual machine for the pending exception.
    ExceptionOccurred { env: usize },
    /// Have the virtual machine describe the pending exception.
    ExceptionDescribe { env: usize },
    /// Detach the calling thread from the virtual machine at `jvm`.
    Detach { jvm: usize },
    /// Nothing: the operation is over and its outcome can be read.
    Finish,
}

/// What the driver reports after an action.
#[derive(Clone, Copy, Debug, PartialEq, Eq, Structural)]
pub enum Event {
    /// The thread is attached, with environment `env`.
    Attached { env: usize },
    /// The foreign call returned.
    Returned(RawReturn),
    /// The exception-occurred query returned this reference.
    Exception(usize),
    /// The pending exception was described.
    Described,
    /// The thread is detached.
    Detached,
}

impl ForeignCallView {
    /// The call looks something up. A lookup that finds nothing is an
    /// ordinary outcome; every other call is an invocation.
    pub open spec fn is_lookup(self) -> bool {
        !(self is Invoke)
    }

    /// `raw` is of the kind that the call returns.
    pub open spec fn fits(self, raw: RawReturn) -> bool {
        match self {
            ForeignCallView::FindClass { .. } => raw is Reference,
            ForeignCallView::GetMethod { .. } => raw is Reference,
            ForeignCallView::Invoke { selector, .. } => match selector {
                Selector::Constructor => raw is Reference,
                Selector::StaticBoolean => raw is Boolean,
                Selector::StaticInt => raw is Int,
                Selector::StaticObject => raw is Reference,
                Selector::StaticVoid => raw is Void,
            },
        }
    }
}

/// What the bridge decides about the answer to the exception-occurred
/// query: nothing where no exception is pending; otherwise a description,
/// and for an invocation the end of the operation.
pub open spec fn judge(lookup: bool, exception: usize) -> Verdict {
    if !exception_pending(exception) {
        Verdict::Clear
    } else if lookup {
        Verdict::Describe
    } else {
        Verdict::DescribeAndAbort
    }
}

/// What the caller gets for `raw`, returned by `call` in the virtual
/// machine at `jvm`. A null reference from a lookup or from a static method
/// that returns an object is an absent handle; the reference that a
/// constructor returned is handed on as it is.
pub open spec fn decode(jvm: usize, call: ForeignCallView, raw: RawReturn) -> Reply {
    match (call, raw) {
        (ForeignCallView::FindClass { .. }, RawReturn::Reference(address)) => Reply::Class(
            JvmClass::wrap(jvm, address),
        ),
        (ForeignCallView::GetMethod { .. }, RawReturn::Reference(address)) => Reply::Method(
            JvmMethod::wrap(jvm, address),
        ),
        (
            ForeignCallView::Invoke { selector: Selector::Constructor, .. },
            RawReturn::Reference(address),
        ) => Reply::NewObject(address),
        (
            ForeignCallView::Invoke { selector: Selector::StaticObject, .. },
            RawReturn::Reference(address),
        ) => Reply::Object(JvmObject::wrap(jvm, address)),
        (_, RawReturn::Boolean(value)) => Reply::Boolean(value),
        (_, RawReturn::Int(value)) => Reply::Int(value),
        _ => Reply::Void,
    }
}

/// The mathematical value of an [`Exchange`].
pub struct ExchangeView {
    /// The address of the virtual machine.
    pub jvm: usize,
    /// The foreign call of the operation.
    pub call: ForeignCallView,
    /// Where the operation stands.
    pub phase: Phase,
}

impl ExchangeView {
    /// The exchange of an operation that has not begun.
    pub open spec fn fresh(jvm: usize, call: ForeignCallView) -> ExchangeView {
        ExchangeView { jvm, call, phase: Phase::Attaching }
    }

    /// `verdict` is one that the bridge gives for this call: a lookup is
    /// never aborted, and an invocation never goes on after an exception.
    pub open spec fn admits(self, verdict: Verdict) -> bool {
        match verdict {
            Verdict::Clear => true,
            Verdict::Describe => self.call.is_lookup(),
            Verdict::DescribeAndAbort => !self.call.is_lookup(),
        }
    }

    /// What holds of every exchange: a return that it keeps is of the kind
    /// that its call returns, a verdict that it keeps is one that the bridge
    /// gives for its call, and only a pending exception is described.
    pub open spec fn wf(self) -> bool {
        match self.phase {
            Phase::Attaching => true,
            Phase::Calling { .. } => true,
            Phase::Checking { raw, .. } => self.call.fits(raw),
            Phase::Describing { raw, verdict, .. } => self.call.fits(raw) && self.admits(verdict)
                && verdict != Verdict::Clear,
            Phase::Detaching { raw, verdict } => self.call.fits(raw) && self.admits(verdict),
            Phase::Done { raw, verdict } => self.call.fits(raw) && self.admits(verdict),
        }
    }

    /// How far the operation has come: the number of events that it has
    /// taken, but for a description that there was no need for.
    pub open spec fn rank(self) -> nat {
        match self.phase {
            Phase::Attaching => 0,
            Phase::Calling { .. } => 1,
            Phase::Checking { .. } => 2,
            Phase::Describing { .. } => 3,
            Phase::Detaching { .. } => 4,
            Phase::Done { .. } => 5,
        }
    }

    /// The thread is attached on behalf of this operation.
    pub open spec fn holds_attachment(self) -> bool {
        1 <= self.rank() <= 4
    }

    /// What the driver is to do next.
    pub open spec fn action(self) -> Action {
        match self.phase {
            Phase::Attaching => Action::Attach { jvm: self.jvm },
            Phase::Calling { env } => Action::Invoke { env },
            Phase::Checking { env, .. } => Action::ExceptionOccurred { env },
            Phase::Describing { env, .. } => Action::ExceptionDescribe { env },
            Phase::Detaching { .. } => Action::Detach { jvm: self.jvm },
            Phase::Done { .. } => Action::Finish,
        }
    }

    /// `event` answers the action that the exchange waits for.
    pub open spec fn accepts(self, event: Event) -> bool {
        match (self.phase, event) {
            (Phase::Attaching, Event::Attached { .. }) => true,
            (Phase::Calling { .. }, Event::Returned(raw)) => self.call.fits(raw),
            (Phase::Checking { .. }, Event::Exception(_)) => true,
            (Phase::Describing { .. }, Event::Described) => true,
            (Phase::Detaching { .. }, Event::Detached) => true,
            _ => false,
        }
    }

    /// The exchange after `event`. An event that does not answer the
    /// pending action changes nothing.
    pub open spec fn step(self, event: Event) -> ExchangeView {
        let phase = match (self.phase, event) {
            (Phase::Attaching, Event::Attached { env }) => Phase::Calling { env },
            (Phase::Calling { env }, Event::Returned(raw)) => if self.call.fits(raw) {
                Phase::Checking { env, raw }
            } else {
                self.phase
            },
            (Phase::Checking { env, raw }, Event::Exception(exception)) => match judge(
                self.call.is_lookup(),
                exception,
            ) {
                Verdict::Clear => Phase::Detaching { raw, verdict: Verdict::Clear },
                verdict => Phase::Describing { env, raw, verdict },
            },
            (Phase::Describing { raw, verdict, .. }, Event::Described) => Phase::Detaching {
                raw,
                verdict,
            },
            (Phase::Detaching { raw, verdict }, Event::Detached) => Phase::Done { raw, verdict },
            _ => self.phase,
        };
        ExchangeView { jvm: self.jvm, call: self.call, phase }
    }

    /// What the bridge decided about the pending exception: nothing before
    /// the exception-occurred query is answered, then the verdict.
    pub open spec fn verdict(self) -> Option<Verdict> {
        match self.phase {
            Phase::Describing { verdict, .. } => Some(verdict),
            Phase::Detaching { verdict, .. } => Some(verdict),
            Phase::Done { verdict, .. } => Some(verdict),
            _ => None,
        }
    }

    /// What the operation gives its caller: nothing before it is over, then
    /// the error where the bridge aborted it and else what the foreign call
    /// returned, read by [`decode`].
    pub open spec fn outcome(self) -> Option<Result<Reply, CallError>> {
        match self.phase {
            Phase::Done { raw, verdict } => Some(
                if verdict == Verdict::DescribeAndAbort {
                    Err(CallError::Exception)
                } else {
                    Ok(decode(self.jvm, self.call, raw))
                },
            ),
            _ => None,
        }
    }
}

impl ForeignCall {
    /// Tells whether the call looks something up.
    pub fn is_lookup(&self) -> (lookup: bool)
        ensures
            lookup == self@.is_lookup(),
    {
        match self {
            ForeignCall::Invoke { .. } => false,
            _ => true,
        }
    }

    /// Tells whether `raw` is of the kind that the call returns.
    pub fn fits(&self, raw: &RawReturn) -> (fits: bool)
        ensures
            fits == self@.fits(*raw),
    {
        match self {
            ForeignCall::FindClass { .. } => matches!(raw, RawReturn::Reference(_)),
            ForeignCall::GetMethod { .. } => matches!(raw, RawReturn::Reference(_)),
            ForeignCall::Invoke { selector, .. } => match selector {
                Selector::Constructor => matches!(raw, RawReturn::Reference(_)),
                Selector::StaticBoolean => matches!(raw, RawReturn::Boolean(_)),
                Selector::StaticInt => matches!(raw, RawReturn::Int(_)),
                Selector::StaticObject => matches!(raw, RawReturn::Reference(_)),
                Selector::StaticVoid => matches!(raw, RawReturn::Void),
            },
        }
    }
}

/// One operation on the virtual machine, under way.
#[derive(Debug)]
pub struct Exchange {
    jvm: usize,
    call: ForeignCall,
    phase: Phase,
}

impl View for Exchange {
    type V = ExchangeView;

    closed spec fn view(&self) -> ExchangeView {
        ExchangeView { jvm: self.jvm, call: self.call@, phase: self.phase }
    }
}

impl Exchange {
    #[verifier::type_invariant]
    spec fn sound(self) -> bool {
        self@.wf()
    }

    pub(crate) fn begin(jvm: usize, call: ForeignCall) -> (exchange: Exchange)
        ensures
            exchange@ == ExchangeView::fresh(jvm, call@),
    {
        Exchange { jvm, call, phase: Phase::Attaching }
    }

    /// The address of the virtual machine.
    pub fn jvm(&self) -> (jvm: usize)
        ensures
            jvm == self@.jvm,
    {
        self.jvm
    }

    /// The foreign call of the operation.
    pub fn call(&self) -> (call: &ForeignCall)
        ensures
            call@ == self@.call,
    {
        &self.call
    }

    /// Where the operation stands.
    pub fn phase(&self) -> (phase: Phase)
        ensures
            phase == self@.phase,
    {
        self.phase
    }

    /// What the driver is to do next.
    pub fn action(&self) -> (action: Action)
        ensures
            action == self@.action(),
    {
        match self.phase {
            Phase::Attaching => Action::Attach { jvm: self.jvm },
            Phase::Calling { env } => Action::Invoke { env },
            Phase::Checking { env, .. } => Action::ExceptionOccurred { env },
            Phase::Describing { env, .. } => Action::ExceptionDescribe { env },
            Phase::Detaching { .. } => Action::Detach { jvm: self.jvm },
            Phase::Done { .. } => Action::Finish,
        }
    }

    /// Tells whether the operation is over.
    pub fn is_done(&self) -> (done: bool)
        ensures
            done == (self@.phase is Done),
            done == (self@.outcome() is Some),
    {
        match self.phase {
            Phase::Done { .. } => true,
            _ => false,
        }
    }

    /// Tells whether `event` answers the action that the exchange waits for.
    pub fn accepts(&self, event: &Event) -> (accepted: bool)
        ensures
            accepted == self@.accepts(*event),
    {
        match (self.phase, *event) {
            (Phase::Attaching, Event::Attached { .. }) => true,
            (Phase::Calling { .. }, Event::Returned(raw)) => self.call.fits(&raw),
            (Phase::Checking { .. }, Event::Exception(_)) => true,
            (Phase::Describing { .. }, Event::Described) => true,
            (Phase::Detaching { .. }, Event::Detached) => true,
            _ => false,
        }
    }

    /// Takes the driver's report and moves on. An event that does not
    /// answer the pending action is refused and changes nothing.
    pub fn step(&mut self, event: Event) -> (accepted: bool)
        ensures
            accepted == old(self)@.accepts(event),
            final(self)@ == old(self)@.step(event),
            old(self)@.wf(),
            final(self)@.wf(),
    {
        proof {
            use_type_invariant(&*self);
        }
        let next: Option<Phase> = match (self.phase, event) {
            (Phase::Attaching, Event::Attached { env }) => Some(Phase::Calling { env }),
            (Phase::Calling { env }, Event::Returned(raw)) => if self.call.fits(&raw) {
                Some(Phase::Checking { env, raw })
            } else {
                None
            },
            (Phase::Checking { env, raw }, Event::Exception(exception)) => {
                let verdict = if self.call.is_lookup() {
                    print_jvm_exception(exception)
                } else {
                    print_and_panic_on_jvm_exception(exception)
                };
                match verdict {
                    Verdict::Clear => Some(Phase::Detaching { raw, verdict }),
                    _ => Some(Phase::Describing { env, raw, verdict }),
                }
            },
            (Phase::Describing { raw, verdict, .. }, Event::Described) => Some(
                Phase::Detaching { raw, verdict },
            ),
            (Phase::Detaching { raw, verdict }, Event::Detached) => Some(
                Phase::Done { raw, verdict },
            ),
            _ => None,
        };
        match next {
            Some(phase) => {
                self.phase = phase;
                true
            },
            None => false,
        }
    }

    /// What the bridge decided about the pending exception: nothing before
    /// the exception-occurred query is answered, then the verdict. It tells
    /// a lookup that found nothing and left no exception from one that
    /// found nothing and left one.
    pub fn verdict(&self) -> (verdict: Option<Verdict>)
        ensures
            verdict == self@.verdict(),
    {
        match self.phase {
            Phase::Describing { verdict, .. } => Some(verdict),
            Phase::Detaching { verdict, .. } => Some(verdict),
            Phase::Done { verdict, .. } => Some(verdict),
            _ => None,
        }
    }

    /// What the operation gives its caller: nothing before it is over, then
    /// its result or its error.
    pub fn outcome(&self) -> (outcome: Option<Result<Reply, CallError>>)
        ensures
            outcome == self@.outcome(),
    {
        match self.phase {
            Phase::Done { raw, verdict } => {
                match verdict {
                    Verdict::DescribeAndAbort => Some(Err(CallError::Exception)),
                    _ => Some(Ok(self.read(raw))),
                }
            },
            _ => None,
        }
    }

    fn read(&self, raw: RawReturn) -> (reply: Reply)
        ensures
            reply == decode(self@.jvm, self@.call, raw),
    {
        match raw {
            RawReturn::Boolean(value) => Reply::Boolean(value),
            RawReturn::Int(value) => Reply::Int(value),
            RawReturn::Void => Reply::Void,
            RawReturn::Reference(address) => match &self.call {
                ForeignCall::FindClass { .. } => Reply::Class(
                    JvmClass::resolve(self.jvm, address),
                ),
                ForeignCall::GetMethod { .. } => Reply::Method(
                    JvmMethod::resolve(self.jvm, address),
                ),
                ForeignCall::Invoke { selector, .. } => match selector {
                    Selector::Constructor => Reply::NewObject(address),
                    Selector::StaticObject => Reply::Object(
                        JvmObject::resolve(self.jvm, address),
                    ),
                    _ => Reply::Void,
                },
            },
        }
    }
}

} // verus!
