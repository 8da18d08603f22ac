//! What holds of every exchange and of every creation, proved from the
//! definitions that the contracts of this crate are stated in.

use crate::creation::{attempt, CreationError, InitArgsView};
use crate::exception::{exception_pending, Verdict};
use crate::exchange::{
    decode, judge, Action, CallError, Event, ExchangeView, ForeignCallView, Phase, RawReturn,
    Reply,
};
use crate::handle::{JvmClass, JvmMethod, JvmObject};
use vstd::prelude::*;

verus! {

/// The exchange `from` after the driver has reported `events`, one after
/// the other.
pub open spec fn run(from: ExchangeView, events: Seq<Event>) -> ExchangeView
    decreases events.len(),
{
    if events.len() == 0 {
        from
    } else {
        run(from, events.drop_last()).step(events.last())
    }
}

/// How often the thread was attached on behalf of `from` while the driver
/// reported `events`.
pub open spec fn attaches(from: ExchangeView, events: Seq<Event>) -> nat
    decreases events.len(),
{
    if events.len() == 0 {
        0
    } else {
        let before = run(from, events.drop_last());
        let now: nat = if before.accepts(events.last()) && events.last() is Attached {
            1
        } else {
            0
        };
        attaches(from, events.drop_last()) + now
    }
}

/// How often the thread was detached on behalf of `from` while the driver
/// reported `events`.
pub open spec fn detaches(from: ExchangeView, events: Seq<Event>) -> nat
    decreases events.len(),
{
    if events.len() == 0 {
        0
    } else {
        let before = run(from, events.drop_last());
        let now: nat = if before.accepts(events.last()) && events.last() is Detached {
            1
        } else {
            0
        };
        detaches(from, events.drop_last()) + now
    }
}

/// The exchange `from` after an operation has taken its whole course: the
/// thread was attached with environment `env`, the foreign call returned
/// `raw`, the exception-occurred query returned `exception`, a pending
/// exception was described, and the thread was detached.
pub open spec fn carried_out(
    from: ExchangeView,
    env: usize,
    raw: RawReturn,
    exception: usize,
) -> ExchangeView {
    let checked = from.step(Event::Attached { env }).step(Event::Returned(raw)).step(
        Event::Exception(exception),
    );
    let described = if exception_pending(exception) {
        checked.step(Event::Described)
    } else {
        checked
    };
    described.step(Event::Detached)
}

/// What a driver reports that answers every action as the virtual machine
/// does: the attachment with environment `env`, the return `raw` of the
/// foreign call, the answer `exception` to the exception-occurred query, the
/// description where an exception is pending, and the detachment.
pub open spec fn course(env: usize, raw: RawReturn, exception: usize) -> Seq<Event> {
    let checked = seq![Event::Attached { env }, Event::Returned(raw), Event::Exception(exception)];
    if exception_pending(exception) {
        checked.push(Event::Described).push(Event::Detached)
    } else {
        checked.push(Event::Detached)
    }
}

/// Reporting one more event is one more step.
pub proof fn run_takes_steps(from: ExchangeView, events: Seq<Event>, event: Event)
    ensures
        run(from, events.push(event)) == run(from, events).step(event),
        run(from, Seq::empty()) == from,
{
    assert(events.push(event).drop_last() =~= events);
}

/// An exchange whose driver reports the [`course`] of an operation has been
/// [`carried_out`].
pub proof fn course_carries_out(from: ExchangeView, env: usize, raw: RawReturn, exception: usize)
    ensures
        run(from, course(env, raw, exception)) == carried_out(from, env, raw, exception),
{
    let attached = Seq::<Event>::empty().push(Event::Attached { env });
    let returned = attached.push(Event::Returned(raw));
    let checked = returned.push(Event::Exception(exception));
    run_takes_steps(from, Seq::empty(), Event::Attached { env });
    run_takes_steps(from, attached, Event::Returned(raw));
    run_takes_steps(from, returned, Event::Exception(exception));
    assert(checked =~= seq![
        Event::Attached { env },
        Event::Returned(raw),
        Event::Exception(exception),
    ]);
    if exception_pending(exception) {
        run_takes_steps(from, checked, Event::Described);
        run_takes_steps(from, checked.push(Event::Described), Event::Detached);
    } else {
        run_takes_steps(from, checked, Event::Detached);
    }
}

/// A step keeps an exchange well formed.
pub proof fn step_keeps_well_formed(exchange: ExchangeView, event: Event)
    requires
        exchange.wf(),
    ensures
        exchange.step(event).wf(),
{
}

/// An event that answers the pending action moves the exchange forward;
/// every other event leaves it as it is. No exchange moves once it is over,
/// and none takes more than five events.
pub proof fn step_moves_forward(exchange: ExchangeView, event: Event)
    ensures
        exchange.accepts(event) ==> exchange.rank() < exchange.step(event).rank() <= 5,
        !exchange.accepts(event) ==> exchange.step(event) == exchange,
        exchange.phase is Done ==> !exchange.accepts(event),
        exchange.step(event).jvm == exchange.jvm,
        exchange.step(event).call == exchange.call,
{
}

/// Whatever the driver reports, an exchange that was well formed stays so,
/// keeps its call, and never moves backward.
pub proof fn run_keeps_well_formed(from: ExchangeView, events: Seq<Event>)
    requires
        from.wf(),
    ensures
        run(from, events).wf(),
        run(from, events).jvm == from.jvm,
        run(from, events).call == from.call,
        from.rank() <= run(from, events).rank(),
    decreases events.len(),
{
    if events.len() > 0 {
        run_keeps_well_formed(from, events.drop_last());
        step_keeps_well_formed(run(from, events.drop_last()), events.last());
        step_moves_forward(run(from, events.drop_last()), events.last());
    }
}

proof fn lemma_attachment_count(from: ExchangeView, events: Seq<Event>)
    ensures
        from.rank() <= run(from, events).rank(),
        attaches(from, events) == (if from.rank() == 0 && run(from, events).rank() >= 1 {
            1nat
        } else {
            0nat
        }),
        detaches(from, events) == (if from.rank() <= 4 && run(from, events).rank() == 5 {
            1nat
        } else {
            0nat
        }),
    decreases events.len(),
{
    if events.len() > 0 {
        lemma_attachment_count(from, events.drop_last());
        step_moves_forward(run(from, events.drop_last()), events.last());
    }
}

/// The attachment of an operation is scoped to it.
///
/// Whatever the driver reports to an exchange that has not begun, the
/// thread is attached at most once on its behalf and detached only after
/// that; while the attachment is held the exchange is under way; and an
/// exchange that is over, however it ended, has had the thread attached
/// exactly once and detached exactly once.
pub proof fn attachment_released_exactly_once(from: ExchangeView, events: Seq<Event>)
    requires
        from.phase is Attaching,
    ensures
        attaches(from, events) <= 1,
        detaches(from, events) <= attaches(from, events),
        run(from, events).holds_attachment() <==> attaches(from, events) == 1 && detaches(
            from,
            events,
        ) == 0,
        run(from, events).phase is Done ==> attaches(from, events) == 1 && detaches(
            from,
            events,
        ) == 1,
{
    lemma_attachment_count(from, events);
}

/// A driver that answers every action as the virtual machine does attaches
/// the thread once and detaches it once, whether the operation gives a
/// value, an absent handle or an error.
pub proof fn course_releases_attachment(
    jvm: usize,
    call: ForeignCallView,
    env: usize,
    raw: RawReturn,
    exception: usize,
)
    requires
        call.fits(raw),
    ensures
        attaches(ExchangeView::fresh(jvm, call), course(env, raw, exception)) == 1,
        detaches(ExchangeView::fresh(jvm, call), course(env, raw, exception)) == 1,
        run(ExchangeView::fresh(jvm, call), course(env, raw, exception)).outcome() is Some,
{
    let begun = ExchangeView::fresh(jvm, call);
    course_carries_out(begun, env, raw, exception);
    attachment_released_exactly_once(begun, course(env, raw, exception));
}

/// The environment of the attached thread is used only while the
/// attachment is held: every action that names an environment is the action
/// of an exchange that holds the attachment, and the actions that attach
/// and detach name the virtual machine of the exchange.
pub proof fn environment_stays_in_scope(exchange: ExchangeView)
    ensures
        (exchange.action() is Invoke || exchange.action() is ExceptionOccurred
            || exchange.action() is ExceptionDescribe) ==> exchange.holds_attachment(),
        exchange.action() is Attach ==> exchange.action() == (Action::Attach {
            jvm: exchange.jvm,
        }) && !exchange.holds_attachment(),
        exchange.action() is Detach ==> exchange.action() == (Action::Detach {
            jvm: exchange.jvm,
        }) && exchange.holds_attachment(),
        exchange.action() is Finish <==> exchange.phase is Done,
{
}

/// The course of an operation.
///
/// The driver of an exchange that has not begun is asked, in this order,
/// to attach the thread, to make the foreign call in the environment that
/// the attachment gave, to ask for a pending exception in that environment,
/// to have a pending exception described, and to detach the thread. The
/// exchange is then over. Its outcome is an error exactly where an
/// exception was pending after an invocation, and else what the foreign
/// call returned, read by [`decode`].
pub proof fn operation_takes_its_course(
    jvm: usize,
    call: ForeignCallView,
    env: usize,
    raw: RawReturn,
    exception: usize,
)
    requires
        call.fits(raw),
    ensures
        ({
            let begun = ExchangeView::fresh(jvm, call);
            let attached = begun.step(Event::Attached { env });
            let returned = attached.step(Event::Returned(raw));
            let checked = returned.step(Event::Exception(exception));
            let over = carried_out(begun, env, raw, exception);
            &&& begun.action() == Action::Attach { jvm }
            &&& attached.action() == Action::Invoke { env }
            &&& returned.action() == Action::ExceptionOccurred { env }
            &&& exception_pending(exception) ==> checked.action() == Action::ExceptionDescribe {
                env,
            }
            &&& !exception_pending(exception) ==> checked.action() == Action::Detach { jvm }
            &&& exception_pending(exception) ==> checked.step(Event::Described).action()
                == Action::Detach { jvm }
            &&& over.action() == Action::Finish
            &&& over.verdict() == Some(judge(call.is_lookup(), exception))
            &&& over.outcome() == Some(
                if exception_pending(exception) && !call.is_lookup() {
                    Err::<Reply, CallError>(CallError::Exception)
                } else {
                    Ok::<Reply, CallError>(decode(jvm, call, raw))
                },
            )
        }),
{
}

/// Every outcome is of the kind of its call.
///
/// Whatever the driver reports to an exchange that has not begun, its
/// outcome, once there is one, is the error of an invocation or the reading
/// of a return of the kind that the call returns.
pub proof fn outcome_is_of_the_right_kind(jvm: usize, call: ForeignCallView, events: Seq<Event>)
    ensures
        run(ExchangeView::fresh(jvm, call), events).outcome() matches Some(outcome) ==> (outcome
            == Err::<Reply, CallError>(CallError::Exception) && !call.is_lookup()) || exists|
            raw: RawReturn,
        |
            call.fits(raw) && outcome == Ok::<Reply, CallError>(decode(jvm, call, raw)),
{
    let over = run(ExchangeView::fresh(jvm, call), events);
    run_keeps_well_formed(ExchangeView::fresh(jvm, call), events);
    if let Phase::Done { raw, verdict } = over.phase {
        if verdict != Verdict::DescribeAndAbort {
            assert(call.fits(raw) && over.outcome() == Some(
                Ok::<Reply, CallError>(decode(jvm, call, raw)),
            ));
        }
    }
}

/// A lookup never fails.
///
/// Whatever the driver reports to the exchange of a lookup, the outcome is
/// no error: a pending exception is described and changes nothing.
pub proof fn lookup_never_fails(jvm: usize, call: ForeignCallView, events: Seq<Event>)
    requires
        call.is_lookup(),
    ensures
        !(run(ExchangeView::fresh(jvm, call), events).outcome() matches Some(Err(_))),
{
    run_keeps_well_formed(ExchangeView::fresh(jvm, call), events);
}

/// A class that the virtual machine does not find is absent.
///
/// Where the lookup of a class returns the null reference, the outcome is
/// the absent class, whether an exception is pending or not.
pub proof fn class_lookup_absence(jvm: usize, name: Seq<u8>, env: usize, exception: usize)
    ensures
        carried_out(
            ExchangeView::fresh(jvm, ForeignCallView::FindClass { name }),
            env,
            RawReturn::Reference(0),
            exception,
        ).outcome() == Some(Ok::<Reply, CallError>(Reply::Class(None))),
{
    JvmClass::wrap_is_faithful(jvm, 0);
}

/// A class that the virtual machine finds is present.
///
/// Where the lookup of a class returns a reference that is not null, the
/// outcome is a class whose handle wraps that reference, whether an
/// exception is pending or not.
pub proof fn class_lookup_presence(
    jvm: usize,
    name: Seq<u8>,
    env: usize,
    address: usize,
    exception: usize,
)
    requires
        address != 0,
    ensures
        carried_out(
            ExchangeView::fresh(jvm, ForeignCallView::FindClass { name }),
            env,
            RawReturn::Reference(address),
            exception,
        ).outcome() matches Some(Ok(Reply::Class(Some(class)))) && class.reference() == address
            && class.reference() != 0 && class.origin() == jvm,
{
    JvmClass::wrap_is_faithful(jvm, address);
}

/// A method that the virtual machine resolves is present exactly where the
/// identifier that it returned is not null.
pub proof fn method_lookup_result(
    jvm: usize,
    class: usize,
    name: Seq<u8>,
    signature: Seq<u8>,
    env: usize,
    address: usize,
    exception: usize,
)
    ensures
        carried_out(
            ExchangeView::fresh(jvm, ForeignCallView::GetMethod { class, name, signature }),
            env,
            RawReturn::Reference(address),
            exception,
        ).outcome() == Some(
            Ok::<Reply, CallError>(Reply::Method(JvmMethod::wrap(jvm, address))),
        ),
        address == 0 <==> JvmMethod::wrap(jvm, address) is None,
{
    JvmMethod::wrap_is_faithful(jvm, address);
}

/// An exception ends an invocation.
///
/// Where an exception is pending after an invocation, the outcome is the
/// error and never a value, whatever the foreign call returned.
pub proof fn exception_aborts_invocation(
    jvm: usize,
    call: ForeignCallView,
    env: usize,
    raw: RawReturn,
    exception: usize,
)
    requires
        call is Invoke,
        call.fits(raw),
        exception_pending(exception),
    ensures
        carried_out(ExchangeView::fresh(jvm, call), env, raw, exception).outcome() == Some(
            Err::<Reply, CallError>(CallError::Exception),
        ),
{
}

/// An invocation that throws nothing gives what the foreign call returned:
/// the number, the truth value, nothing, the reference to the new object as
/// it came, or a handle for the returned object that is absent exactly
/// where the reference is null.
pub proof fn invocation_returns_value(
    jvm: usize,
    call: ForeignCallView,
    env: usize,
    raw: RawReturn,
)
    requires
        call is Invoke,
        call.fits(raw),
    ensures
        carried_out(ExchangeView::fresh(jvm, call), env, raw, 0).outcome() == Some(
            Ok::<Reply, CallError>(decode(jvm, call, raw)),
        ),
        raw matches RawReturn::Int(value) ==> decode(jvm, call, raw) == Reply::Int(value),
        raw matches RawReturn::Boolean(value) ==> decode(jvm, call, raw) == Reply::Boolean(
            value,
        ),
        raw is Void ==> decode(jvm, call, raw) == Reply::Void,
        raw matches RawReturn::Reference(address) ==> decode(jvm, call, raw) == Reply::NewObject(
            address,
        ) || decode(jvm, call, raw) == Reply::Object(JvmObject::wrap(jvm, address)),
{
}

/// A process has one virtual machine.
///
/// Of two attempts at a creation under one guard, one after the other, the
/// second fails where the first succeeded.
pub proof fn second_creation_fails(
    claimed_before: bool,
    first_options: Seq<&str>,
    claimed_between: bool,
    first: Result<InitArgsView, CreationError>,
    second_options: Seq<&str>,
    claimed_after: bool,
    second: Result<InitArgsView, CreationError>,
)
    requires
        attempt(claimed_before, first_options, claimed_between, first),
        attempt(claimed_between, second_options, claimed_after, second),
        first is Ok,
    ensures
        second == Err::<InitArgsView, CreationError>(CreationError::Exists),
        claimed_after,
{
}

/// A guard that is claimed stays claimed, and every attempt under it fails.
pub proof fn claimed_guard_admits_nothing(
    options: Seq<&str>,
    claimed_after: bool,
    result: Result<InitArgsView, CreationError>,
)
    requires
        attempt(true, options, claimed_after, result),
    ensures
        claimed_after,
        result == Err::<InitArgsView, CreationError>(CreationError::Exists),
{
}

/// An attempt succeeds exactly where the guard was free and every option
/// can be handed to the virtual machine; the guard is claimed exactly by an
/// attempt that succeeds.
pub proof fn attempt_succeeds_once(
    claimed_before: bool,
    options: Seq<&str>,
    claimed_after: bool,
    result: Result<InitArgsView, CreationError>,
)
    requires
        attempt(claimed_before, options, claimed_after, result),
    ensures
        result is Ok <==> !claimed_before && options.len() <= i32::MAX && forall|i: int|
            !crate::creation::malformed(options, i),
        claimed_after <==> claimed_before || result is Ok,
{
}

} // verus!
