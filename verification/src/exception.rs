//! The exception bridge: what is done about an exception that the virtual
//! machine holds pending after a foreign call.
//!
//! The virtual machine answers its exception-occurred query with a
//! reference, which is null when no exception is pending. The functions
//! here take that reference as an address and decide; the driver asks the
//! virtual machine to describe the exception where the verdict says so.

use vstd::prelude::*;

verus! {

/// What the bridge decides about the answer to an exception-occurred query.
#[derive(Clone, Copy, Debug, PartialEq, Eq, Structural)]
pub enum Verdict {
    /// No exception is pending: nothing is printed and the operation goes on.
    Clear,
    /// An exception is pending: the virtual machine describes it on its
    /// diagnostic channel and the operation goes on. The exception is not
    /// cleared.
    Describe,
    /// An exception is pending: the virtual machine describes it on its
    /// diagnostic channel and the operation fails for good.
    DescribeAndAbort,
}

/// An exception is pending exactly when the reference that the
/// exception-occurred query returned is not null.
pub open spec fn exception_pending(exception: usize) -> bool {
    exception != 0
}

/// Tells whether the answer to an exception-occurred query names a pending
/// exception.
pub fn jvm_exception_occured(exception: usize) -> (pending: bool)
    ensures
        pending == exception_pending(exception),
{
    exception != 0
}

/// The verdict where an exception is an ordinary outcome, as in a lookup:
/// a pending one is described and nothing more.
pub fn print_jvm_exception(exception: usize) -> (verdict: Verdict)
    ensures
        exception_pending(exception) ==> verdict == Verdict::Describe,
        !exception_pending(exception) ==> verdict == Verdict::Clear,
{
    if jvm_exception_occured(exception) {
        Verdict::Describe
    } else {
        Verdict::Clear
    }
}

/// The verdict where an exception is a fault, as in an invocation: a
/// pending one is described and the operation fails.
pub fn print_and_panic_on_jvm_exception(exception: usize) -> (verdict: Verdict)
    ensures
        exception_pending(exception) ==> verdict == Verdict::DescribeAndAbort,
        !exception_pending(exception) ==> verdict == Verdict::Clear,
{
    if jvm_exception_occured(exception) {
        Verdict::DescribeAndAbort
    } else {
        Verdict::Clear
    }
}

} // verus!
