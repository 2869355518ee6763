use vstd::prelude::*;

use std::sync::Arc;

verus! {

/// Declares the opaque stack-trace type of the `backtrace` crate so that it
/// can stand in signatures and fields. Its contents are never inspected here.
#[verifier::external_type_specification]
#[verifier::external_body]
pub struct ExBacktrace(backtrace::Backtrace);

/// Relies on `backtrace::Backtrace::new`: captures the call stack at the
/// point of the call. Which frames it holds depends on the machine and the
/// moment, so nothing is promised of the result.
#[verifier::external_body]
fn capture_backtrace() -> backtrace::Backtrace {
    backtrace::Backtrace::new()
}

/// Relies on `std::sync::Arc::clone`: the clone points to the same
/// allocation, hence carries the very same trace.
#[verifier::external_body]
fn clone_trace(t: &Arc<backtrace::Backtrace>) -> (r: Arc<backtrace::Backtrace>)
    ensures
        r == *t,
{
    Arc::clone(t)
}

/// Clones the shared trace out of an optional slot, if one is there.
pub(crate) fn copy_trace(slot: &Option<Arc<backtrace::Backtrace>>) -> (r: Option<
    Arc<backtrace::Backtrace>,
>)
    ensures
        r == *slot,
{
    match slot {
        Some(t) => Some(clone_trace(t)),
        None => None,
    }
}

/// Decides, from the value of the `RUST_BACKTRACE` environment variable as
/// the caller read it, whether a backtrace should be captured: yes exactly
/// when the variable is set to anything but `0`.
pub fn backtrace_requested(val: Option<String>) -> (r: bool)
    ensures
        r <==> (val matches Some(v) && v@ != "0"@),
{
    match val {
        Some(v) => {
            let zero: String = "0".to_owned();
            !(v == zero)
        },
        None => false,
    }
}

/// Captures a backtrace of the current call stack when asked to, and returns
/// nothing otherwise.
pub fn make_backtrace(capture: bool) -> (r: Option<Arc<backtrace::Backtrace>>)
    ensures
        r is Some <==> capture,
{
    if capture {
        Some(Arc::new(capture_backtrace()))
    } else {
        None
    }
}

} // verus!
