use vstd::prelude::*;

use std::sync::Arc;

use crate::error::Error;
use crate::trace::copy_trace;
use crate::trace::make_backtrace;

verus! {

/// Common state between errors: the causal predecessor that this error
/// wrapped, if any, and the backtrace of the chain, captured once at the
/// point where the chain originated.
#[derive(Debug)]
pub struct State {
    /// Next error in the error chain.
    pub next_error: Option<Box<Error>>,
    /// Backtrace for the current error, shared along the chain.
    pub backtrace: Option<Arc<backtrace::Backtrace>>,
}

impl Default for State {
    /// The state of a fresh, unchained error without a backtrace.
    fn default() -> (s: State)
        ensures
            s.next_error is None,
            s.backtrace is None,
    {
        State { next_error: None, backtrace: None }
    }
}

impl State {
    /// The state of a fresh, unchained error, with a backtrace captured when
    /// asked for one.
    pub fn root(capture: bool) -> (s: State)
        ensures
            s.next_error is None,
            s.backtrace is Some <==> capture,
    {
        State { next_error: None, backtrace: make_backtrace(capture) }
    }

    /// The state of an error that wraps `e`: `e` becomes the causal
    /// predecessor, and the backtrace is the first one known — the one `e`
    /// already carries where it carries one, and otherwise a fresh capture
    /// when asked for one. A backtrace is thus taken at most once per chain.
    pub fn new(e: Box<Error>, capture: bool) -> (s: State)
        ensures
            s.next_error == Some(e),
            s.backtrace is Some <==> (e.1.backtrace is Some || capture),
            e.1.backtrace is Some ==> s.backtrace == e.1.backtrace,
    {
        let backtrace = match copy_trace(&e.1.backtrace) {
            Some(t) => Some(t),
            None => make_backtrace(capture),
        };
        State { next_error: Some(e), backtrace }
    }

    /// Returns the inner backtrace if present.
    pub fn backtrace(&self) -> (r: Option<&backtrace::Backtrace>)
        ensures
            r is Some <==> self.backtrace is Some,
            r matches Some(b) ==> (self.backtrace matches Some(t) && *b == t),
    {
        match &self.backtrace {
            Some(t) => Some(&**t),
            None => None,
        }
    }
}

} // verus!
