use vstd::prelude::*;

use std::sync::Arc;

use crate::iter::ErrorChainIter;
use crate::kind::ErrorKind;
use crate::kind::KindView;
use crate::state::State;
use crate::trace::copy_trace;

verus! {

/// An error of the chaining pattern, made of two things:
///
/// - an [`ErrorKind`], the tag that tells the category of the error apart;
/// - a [`State`], which holds the causal predecessor and the backtrace.
#[derive(Debug)]
pub struct Error(
    /// The kind of the error.
    pub ErrorKind,
    /// Contains the error chain and the backtrace.
    pub State,
);

/// The chain of kinds hanging off an optional causal predecessor, the
/// predecessor's own kind first.
pub open spec fn chain_of(next: Option<Box<Error>>) -> Seq<KindView>
    decreases next,
{
    match next {
        Some(e) => e.chain(),
        None => Seq::<KindView>::empty(),
    }
}

impl Error {
    /// The mathematical value of an error: the kinds along its causal chain,
    /// its own kind first, the innermost cause last.
    pub open spec fn chain(self) -> Seq<KindView>
        decreases self,
    {
        seq![self.0@] + chain_of(self.1.next_error)
    }
}

impl View for Error {
    type V = Seq<KindView>;

    open spec fn view(&self) -> Seq<KindView> {
        self.chain()
    }
}

impl Error {
    /// Constructs an unchained error from a kind, with a backtrace captured
    /// when asked for one.
    pub fn from_kind(kind: ErrorKind, capture: bool) -> (r: Error)
        ensures
            r.0 == kind,
            r.1.next_error is None,
            r.1.backtrace is Some <==> capture,
            r.chain() == seq![kind@],
    {
        let r = Error(kind, State::root(capture));
        proof {
            assert(r.chain() =~= seq![kind@]);
        }
        r
    }

    /// Returns the kind of the error.
    pub fn kind(&self) -> (r: &ErrorKind)
        ensures
            *r == self.0,
    {
        &self.0
    }

    /// Returns the error this one wrapped, if any: the next link of the
    /// causal chain.
    pub fn cause(&self) -> (r: Option<&Error>)
        ensures
            r is Some <==> self.1.next_error is Some,
            r matches Some(c) ==> (self.1.next_error matches Some(b) && *c == *b),
    {
        match &self.1.next_error {
            Some(b) => Some(&**b),
            None => None,
        }
    }

    /// Iterates over the causal chain, this error first.
    pub fn iter(&self) -> (r: ErrorChainIter)
        ensures
            r.0 matches Some(e) && *e == *self,
            r.remaining() == self.chain(),
    {
        ErrorChainIter(Some(self))
    }

    /// Returns the backtrace associated with this error, if one was captured
    /// anywhere along the chain.
    pub fn backtrace(&self) -> (r: Option<&backtrace::Backtrace>)
        ensures
            r is Some <==> self.1.backtrace is Some,
            r matches Some(b) ==> (self.1.backtrace matches Some(t) && *b == t),
    {
        self.1.backtrace()
    }

    /// Returns the description of the error: that of its kind.
    pub fn description(&self) -> (r: &str)
        ensures
            r@ == self.0@.description(),
    {
        self.0.description()
    }

    /// Wraps this error: the result carries the given kind, keeps this error
    /// as its causal predecessor, and carries the first-captured backtrace —
    /// this error's own where it has one, else a fresh capture when asked for
    /// one.
    pub fn chain_err(self, kind: ErrorKind, capture: bool) -> (r: Error)
        ensures
            r.0 == kind,
            r.1.next_error matches Some(b) && *b == self,
            r.chain() == seq![kind@] + self.chain(),
            r.1.backtrace is Some <==> (self.1.backtrace is Some || capture),
            self.1.backtrace is Some ==> r.1.backtrace == self.1.backtrace,
    {
        let r = Error(kind, State::new(Box::new(self), capture));
        proof {
            assert(r.chain() =~= seq![kind@] + self.chain());
        }
        r
    }
}

/// What every error of the chaining pattern offers: construction from its
/// parts, and a look at the first known backtrace.
pub trait ChainedError: Sized {
    /// Associated kind type.
    type ErrorKind;

    /// The kind the error carries.
    spec fn kind_view(&self) -> Self::ErrorKind;

    /// The state the error carries.
    spec fn state_view(&self) -> State;

    /// Creates an error from its parts.
    fn new(kind: Self::ErrorKind, state: State) -> (r: Self)
        ensures
            r.kind_view() == kind,
            r.state_view() == state,
    ;

    /// Returns the first known backtrace of the error, shared rather than
    /// captured anew.
    fn extract_backtrace(&self) -> (r: Option<Arc<backtrace::Backtrace>>)
        ensures
            r == self.state_view().backtrace,
    ;
}

impl ChainedError for Error {
    type ErrorKind = ErrorKind;

    open spec fn kind_view(&self) -> ErrorKind {
        self.0
    }

    open spec fn state_view(&self) -> State {
        self.1
    }

    fn new(kind: ErrorKind, state: State) -> (r: Error)
        ensures
            r.kind_view() == kind,
            r.state_view() == state,
    {
        Error(kind, state)
    }

    fn extract_backtrace(&self) -> (r: Option<Arc<backtrace::Backtrace>>)
        ensures
            r == self.state_view().backtrace,
    {
        copy_trace(&self.1.backtrace)
    }
}

impl From<ErrorKind> for Error {
    /// An unchained error of the given kind, without a backtrace: capture is
    /// explicit in this library, through [`Error::from_kind`].
    fn from(kind: ErrorKind) -> (r: Error) {
        Error(kind, State { next_error: None, backtrace: None })
    }
}

impl vstd::std_specs::convert::FromSpecImpl<ErrorKind> for Error {
    open spec fn obeys_from_spec() -> bool {
        true
    }

    open spec fn from_spec(kind: ErrorKind) -> Error {
        Error(kind, State { next_error: None, backtrace: None })
    }
}

impl From<String> for Error {
    /// An unchained error carrying the message, without a backtrace.
    fn from(s: String) -> (r: Error) {
        Error(ErrorKind::Msg(s), State { next_error: None, backtrace: None })
    }
}

impl vstd::std_specs::convert::FromSpecImpl<String> for Error {
    open spec fn obeys_from_spec() -> bool {
        true
    }

    open spec fn from_spec(s: String) -> Error {
        Error(ErrorKind::Msg(s), State { next_error: None, backtrace: None })
    }
}

impl From<crate::kind::ForeignError> for Error {
    /// Wraps a foreign error, losslessly, as an unchained error of the
    /// foreign kind.
    fn from(f: crate::kind::ForeignError) -> (r: Error) {
        Error(ErrorKind::Foreign(f), State { next_error: None, backtrace: None })
    }
}

impl vstd::std_specs::convert::FromSpecImpl<crate::kind::ForeignError> for Error {
    open spec fn obeys_from_spec() -> bool {
        true
    }

    open spec fn from_spec(f: crate::kind::ForeignError) -> Error {
        Error(ErrorKind::Foreign(f), State { next_error: None, backtrace: None })
    }
}

impl From<Error> for ErrorKind {
    /// Forgets the chain and the backtrace, keeping the kind alone.
    fn from(e: Error) -> (r: ErrorKind) {
        e.0
    }
}

impl vstd::std_specs::convert::FromSpecImpl<Error> for ErrorKind {
    open spec fn obeys_from_spec() -> bool {
        true
    }

    open spec fn from_spec(e: Error) -> ErrorKind {
        e.0
    }
}

/// The extension that lets a `Result` grow the chain of its error.
pub trait ResultExt<T>: Sized {
    /// The result this value stands for.
    spec fn as_result(self) -> Result<T, Error>;

    /// If the result is an error, wraps it: the new error carries the given
    /// kind, keeps the old error as its cause, and carries the
    /// first-captured backtrace.
    fn chain_err(self, kind: ErrorKind, capture: bool) -> (r: Result<T, Error>)
        ensures
            match self.as_result() {
                Ok(v) => r == Ok::<T, Error>(v),
                Err(e) => r matches Err(w) && w.0 == kind && w.chain() == seq![kind@] + e.chain()
                    && (w.1.backtrace is Some <==> (e.1.backtrace is Some || capture)) && (
                e.1.backtrace is Some ==> w.1.backtrace == e.1.backtrace),
            },
    ;
}

impl<T> ResultExt<T> for Result<T, Error> {
    open spec fn as_result(self) -> Result<T, Error> {
        self
    }

    fn chain_err(self, kind: ErrorKind, capture: bool) -> (r: Result<T, Error>) {
        match self {
            Ok(v) => Ok(v),
            Err(e) => Err(e.chain_err(kind, capture)),
        }
    }
}

} // verus!
