use vstd::prelude::*;

verus! {

/// An error that was not produced by this library, wrapped opaquely when it
/// enters a chain. Only what the chain logic reads of it is kept: its
/// description.
#[derive(Debug)]
pub struct ForeignError {
    /// The foreign error's own description.
    pub description: String,
}

impl View for ForeignError {
    type V = Seq<char>;

    open spec fn view(&self) -> Seq<char> {
        self.description@
    }
}

impl ForeignError {
    /// Wraps a foreign error, given as the description it carries.
    pub fn new(description: String) -> (r: ForeignError)
        ensures
            r@ == description@,
    {
        ForeignError { description }
    }
}

/// The kind of an error: the tag that tells the category of its cause apart.
#[derive(Debug)]
pub enum ErrorKind {
    /// A plain message, for errors introduced at the error site with a string.
    Msg(String),
    /// A foreign error wrapped into the chain at a module boundary.
    Foreign(ForeignError),
}

/// The mathematical value of an [`ErrorKind`]: the same tag over the
/// description it carries, as a sequence of characters.
pub enum KindView {
    /// A plain message.
    Msg(Seq<char>),
    /// A wrapped foreign error.
    Foreign(Seq<char>),
}

impl View for ErrorKind {
    type V = KindView;

    open spec fn view(&self) -> KindView {
        match self {
            ErrorKind::Msg(s) => KindView::Msg(s@),
            ErrorKind::Foreign(f) => KindView::Foreign(f@),
        }
    }
}

impl KindView {
    /// The description a kind answers for itself: the message it carries.
    pub open spec fn description(self) -> Seq<char> {
        match self {
            KindView::Msg(s) => s,
            KindView::Foreign(d) => d,
        }
    }
}

impl ErrorKind {
    /// Returns the description of the error kind: the message for a plain
    /// message, and the wrapped error's description for a foreign error.
    pub fn description(&self) -> (r: &str)
        ensures
            r@ == self@.description(),
    {
        match self {
            ErrorKind::Msg(s) => s.as_str(),
            ErrorKind::Foreign(f) => f.description.as_str(),
        }
    }
}

impl From<String> for ErrorKind {
    /// Turns a message into the plain message kind.
    fn from(s: String) -> (r: ErrorKind) {
        ErrorKind::Msg(s)
    }
}

impl vstd::std_specs::convert::FromSpecImpl<String> for ErrorKind {
    open spec fn obeys_from_spec() -> bool {
        true
    }

    open spec fn from_spec(s: String) -> ErrorKind {
        ErrorKind::Msg(s)
    }
}

impl From<ForeignError> for ErrorKind {
    /// Wraps a foreign error into the foreign kind, losing nothing of it.
    fn from(f: ForeignError) -> (r: ErrorKind) {
        ErrorKind::Foreign(f)
    }
}

impl vstd::std_specs::convert::FromSpecImpl<ForeignError> for ErrorKind {
    open spec fn obeys_from_spec() -> bool {
        true
    }

    open spec fn from_spec(f: ForeignError) -> ErrorKind {
        ErrorKind::Foreign(f)
    }
}

} // verus!
