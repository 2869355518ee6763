use error_chain::Error;
use error_chain::ErrorKind;
use error_chain::ForeignError;
use error_chain::ResultExt;
use error_chain::State;

fn msg(s: &str) -> ErrorKind {
    ErrorKind::Msg(s.to_string())
}

fn descriptions(e: &Error) -> Vec<String> {
    let mut out = Vec::new();
    let mut it = e.iter();
    while let Some(link) = it.next() {
        out.push(link.kind().description().to_string());
    }
    out
}

#[test]
fn from_kind_carries_the_kind() {
    let e = Error::from_kind(msg("boom"), false);
    assert_eq!(e.kind().description(), "boom");
    assert_eq!(e.description(), "boom");
    assert!(e.cause().is_none());
    assert!(e.backtrace().is_none());
}

#[test]
fn from_kind_captures_a_backtrace_when_asked() {
    let e = Error::from_kind(msg("boom"), true);
    assert!(e.backtrace().is_some());
}

#[test]
fn chain_err_keeps_the_cause() {
    let inner = Error::from_kind(msg("inner"), false);
    let outer = inner.chain_err(msg("outer"), false);
    assert_eq!(outer.kind().description(), "outer");
    let cause = outer.cause().expect("the wrapped error is kept");
    assert_eq!(cause.kind().description(), "inner");
    assert!(cause.cause().is_none());
}

#[test]
fn iteration_walks_the_chain_outermost_first() {
    let e = Error::from_kind(msg("inner"), false)
        .chain_err(msg("mid"), false)
        .chain_err(msg("outer"), false);
    assert_eq!(descriptions(&e), vec!["outer", "mid", "inner"]);
}

#[test]
fn iteration_is_restartable() {
    let e = Error::from_kind(msg("a"), false).chain_err(msg("b"), false);
    assert_eq!(descriptions(&e), vec!["b", "a"]);
    assert_eq!(descriptions(&e), vec!["b", "a"]);
    let mut it = e.iter();
    assert!(it.next().is_some());
    assert!(it.next().is_some());
    assert!(it.next().is_none());
    assert!(it.next().is_none());
}

#[test]
fn first_capture_wins_along_the_chain() {
    let traced = Error::from_kind(msg("inner"), true);
    assert!(traced.backtrace().is_some());
    let wrapped = traced.chain_err(msg("outer"), false);
    assert!(wrapped.backtrace().is_some());

    let untraced = Error::from_kind(msg("inner"), false);
    let wrapped = untraced.chain_err(msg("outer"), false);
    assert!(wrapped.backtrace().is_none());

    let untraced = Error::from_kind(msg("inner"), false);
    let wrapped = untraced.chain_err(msg("outer"), true);
    assert!(wrapped.backtrace().is_some());
}

#[test]
fn foreign_errors_are_wrapped_losslessly() {
    let f = ForeignError::new("disk on fire".to_string());
    let e = Error::from(f);
    assert_eq!(e.kind().description(), "disk on fire");
    assert!(matches!(e.kind(), ErrorKind::Foreign(g) if g.description == "disk on fire"));
    assert!(e.cause().is_none());

    let k = ErrorKind::from(ForeignError::new("disk on fire".to_string()));
    assert!(matches!(&k, ErrorKind::Foreign(g) if g.description == "disk on fire"));
}

#[test]
fn string_conversions_make_the_message_kind() {
    let e = Error::from("late again".to_string());
    assert!(matches!(e.kind(), ErrorKind::Msg(s) if s == "late again"));
    let k = ErrorKind::from("late again".to_string());
    assert!(matches!(&k, ErrorKind::Msg(s) if s == "late again"));
    let e = Error::from(k);
    assert_eq!(e.kind().description(), "late again");
    let k = ErrorKind::from(e);
    assert!(matches!(&k, ErrorKind::Msg(s) if s == "late again"));
}

#[test]
fn result_ext_wraps_only_errors() {
    let ok: Result<u8, Error> = Ok(7);
    let ok = ok.chain_err(msg("ctx"), false);
    assert_eq!(ok.unwrap(), 7);

    let err: Result<u8, Error> = Err(Error::from_kind(msg("bad"), false));
    let err = err.chain_err(msg("ctx"), false).unwrap_err();
    assert_eq!(descriptions(&err), vec!["ctx", "bad"]);
}

#[test]
fn default_state_is_empty() {
    let s = State::default();
    assert!(s.next_error.is_none());
    assert!(s.backtrace().is_none());
}

#[test]
fn state_new_links_and_inherits_the_trace() {
    let traced = Error::from_kind(msg("inner"), true);
    let s = State::new(Box::new(traced), false);
    assert!(s.next_error.is_some());
    assert!(s.backtrace().is_some());

    let untraced = Error::from_kind(msg("inner"), false);
    let s = State::new(Box::new(untraced), false);
    assert!(s.next_error.is_some());
    assert!(s.backtrace().is_none());
}
