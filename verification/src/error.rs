//! The errors that a mutation can report.
//!
//! An [`Error`] is either one of the kinds a caller can observe, listed in
//! [`ErrorKind`], or the internal early-exit signal that the selection pass
//! uses to unwind out of a mutator once the chosen edit has run. The signal
//! never leaves the engine: every public entry point promises an error that
//! is not the signal, and the accessors below ask for exactly that.

use std::borrow::Cow;
use vstd::prelude::*;
use vstd::std_specs::convert::{FromSpec, IntoSpec};
use vstd::string::StringExecFns;

verus! {

/// A result that is either `Ok(T)` or an [`Error`].
pub type Result<T, E = Error> = core::result::Result<T, E>;

/// A message attached to an [`ErrorKind::Other`] error.
///
/// Its view is the text of the message.
#[derive(Debug)]
pub struct ErrorMessage {
    inner: Cow<'static, str>,
}

impl View for ErrorMessage {
    type V = Seq<char>;

    closed spec fn view(&self) -> Seq<char> {
        self.inner@
    }
}

impl From<&'static str> for ErrorMessage {
    fn from(s: &'static str) -> (ret: Self) {
        ErrorMessage { inner: Cow::Borrowed(s) }
    }
}

impl vstd::std_specs::convert::FromSpecImpl<&'static str> for ErrorMessage {
    open spec fn obeys_from_spec() -> bool {
        true
    }

    closed spec fn from_spec(s: &'static str) -> Self {
        ErrorMessage { inner: Cow::Borrowed(s) }
    }
}

impl From<Cow<'static, str>> for ErrorMessage {
    fn from(s: Cow<'static, str>) -> (ret: Self) {
        ErrorMessage { inner: s }
    }
}

impl vstd::std_specs::convert::FromSpecImpl<Cow<'static, str>> for ErrorMessage {
    open spec fn obeys_from_spec() -> bool {
        true
    }

    closed spec fn from_spec(s: Cow<'static, str>) -> Self {
        ErrorMessage { inner: s }
    }
}

impl From<String> for ErrorMessage {
    fn from(s: String) -> (ret: Self) {
        ErrorMessage { inner: Cow::Owned(s) }
    }
}

impl vstd::std_specs::convert::FromSpecImpl<String> for ErrorMessage {
    open spec fn obeys_from_spec() -> bool {
        true
    }

    closed spec fn from_spec(s: String) -> Self {
        ErrorMessage { inner: Cow::Owned(s) }
    }
}

impl ErrorMessage {
    /// The text of a message made from a string slice is that slice.
    pub broadcast proof fn lemma_from_str_view(s: &'static str)
        ensures
            (#[trigger] <ErrorMessage as FromSpec<&'static str>>::from_spec(s))@ == s@,
    {
    }

    /// The text of a message made from an owned string is that string.
    pub broadcast proof fn lemma_from_string_view(s: String)
        ensures
            (#[trigger] <ErrorMessage as FromSpec<String>>::from_spec(s))@ == s@,
    {
    }

    /// The text of a message made from a borrowed-or-owned string is that string.
    pub broadcast proof fn lemma_from_cow_view(s: Cow<'static, str>)
        ensures
            (#[trigger] <ErrorMessage as FromSpec<Cow<'static, str>>>::from_spec(s))@ == s@,
    {
    }

    /// Builds a message from anything that converts into one.
    #[must_use]
    pub fn new<M: Into<ErrorMessage>>(msg: M) -> (ret: Self)
        ensures
            M::obeys_into_spec() ==> ret == msg.into_spec(),
    {
        msg.into()
    }

    /// The text of the message.
    #[must_use]
    pub fn as_str(&self) -> (s: &str)
        ensures
            s@ == self@,
    {
        match &self.inner {
            Cow::Borrowed(s) => s,
            Cow::Owned(s) => s.as_str(),
        }
    }
}

/// The kinds of error a caller can observe.
#[non_exhaustive]
#[derive(Debug)]
pub enum ErrorKind {
    /// The mutator had no candidate mutation for the value.
    Exhausted,
    /// The mutator was given a range whose start lies above its end.
    InvalidRange,
    /// Some other, mutator-defined error.
    Other(ErrorMessage),
}

#[derive(Debug)]
enum ErrorInner {
    Kind(ErrorKind),
    /// Raised by the candidate registry once the chosen edit has run, to leave
    /// the enumeration at once.
    EarlyExit,
}

/// An error raised while mutating a value.
#[derive(Debug)]
pub struct Error {
    inner: ErrorInner,
}

impl From<ErrorKind> for Error {
    fn from(kind: ErrorKind) -> (ret: Self) {
        Error { inner: ErrorInner::Kind(kind) }
    }
}

impl vstd::std_specs::convert::FromSpecImpl<ErrorKind> for Error {
    open spec fn obeys_from_spec() -> bool {
        true
    }

    open spec fn from_spec(kind: ErrorKind) -> Self {
        Error::of(kind)
    }
}

impl Error {
    /// The error of the given kind.
    pub closed spec fn of(kind: ErrorKind) -> Error {
        Error { inner: ErrorInner::Kind(kind) }
    }

    /// The early-exit signal.
    pub closed spec fn signal() -> Error {
        Error { inner: ErrorInner::EarlyExit }
    }

    /// Whether this error is the early-exit signal.
    pub closed spec fn is_signal(&self) -> bool {
        self.inner is EarlyExit
    }

    /// The kind of an error that is not the early-exit signal.
    pub closed spec fn kind_of(&self) -> ErrorKind
        recommends
            !self.is_signal(),
    {
        self.inner->Kind_0
    }

    /// An error is the signal, or it is the error of its kind; never both.
    pub broadcast proof fn lemma_of_kind(kind: ErrorKind)
        ensures
            !(#[trigger] Error::of(kind)).is_signal(),
            Error::of(kind).kind_of() == kind,
    {
    }

    /// The signal is the only error without a kind, and an error with a kind
    /// is determined by it.
    pub broadcast proof fn lemma_error_cases(e: Error)
        ensures
            #[trigger] e.is_signal() <==> e == Error::signal(),
            !e.is_signal() ==> e == Error::of(e.kind_of()),
    {
    }

    pub(crate) fn early_exit() -> (e: Self)
        ensures
            e == Error::signal(),
    {
        Error { inner: ErrorInner::EarlyExit }
    }

    pub(crate) fn is_early_exit(&self) -> (b: bool)
        ensures
            b == self.is_signal(),
    {
        matches!(self.inner, ErrorInner::EarlyExit)
    }

    /// The error that reports a mutator without candidate mutations.
    #[must_use]
    pub fn exhausted() -> (e: Self)
        ensures
            e == Error::of(ErrorKind::Exhausted),
    {
        Error::from(ErrorKind::Exhausted)
    }

    /// The error that reports a range whose start lies above its end.
    #[must_use]
    pub fn invalid_range() -> (e: Self)
        ensures
            e == Error::of(ErrorKind::InvalidRange),
    {
        Error::from(ErrorKind::InvalidRange)
    }

    /// A mutator-defined error with the given message.
    #[must_use]
    pub fn other<M: Into<ErrorMessage>>(msg: M) -> (e: Self)
        ensures
            !e.is_signal(),
            e.kind_of() is Other,
            M::obeys_into_spec() ==> e == Error::of(ErrorKind::Other(msg.into_spec())),
    {
        Error::from(ErrorKind::Other(msg.into()))
    }

    /// The kind of this error.
    #[must_use]
    pub fn kind(&self) -> (kind: &ErrorKind)
        requires
            !self.is_signal(),
        ensures
            *kind == self.kind_of(),
    {
        match &self.inner {
            ErrorInner::Kind(kind) => kind,
            ErrorInner::EarlyExit => vstd::pervasive::unreached(),
        }
    }

    /// Consumes the error and hands out its kind.
    #[must_use]
    pub fn into_kind(self) -> (kind: ErrorKind)
        requires
            !self.is_signal(),
        ensures
            kind == self.kind_of(),
    {
        match self.inner {
            ErrorInner::Kind(kind) => kind,
            ErrorInner::EarlyExit => vstd::pervasive::unreached(),
        }
    }

    /// The text that describes the error.
    pub open spec fn text(&self) -> Seq<char> {
        if self.is_signal() {
            "internal error variant: early exit from mutation loop"@
        } else {
            match self.kind_of() {
                ErrorKind::Exhausted => "the mutator is exhausted"@,
                ErrorKind::InvalidRange => "the mutator was given an invalid range"@,
                ErrorKind::Other(msg) => "an unknown error occurred: "@ + msg@,
            }
        }
    }

    /// A description of the error, for a reader.
    pub fn to_string(&self) -> (s: String)
        ensures
            s@ == self.text(),
    {
        match &self.inner {
            ErrorInner::Kind(ErrorKind::Exhausted) => "the mutator is exhausted".to_owned(),
            ErrorInner::Kind(ErrorKind::InvalidRange) => {
                "the mutator was given an invalid range".to_owned()
            },
            ErrorInner::Kind(ErrorKind::Other(msg)) => {
                "an unknown error occurred: ".to_owned().concat(msg.as_str())
            },
            ErrorInner::EarlyExit => {
                "internal error variant: early exit from mutation loop".to_owned()
            },
        }
    }

    /// Whether the error reports a mutator without candidate mutations.
    #[must_use]
    pub fn is_exhausted(&self) -> (b: bool)
        requires
            !self.is_signal(),
        ensures
            b == (self.kind_of() is Exhausted),
    {
        matches!(self.kind(), ErrorKind::Exhausted)
    }

    /// Whether the error reports an invalid range.
    #[must_use]
    pub fn is_invalid_range(&self) -> (b: bool)
        requires
            !self.is_signal(),
        ensures
            b == (self.kind_of() is InvalidRange),
    {
        matches!(self.kind(), ErrorKind::InvalidRange)
    }

    /// Whether the error is a mutator-defined one.
    #[must_use]
    pub fn is_other(&self) -> (b: bool)
        requires
            !self.is_signal(),
        ensures
            b == (self.kind_of() is Other),
    {
        matches!(self.kind(), ErrorKind::Other(_))
    }
}

/// An extension of `Result<T, Error>` for callers that treat an exhausted
/// mutator as no failure.
pub trait ResultExt: Sized {
    /// Whether the result is the early-exit signal, which never leaves the
    /// engine.
    spec fn is_signal(&self) -> bool;

    /// The result without its value, and with exhaustion turned into
    /// success.
    spec fn exhaustion_ignored(self) -> Result<(), Error>;

    /// Ignores the error if it is [`ErrorKind::Exhausted`], returning
    /// `Ok(())` instead. Any other error is handed on.
    fn ignore_exhausted(self) -> (r: Result<(), Error>)
        requires
            !self.is_signal(),
        ensures
            r == self.exhaustion_ignored(),
    ;
}

impl<T> ResultExt for Result<T, Error> {
    open spec fn is_signal(&self) -> bool {
        self matches Err(e) && e.is_signal()
    }

    open spec fn exhaustion_ignored(self) -> Result<(), Error> {
        match self {
            Ok(_) => Ok(()),
            Err(e) => if e.kind_of() is Exhausted {
                Ok(())
            } else {
                Err(e)
            },
        }
    }

    fn ignore_exhausted(self) -> (r: Result<(), Error>) {
        match self {
            Ok(_) => Ok(()),
            Err(err) => {
                if err.is_exhausted() {
                    Ok(())
                } else {
                    Err(err)
                }
            },
        }
    }
}

/// The facts about errors that contracts outside this module rest on.
pub broadcast group group_error_facts {
    Error::lemma_of_kind,
    Error::lemma_error_cases,
}

} // verus!
