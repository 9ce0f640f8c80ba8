//! The error taxonomy: a closed set of failure kinds, one opaque wrapper
//! type, conversions from the failure values it wraps, and human-readable
//! rendering.

use vstd::prelude::*;
use vstd::string::StringExecFns;

use crate::decimal::decimal_rep;
use crate::decimal::usize_to_decimal;

verus! {

/// An I/O failure, as the taxonomy models it: whether the underlying
/// operation failed because the target was not found, and the failure's own
/// human-readable message.
#[derive(Debug)]
pub struct IoFailure {
    pub not_found: bool,
    pub message: String,
}

impl IoFailure {
    /// Wraps the classification and message of an underlying I/O failure.
    pub fn new(not_found: bool, message: String) -> (r: IoFailure)
        ensures
            r.not_found == not_found,
            r.message == message,
    {
        IoFailure { not_found, message }
    }
}

/// A text-decode failure: a byte sequence was not valid UTF-8.
/// `valid_up_to` is the position of the first byte that does not continue a
/// well-formed scalar encoding.
#[derive(Debug, PartialEq, Eq)]
pub struct DecodeFailure {
    pub valid_up_to: usize,
}

/// The message a decode failure reports: the first invalid byte position,
/// rendered in decimal.
pub open spec fn decode_failure_message(valid_up_to: nat) -> Seq<char> {
    "invalid utf-8 sequence from index "@ + decimal_rep(valid_up_to)
}

impl DecodeFailure {
    /// The decode failure's own human-readable message.
    pub fn message(&self) -> (r: String)
        ensures
            r@ == decode_failure_message(self.valid_up_to as nat),
    {
        let mut s: String = "invalid utf-8 sequence from index ".to_owned();
        s.append(usize_to_decimal(self.valid_up_to).as_str());
        s
    }
}

/// The closed set of failure kinds. `Io` and `DecodeError` wrap the failure
/// value of an underlying operation; `ValueError`, `FormatError` and `Other`
/// are native kinds constructed directly by this library's own logic.
#[derive(Debug)]
pub enum ErrorKind {
    /// An I/O operation failed.
    Io(IoFailure),
    /// Required information (a key) was absent or invalid.
    ValueError(String),
    /// The input's structural format was invalid.
    FormatError,
    /// A byte sequence was not valid text in the expected encoding.
    DecodeError(DecodeFailure),
    /// An unclassified failure.
    Other(String),
}

/// The one error type this library exposes: a wrapper owning exactly one
/// `ErrorKind`, immutable after construction.
#[derive(Debug)]
pub struct Error {
    kind: ErrorKind,
}

impl View for Error {
    type V = ErrorKind;

    closed spec fn view(&self) -> ErrorKind {
        self.kind
    }
}

/// The error wrapping a given kind; what `Error::new` and the `From`
/// conversions produce.
pub closed spec fn error_of(k: ErrorKind) -> Error {
    Error { kind: k }
}

/// The wrapper adds nothing: the error built from `k` contains exactly `k`.
pub proof fn lemma_error_of_view(k: ErrorKind)
    ensures
        error_of(k)@ == k,
{
}

/// The human-readable rendering of each kind.
pub open spec fn render(k: ErrorKind) -> Seq<char> {
    match k {
        ErrorKind::Io(f) => f.message@,
        ErrorKind::ValueError(m) => "data missing: "@ + m@,
        ErrorKind::FormatError => "Wrong format!"@,
        ErrorKind::DecodeError(f) => decode_failure_message(f.valid_up_to as nat),
        ErrorKind::Other(m) => "Unknown error: "@ + m@,
    }
}

/// The cause a kind exposes for diagnostic traversal: the wrapped failure's
/// own message for the wrapping kinds, nothing for the native kinds.
pub open spec fn cause_of(k: ErrorKind) -> Option<Seq<char>> {
    match k {
        ErrorKind::Io(f) => Some(f.message@),
        ErrorKind::DecodeError(f) => Some(decode_failure_message(f.valid_up_to as nat)),
        _ => None,
    }
}

impl Error {
    /// Wraps a kind; always succeeds, and the kind is kept exactly.
    pub fn new(kind: ErrorKind) -> (r: Error)
        ensures
            r@ == kind,
            r == error_of(kind),
    {
        Error { kind }
    }

    /// Read-only access to the contained kind.
    pub fn kind(&self) -> (r: &ErrorKind)
        ensures
            *r == self@,
    {
        &self.kind
    }

    /// Consumes the error and returns the contained kind by ownership
    /// transfer.
    pub fn into_kind(self) -> (r: ErrorKind)
        ensures
            r == self@,
    {
        self.kind
    }

    /// The human-readable rendering of this error.
    pub fn message(&self) -> (r: String)
        ensures
            r@ == render(self@),
    {
        match &self.kind {
            ErrorKind::Io(f) => f.message.clone(),
            ErrorKind::ValueError(m) => {
                let mut s: String = "data missing: ".to_owned();
                s.append(m.as_str());
                s
            },
            ErrorKind::FormatError => "Wrong format!".to_owned(),
            ErrorKind::DecodeError(f) => f.message(),
            ErrorKind::Other(m) => {
                let mut s: String = "Unknown error: ".to_owned();
                s.append(m.as_str());
                s
            },
        }
    }

    /// The message of the wrapped cause, for the kinds that have one;
    /// `None` for the native kinds, where the cause chain terminates.
    pub fn cause_message(&self) -> (r: Option<String>)
        ensures
            match cause_of(self@) {
                Some(t) => r matches Some(s) && s@ == t,
                None => r is None,
            },
    {
        match &self.kind {
            ErrorKind::Io(f) => Some(f.message.clone()),
            ErrorKind::DecodeError(f) => Some(f.message()),
            _ => None,
        }
    }
}

/// Builds the `ValueError` kind with message `failed to get {name}`.
pub fn new_value_error(name: &str) -> (r: Error)
    ensures
        r@ matches ErrorKind::ValueError(m) && m@ == "failed to get "@ + name@,
{
    let mut m: String = "failed to get ".to_owned();
    m.append(name);
    Error::new(ErrorKind::ValueError(m))
}

/// Builds the `FormatError` kind, which carries no payload.
pub fn new_format_error() -> (r: Error)
    ensures
        r@ == ErrorKind::FormatError,
{
    Error::new(ErrorKind::FormatError)
}

/// Builds the `Other` kind holding `message` verbatim. Such errors render
/// as `Unknown error: {message}`: unclassified failures are deliberately
/// kept apart from the `ValueError` rendering.
pub fn new_other_error(message: &str) -> (r: Error)
    ensures
        r@ matches ErrorKind::Other(m) && m@ == message@,
{
    Error::new(ErrorKind::Other(message.to_owned()))
}

impl From<IoFailure> for Error {
    /// The centrally defined conversion from an I/O failure: it wraps the
    /// failure in the `Io` kind, preserving it as the cause.
    fn from(f: IoFailure) -> (r: Error) {
        Error { kind: ErrorKind::Io(f) }
    }
}

impl vstd::std_specs::convert::FromSpecImpl<IoFailure> for Error {
    open spec fn obeys_from_spec() -> bool {
        true
    }

    open spec fn from_spec(f: IoFailure) -> Error {
        error_of(ErrorKind::Io(f))
    }
}

impl From<DecodeFailure> for Error {
    /// The centrally defined conversion from a decode failure: it wraps the
    /// failure in the `DecodeError` kind, preserving it as the cause.
    fn from(f: DecodeFailure) -> (r: Error) {
        Error { kind: ErrorKind::DecodeError(f) }
    }
}

impl vstd::std_specs::convert::FromSpecImpl<DecodeFailure> for Error {
    open spec fn obeys_from_spec() -> bool {
        true
    }

    open spec fn from_spec(f: DecodeFailure) -> Error {
        error_of(ErrorKind::DecodeError(f))
    }
}

/// Wrap/unwrap round trip: an error built from a kind `k` (what `Error::new`
/// and each constructor ensure) decomposes via `into_kind` (which returns the
/// contained kind) to exactly `k`, payload included.
pub proof fn lemma_wrap_unwrap_round_trip(k: ErrorKind, e: Error, decomposed: ErrorKind)
    requires
        e@ == k,
        decomposed == e@,
    ensures
        decomposed == k,
{
}

/// Rendering is pure and deterministic: it depends on nothing but the
/// error's contents, so two errors with equal contents render equally.
pub proof fn lemma_render_deterministic(a: Error, b: Error)
    requires
        a@ == b@,
    ensures
        render(a@) == render(b@),
{
}

} // verus!
