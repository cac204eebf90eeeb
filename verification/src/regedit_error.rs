//! The library's error type: one structured kind per failure class, plus a
//! human-readable message.
use vstd::prelude::*;

verus! {

/// The failure classes: the location cannot be opened, the value cannot be
/// queried, a fixed-width decode got the wrong byte count, a decode got a tag
/// outside the closed set, text bytes are not valid UTF-8, the store rejected
/// a write, or a process-level failure outside those classes.
#[derive(Clone, Copy, Debug, PartialEq, Eq, Structural)]
pub enum ErrorKind {
    Open,
    Query,
    LengthMismatch,
    UnrecognizedTag,
    Decode,
    SetValue,
    Other,
}

/// An error: its failure class and an operator-facing message.
#[derive(Debug)]
pub struct RegeditError {
    pub kind: ErrorKind,
    pub message: String,
}

impl RegeditError {
    /// A general error carrying only a message.
    pub fn new(message: &str) -> (r: Self)
        ensures
            r.kind == ErrorKind::Other,
            r.message@ == message@,
    {
        RegeditError { kind: ErrorKind::Other, message: message.to_owned() }
    }

    /// An error of a chosen failure class.
    pub fn with_kind(kind: ErrorKind, message: &str) -> (r: Self)
        ensures
            r.kind == kind,
            r.message@ == message@,
    {
        RegeditError { kind, message: message.to_owned() }
    }

    /// The error raised by a decode whose type tag lies outside the closed set.
    pub fn unrecognized_tag() -> (r: Self)
        ensures
            r.kind == ErrorKind::UnrecognizedTag,
    {
        RegeditError::with_kind(ErrorKind::UnrecognizedTag, "Unknown registry value type")
    }

    /// The error raised by a fixed-width decode given the wrong byte count.
    pub fn length_mismatch() -> (r: Self)
        ensures
            r.kind == ErrorKind::LengthMismatch,
    {
        RegeditError::with_kind(
            ErrorKind::LengthMismatch,
            "Registry value length does not match its fixed-width type",
        )
    }

    /// The error raised by a text decode whose bytes are not valid UTF-8.
    pub fn decode_error() -> (r: Self)
        ensures
            r.kind == ErrorKind::Decode,
    {
        RegeditError::with_kind(ErrorKind::Decode, "Registry value bytes are not valid UTF-8")
    }

    /// The failure class of this error.
    pub fn kind(&self) -> (r: ErrorKind)
        ensures
            r == self.kind,
    {
        self.kind
    }

    /// The operator-facing message of this error.
    pub fn message(&self) -> (r: &str)
        ensures
            r@ == self.message@,
    {
        self.message.as_str()
    }
}

} // verus!
