use vstd::prelude::*;

use crate::configtree::{Config, Value};
use crate::style::Color;

verus! {

/// Type that will be returned when a module is formatted. `output` of
/// `None` means the module produced nothing and the segment must be
/// skipped entirely; `next_bg` is the background color the next
/// segment's divider has to pick up.
#[derive(Debug, PartialEq)]
pub struct FormatResult {
    pub output: Option<String>,
    pub next_bg: Option<Color>,
}

impl Default for FormatResult {
    fn default() -> (r: FormatResult)
        ensures
            r.output is None,
            r.next_bg is None,
    {
        FormatResult { output: None, next_bg: None }
    }
}

/// Gets an array from a config tree using a key.
///
/// Returns `None` if the key wasn't present or doesn't hold an array.
/// The result borrows from the tree, so the read never consumes or
/// invalidates it and repeated or interleaved reads remain valid.
pub fn ref_get_array<'a>(key: &str, config: &'a Config) -> (r: Option<&'a Vec<Value>>)
    ensures
        match config.spec_lookup(key@) {
            Some(Value::Array(a)) => (r matches Some(rv) && *rv == a),
            _ => r is None,
        },
{
    match config.get(key) {
        Some(Value::Array(a)) => Some(a),
        _ => None,
    }
}

/// Representation of specific errors that can be encountered while
/// resolving prompt configuration.
#[derive(Clone, Copy, Debug, PartialEq, Eq, Structural)]
pub enum ErrorKind {
    /// Input in config was not one of the allowed types
    InvalidTypeInConfig,
    /// Input in config didn't correspond to anything meaningful
    NoSuchMatchInConfig,
    /// Input in config was strictly malformed and couldn't be parsed
    ConfigParseFailure,
}

/// Struct representation of an Error encountered in the program
#[derive(Debug, PartialEq)]
pub struct Error {
    kind: ErrorKind,
    message: String,
}

impl Error {
    /// The kind of this error, for use in contracts.
    pub closed spec fn spec_kind(&self) -> ErrorKind {
        self.kind
    }

    /// The message of this error, for use in contracts.
    pub closed spec fn spec_message(&self) -> Seq<char> {
        self.message@
    }

    pub fn new(kind: ErrorKind, msg: &str) -> (e: Error)
        ensures
            e.spec_kind() == kind,
            e.spec_message() == msg@,
    {
        Error { kind, message: msg.to_owned() }
    }

    /// Which of the closed error kinds this error carries.
    pub fn kind(&self) -> (k: ErrorKind)
        ensures
            k == self.spec_kind(),
    {
        self.kind
    }

    /// The human-readable description of this error.
    pub fn message(&self) -> (m: &str)
        ensures
            m@ == self.spec_message(),
    {
        self.message.as_str()
    }
}

} // verus!
