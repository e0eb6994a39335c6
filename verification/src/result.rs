//! Errors reported by the Connector API.
//!
//! Every fallible operation returns a [`ConnectorResult`] (or a
//! [`ConnectorFallible`] when there is no value to return). The error carries
//! an [`ErrorKind`] and, for failures reported by the native library, the
//! last error message that the native library recorded.

use vstd::prelude::*;

use crate::native::{ReturnCode, return_code_text};

verus! {

/// What kind of invalid input or data made an operation fail.
#[derive(Debug, Clone, Copy, PartialEq, Eq, Structural)]
pub enum InvalidErrorKind {
    /// A string could not be handed to, or read back from, the native library.
    StringConversion,
    /// An argument is outside the range that the native library accepts.
    Argument,
    /// A value could not be serialized into JSON.
    Serialization,
    /// A JSON value could not be deserialized into the requested type.
    Deserialization,
}

/// The kinds of failure of the Connector API.
#[derive(Debug, Clone)]
pub enum ErrorKind {
    /// A wait operation ended because its timeout expired.
    Timeout,
    /// A named entity (participant, input or output) does not exist.
    EntityNotFound { name: String },
    /// A named entity is owned by someone else, or was not owned at all.
    EntityBusy { context: String },
    /// A lock protecting shared state was poisoned by a panicking thread.
    LockPoisoned { context: String },
    /// The native library reported a failure.
    Native { code: ReturnCode },
    /// An input or a piece of data was invalid.
    Invalid { what: InvalidErrorKind, context: String },
    /// The native library answered in a way that it documents as impossible.
    AssertionFailed { context: String },
}

/// An error of the Connector API.
#[derive(Debug, Clone)]
pub struct ConnectorError {
    /// What went wrong.
    pub kind: ErrorKind,
    /// The last error message of the native library, for native failures.
    pub native_message: Option<String>,
}

/// The result of an operation of the Connector API.
pub type ConnectorResult<T> = Result<T, ConnectorError>;

/// The result of an operation of the Connector API that returns no value.
pub type ConnectorFallible = ConnectorResult<()>;

/// `e` is a failure of kind `Invalid` about `what`.
pub open spec fn is_invalid(e: ConnectorError, what: InvalidErrorKind) -> bool {
    e.kind matches ErrorKind::Invalid { what: w, .. } && w == what
}

/// `e` is a native failure with return code `code`.
pub open spec fn is_native_code(e: ConnectorError, code: ReturnCode) -> bool {
    e.kind matches ErrorKind::Native { code: c } && c == code
}

/// `e` reports that the entity named `name` was not found.
pub open spec fn is_not_found(e: ConnectorError, name: Seq<char>) -> bool {
    e.kind matches ErrorKind::EntityNotFound { name: n } && n@ == name
}

/// `e` reports an entity that is busy or not owned, with the message `context`.
pub open spec fn is_busy(e: ConnectorError, context: Seq<char>) -> bool {
    e.kind matches ErrorKind::EntityBusy { context: c } && c@ == context
}

impl ErrorKind {
    /// The error reported when a wait times out.
    pub fn timeout_error() -> (k: ErrorKind)
        ensures
            k is Timeout,
    {
        ErrorKind::Timeout
    }

    /// The error reported when the entity named `name` does not exist.
    pub fn entity_not_found_error(name: &str) -> (k: ErrorKind)
        ensures
            k matches ErrorKind::EntityNotFound { name: n } && n@ == name@,
    {
        ErrorKind::EntityNotFound { name: String::from_str(name) }
    }

    /// The error reported when an entity is busy (or was not acquired).
    pub fn entity_busy_error(context: String) -> (k: ErrorKind)
        ensures
            k == (ErrorKind::EntityBusy { context }),
    {
        ErrorKind::EntityBusy { context }
    }

    /// The error reported when a lock was poisoned.
    pub fn lock_poisoned_error(context: &str) -> (k: ErrorKind)
        ensures
            k matches ErrorKind::LockPoisoned { context: c } && c@ == context@,
    {
        ErrorKind::LockPoisoned { context: String::from_str(context) }
    }

    /// The error reported for a failing native return code.
    pub fn native_error(code: ReturnCode) -> (k: ErrorKind)
        ensures
            k == (ErrorKind::Native { code }),
    {
        ErrorKind::Native { code }
    }

    /// The error reported when a string cannot cross the native boundary.
    pub fn invalid_string_conversion_error() -> (k: ErrorKind)
        ensures
            k matches ErrorKind::Invalid { what, .. } && what == InvalidErrorKind::StringConversion,
    {
        ErrorKind::Invalid {
            what: InvalidErrorKind::StringConversion,
            context: String::from_str("string could not be converted to or from a C string"),
        }
    }

    /// The error reported for an argument out of the accepted range.
    pub fn invalid_argument_error(context: &str) -> (k: ErrorKind)
        ensures
            k matches ErrorKind::Invalid { what, context: c } && what == InvalidErrorKind::Argument
                && c@ == context@,
    {
        ErrorKind::Invalid { what: InvalidErrorKind::Argument, context: String::from_str(context) }
    }

    /// The error reported when the native library broke one of its own promises.
    pub fn assertion_failed_error(context: &str) -> (k: ErrorKind)
        ensures
            k matches ErrorKind::AssertionFailed { context: c } && c@ == context@,
    {
        ErrorKind::AssertionFailed { context: String::from_str(context) }
    }

    /// Turn this kind into a failed result, with no native message.
    pub fn into_err<T>(self) -> (r: ConnectorResult<T>)
        ensures
            r matches Err(e) && e.kind == self && e.native_message is None,
    {
        Err(ConnectorError::new(self))
    }
}

impl ConnectorError {
    /// An error of the given kind, with no native message.
    pub fn new(kind: ErrorKind) -> (e: ConnectorError)
        ensures
            e.kind == kind,
            e.native_message is None,
    {
        ConnectorError { kind, native_message: None }
    }

    /// This error, carrying `message` as the native library's last error message.
    pub fn with_native_message(self, message: Option<String>) -> (e: ConnectorError)
        ensures
            e.kind == self.kind,
            e.native_message == message,
    {
        ConnectorError { kind: self.kind, native_message: message }
    }

    /// The kind of this error.
    pub fn kind(&self) -> (k: &ErrorKind)
        ensures
            *k == self.kind,
    {
        &self.kind
    }

    /// Whether this error reports an expired timeout.
    pub fn is_timeout(&self) -> (b: bool)
        ensures
            b == (self.kind is Timeout),
    {
        matches!(self.kind, ErrorKind::Timeout)
    }

    /// Whether this error reports an entity that does not exist.
    pub fn is_entity_not_found(&self) -> (b: bool)
        ensures
            b == (self.kind is EntityNotFound),
    {
        matches!(self.kind, ErrorKind::EntityNotFound { .. })
    }

    /// Whether this error was reported by the native library.
    pub fn is_native_error(&self) -> (b: bool)
        ensures
            b == (self.kind is Native),
    {
        matches!(self.kind, ErrorKind::Native { .. })
    }

    /// Whether this error was reported by the native library with return code `code`.
    pub fn is_native_error_code(&self, code: ReturnCode) -> (b: bool)
        ensures
            b == is_native_code(*self, code),
    {
        match &self.kind {
            ErrorKind::Native { code: c } => *c == code,
            _ => false,
        }
    }

    /// The last error message of the native library, if this is a native failure
    /// and the library recorded one.
    pub fn last_error_message(&self) -> (m: Option<String>)
        ensures
            m == self.native_message,
    {
        match &self.native_message {
            Some(m) => Some(m.clone()),
            None => None,
        }
    }
}

/// The text that describes the kind `k`.
pub open spec fn kind_text(k: ErrorKind) -> Seq<char> {
    match k {
        ErrorKind::Timeout => "Timeout"@,
        ErrorKind::EntityNotFound { name } => "Entity not found: "@ + name@,
        ErrorKind::EntityBusy { context } => "Entity busy: "@ + context@,
        ErrorKind::LockPoisoned { context } => "Lock poisoned: "@ + context@,
        ErrorKind::Native { code } => "Native error: "@ + return_code_text(code),
        ErrorKind::Invalid { context, .. } => "Invalid: "@ + context@,
        ErrorKind::AssertionFailed { context } => "Assertion failed: "@ + context@,
    }
}

/// The text that describes the error `e`: its kind, then the native message.
pub open spec fn error_text(e: ConnectorError) -> Seq<char> {
    match e.native_message {
        Some(m) => kind_text(e.kind) + " ("@ + m@ + ")"@,
        None => kind_text(e.kind),
    }
}

impl ErrorKind {
    /// The text that describes this kind.
    pub fn to_text(&self) -> (s: String)
        ensures
            s@ == kind_text(*self),
    {
        match self {
            ErrorKind::Timeout => String::from_str("Timeout"),
            ErrorKind::EntityNotFound { name } => {
                let mut s = String::from_str("Entity not found: ");
                s.append(name.as_str());
                s
            },
            ErrorKind::EntityBusy { context } => {
                let mut s = String::from_str("Entity busy: ");
                s.append(context.as_str());
                s
            },
            ErrorKind::LockPoisoned { context } => {
                let mut s = String::from_str("Lock poisoned: ");
                s.append(context.as_str());
                s
            },
            ErrorKind::Native { code } => {
                let mut s = String::from_str("Native error: ");
                let t = code.to_text();
                s.append(t.as_str());
                s
            },
            ErrorKind::Invalid { context, .. } => {
                let mut s = String::from_str("Invalid: ");
                s.append(context.as_str());
                s
            },
            ErrorKind::AssertionFailed { context } => {
                let mut s = String::from_str("Assertion failed: ");
                s.append(context.as_str());
                s
            },
        }
    }
}

impl ConnectorError {
    /// The text that describes this error.
    pub fn to_text(&self) -> (s: String)
        ensures
            s@ == error_text(*self),
    {
        let mut s = self.kind.to_text();
        match &self.native_message {
            Some(m) => {
                s.append(" (");
                s.append(m.as_str());
                s.append(")");
            },
            None => {},
        }
        s
    }
}

} // verus!
