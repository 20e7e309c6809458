//! The opaque error type used by every fallible drawing operation.
//!
//! An [`Error`] wraps an underlying cause together with an optional
//! human-readable message. The cause is stored in one of two tiers: a
//! *public* cause, whose concrete identity external callers may recover, or
//! a *private* cause, placed behind an identity-hiding shim so that only the
//! shim itself is introspectable while display and chain traversal still
//! reach the underlying text.

use vstd::prelude::*;
use vstd::string::StringExecFns;

verus! {

/// What this library keeps of an underlying system error: a numeric code
/// standing for the concrete type of that error, and its rendered text.
///
/// Backends translate whatever failed inside them into a `Cause`; the
/// drawing layer never inspects a failure beyond these two fields.
#[derive(Debug)]
pub struct Cause {
    /// A code identifying the concrete type of the underlying error.
    pub code: u64,
    /// The rendered text of the underlying error.
    pub text: String,
}

/// The mathematical value of a [`Cause`].
pub struct CauseView {
    pub code: u64,
    pub text: Seq<char>,
}

impl View for Cause {
    type V = CauseView;

    open spec fn view(&self) -> CauseView {
        CauseView { code: self.code, text: self.text@ }
    }
}

/// The error type used by every fallible operation of this crate.
///
/// Created at the point a fallible operation fails and immutable
/// thereafter. A `shielded` cause sits behind the identity-hiding shim:
/// its text still renders and its chain can still be walked, but
/// [`Error::downcast`] never recovers it.
#[derive(Debug)]
pub struct Error {
    /// The underlying system error.
    cause: Cause,
    /// Whether the cause is hidden behind the identity shim.
    shielded: bool,
    /// A message associated with the error.
    message: Option<String>,
}

/// The mathematical value of an [`Error`].
pub struct ErrorView {
    pub cause: CauseView,
    pub shielded: bool,
    pub message: Option<Seq<char>>,
}

impl View for Error {
    type V = ErrorView;

    closed spec fn view(&self) -> ErrorView {
        ErrorView {
            cause: self.cause@,
            shielded: self.shielded,
            message: match self.message {
                Some(m) => Some(m@),
                None => None,
            },
        }
    }
}

impl ErrorView {
    /// How the error displays: `"{message}: {cause}"` when a message is
    /// present, else just `"{cause}"`.
    pub open spec fn rendered(self) -> Seq<char> {
        match self.message {
            Some(m) => m + ": "@ + self.cause.text,
            None => self.cause.text,
        }
    }
}

impl Error {
    /// The shared constructor behind the four public construction paths.
    fn new(source: Cause, shielded: bool, message: Option<String>) -> (r: Error)
        ensures
            r@ == (ErrorView {
                cause: source@,
                shielded: shielded,
                message: match message {
                    Some(m) => Some(m@),
                    None => None::<Seq<char>>,
                },
            }),
    {
        Error { cause: source, shielded, message }
    }

    /// Creates an `Error` from a system error that can be exposed in the
    /// public interface.
    pub fn from_public_error(source: Cause) -> (r: Error)
        ensures
            r@ == (ErrorView { cause: source@, shielded: false, message: None::<Seq<char>> }),
    {
        Self::new(source, false, None)
    }

    /// Creates an `Error` from a system error that can be exposed in the
    /// public interface and a message.
    pub fn from_public_error_with_message(source: Cause, message: String) -> (r: Error)
        ensures
            r@ == (ErrorView { cause: source@, shielded: false, message: Some(message@) }),
    {
        Self::new(source, false, Some(message))
    }

    /// Creates an `Error` from a system error that cannot be exposed in the
    /// public interface; the cause goes behind the identity-hiding shim.
    pub fn from_error(source: Cause) -> (r: Error)
        ensures
            r@ == (ErrorView { cause: source@, shielded: true, message: None::<Seq<char>> }),
    {
        Self::new(source, true, None)
    }

    /// Creates an `Error` from a system error that cannot be exposed in the
    /// public interface and a message.
    pub fn from_error_with_message(source: Cause, message: String) -> (r: Error)
        ensures
            r@ == (ErrorView { cause: source@, shielded: true, message: Some(message@) }),
    {
        Self::new(source, true, Some(message))
    }

    /// Get the message associated with the error.
    pub fn message(&self) -> (r: Option<&str>)
        ensures
            match r {
                Some(m) => self@.message == Some(m@),
                None => self@.message is None,
            },
    {
        match &self.message {
            Some(m) => Some(m.as_str()),
            None => None,
        }
    }

    /// How the error displays: `"{message}: {cause}"` when a message is
    /// present, else just `"{cause}"`.
    pub fn render(&self) -> (r: String)
        ensures
            r@ == self@.rendered(),
    {
        match &self.message {
            Some(m) => {
                let mut s = String::from_str(m.as_str());
                s.append(": ");
                s.append(self.cause.text.as_str());
                s
            },
            None => String::from_str(self.cause.text.as_str()),
        }
    }

    /// The rendered text of the stored cause. Chain traversal reaches this
    /// text whether or not the cause is shielded: the shim forwards display
    /// without exposing the cause for type-directed recovery.
    pub fn source_text(&self) -> (r: &str)
        ensures
            r@ == self@.cause.text,
    {
        self.cause.text.as_str()
    }

    /// Whether the stored cause sits behind the identity-hiding shim; the
    /// shim's own identity is the only thing a caller can learn of a
    /// shielded cause.
    pub fn is_shielded(&self) -> (r: bool)
        ensures
            r == self@.shielded,
    {
        self.shielded
    }

    /// Recover the stored cause by its concrete type code. Succeeds exactly
    /// when the cause is public and `code` names its concrete type; a
    /// shielded cause is never recovered, whatever code is asked for.
    pub fn downcast(&self, code: u64) -> (r: Option<&Cause>)
        ensures
            r is Some <==> !self@.shielded && self@.cause.code == code,
            match r {
                Some(c) => c@ == self@.cause,
                None => true,
            },
    {
        if !self.shielded && self.cause.code == code {
            Some(&self.cause)
        } else {
            None
        }
    }
}

} // verus!
