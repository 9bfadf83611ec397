//! The library's error type and its retry classification.

use vstd::prelude::*;

use crate::text::{decimal, decimal_string, owned};

verus! {

/// What kind of local I/O failure occurred, as far as retry decisions care.
#[derive(Debug, Clone, Copy, PartialEq, Eq, Structural)]
pub enum IoErrorKind {
    Interrupted,
    TimedOut,
    ConnectionAborted,
    ConnectionReset,
    BrokenPipe,
    NotFound,
    Other,
}

/// A local I/O failure: its kind and its rendered message.
#[derive(Debug, Clone)]
pub struct IoFailure {
    pub kind: IoErrorKind,
    pub message: String,
}

/// An HTTP transport failure, described by the facts the retry policy reads.
#[derive(Debug, Clone)]
pub struct HttpFailure {
    pub timeout: bool,
    pub connect: bool,
    pub status: Option<u16>,
    pub body: bool,
    pub request: bool,
    pub message: String,
}

/// Errors raised by the client and the command-line logic.
#[derive(Debug, Clone)]
pub enum QuarkPanError {
    MissingField(&'static str),
    InvalidArgument(String),
    Cancelled,
    Api { status: u32, message: String },
    Http(HttpFailure),
    Serde(String),
    Io(IoFailure),
    HeaderValue(String),
    UrlParse(String),
}

/// How a failed operation should be treated by retry loops.
#[derive(Debug, Clone, Copy, PartialEq, Eq, Structural)]
pub enum RetryClass {
    Transient,
    RateLimited,
    Hard,
}

/// Whether an I/O failure of this kind is worth retrying.
pub open spec fn io_kind_is_transient(kind: IoErrorKind) -> bool {
    ||| kind == IoErrorKind::Interrupted
    ||| kind == IoErrorKind::TimedOut
    ||| kind == IoErrorKind::ConnectionAborted
    ||| kind == IoErrorKind::ConnectionReset
    ||| kind == IoErrorKind::BrokenPipe
}

/// The retry class of an HTTP transport failure.
pub open spec fn http_retry_class(h: HttpFailure) -> RetryClass {
    if h.timeout || h.connect {
        RetryClass::Transient
    } else if h.status == Some(429u16) {
        RetryClass::RateLimited
    } else if h.status matches Some(s) && 500 <= s <= 599 {
        RetryClass::Transient
    } else if h.body || h.request {
        RetryClass::Transient
    } else {
        RetryClass::Hard
    }
}

/// The retry class of every error: argument errors, cancellation and most
/// API errors are hard; rate limits are separate; server and transport
/// hiccups are transient.
pub open spec fn spec_retry_class(e: QuarkPanError) -> RetryClass {
    match e {
        QuarkPanError::Api { status, .. } => {
            if status == 429 {
                RetryClass::RateLimited
            } else if status >= 500 {
                RetryClass::Transient
            } else {
                RetryClass::Hard
            }
        },
        QuarkPanError::Http(h) => http_retry_class(h),
        QuarkPanError::Io(f) => if io_kind_is_transient(f.kind) {
            RetryClass::Transient
        } else {
            RetryClass::Hard
        },
        _ => RetryClass::Hard,
    }
}

/// `r` failed with an invalid-argument error carrying this text.
pub open spec fn is_invalid_argument<T>(r: Result<T, QuarkPanError>, text: Seq<char>) -> bool {
    r matches Err(QuarkPanError::InvalidArgument(m)) && m@ == text
}

/// The text an error displays as.
pub open spec fn error_text(e: QuarkPanError) -> Seq<char> {
    match e {
        QuarkPanError::MissingField(f) => "missing required field: "@ + f@,
        QuarkPanError::InvalidArgument(m) => "invalid argument: "@ + m@,
        QuarkPanError::Cancelled => "operation cancelled"@,
        QuarkPanError::Api { status, message } => "remote api error: status="@ + decimal(
            status as nat,
        ) + ", message="@ + message@,
        QuarkPanError::Http(h) => "http error: "@ + h.message@,
        QuarkPanError::Serde(m) => "json error: "@ + m@,
        QuarkPanError::Io(f) => "io error: "@ + f.message@,
        QuarkPanError::HeaderValue(m) => "header value error: "@ + m@,
        QuarkPanError::UrlParse(m) => "url parse error: "@ + m@,
    }
}

impl QuarkPanError {
    /// An error for a required field that was absent.
    pub fn missing_field(field: &'static str) -> (r: Self)
        ensures
            r == QuarkPanError::MissingField(field),
    {
        QuarkPanError::MissingField(field)
    }

    /// An error for an argument the caller got wrong.
    pub fn invalid_argument(message: &str) -> (r: Self)
        ensures
            r matches QuarkPanError::InvalidArgument(m) && m@ == message@,
    {
        QuarkPanError::InvalidArgument(owned(message))
    }

    /// Classifies the error for retry loops.
    pub fn retry_class(&self) -> (r: RetryClass)
        ensures
            r == spec_retry_class(*self),
    {
        match self {
            QuarkPanError::MissingField(_) | QuarkPanError::InvalidArgument(_)
            | QuarkPanError::Cancelled => RetryClass::Hard,
            QuarkPanError::Api { status, .. } => {
                if *status == 429 {
                    RetryClass::RateLimited
                } else if *status >= 500 {
                    RetryClass::Transient
                } else {
                    RetryClass::Hard
                }
            },
            QuarkPanError::Http(h) => {
                if h.timeout || h.connect {
                    RetryClass::Transient
                } else if h.status == Some(429u16) {
                    RetryClass::RateLimited
                } else if match h.status {
                    Some(s) => 500 <= s && s <= 599,
                    None => false,
                } {
                    RetryClass::Transient
                } else if h.body || h.request {
                    RetryClass::Transient
                } else {
                    RetryClass::Hard
                }
            },
            QuarkPanError::Io(f) => match f.kind {
                IoErrorKind::Interrupted | IoErrorKind::TimedOut | IoErrorKind::ConnectionAborted
                | IoErrorKind::ConnectionReset | IoErrorKind::BrokenPipe => RetryClass::Transient,
                _ => RetryClass::Hard,
            },
            QuarkPanError::Serde(_) | QuarkPanError::HeaderValue(_)
            | QuarkPanError::UrlParse(_) => RetryClass::Hard,
        }
    }

    /// The message the error displays.
    pub fn to_text(&self) -> (r: String)
        ensures
            r@ == error_text(*self),
    {
        let mut r = String::new();
        match self {
            QuarkPanError::MissingField(f) => {
                r.append("missing required field: ");
                r.append(f);
            },
            QuarkPanError::InvalidArgument(m) => {
                r.append("invalid argument: ");
                r.append(m.as_str());
            },
            QuarkPanError::Cancelled => {
                r.append("operation cancelled");
            },
            QuarkPanError::Api { status, message } => {
                r.append("remote api error: status=");
                let digits = decimal_string(*status as u64);
                r.append(digits.as_str());
                r.append(", message=");
                r.append(message.as_str());
            },
            QuarkPanError::Http(h) => {
                r.append("http error: ");
                r.append(h.message.as_str());
            },
            QuarkPanError::Serde(m) => {
                r.append("json error: ");
                r.append(m.as_str());
            },
            QuarkPanError::Io(f) => {
                r.append("io error: ");
                r.append(f.message.as_str());
            },
            QuarkPanError::HeaderValue(m) => {
                r.append("header value error: ");
                r.append(m.as_str());
            },
            QuarkPanError::UrlParse(m) => {
                r.append("url parse error: ");
                r.append(m.as_str());
            },
        }
        r
    }
}

} // verus!
