//! The error taxonomy, and the classification of failed requests.

use crate::text::{decimal, push_decimal};
use std::collections::HashMap;
use vstd::prelude::*;
use vstd::string::{to_string_from_display_ensures, StringExecFns};

verus! {

/// A JSON value of `serde_json`, carried through unread.
#[verifier::external_type_specification]
#[verifier::external_body]
pub struct ExJsonValue(serde_json::Value);

/// The error of `serde_json`, carried through as the source of a
/// serialization error.
#[verifier::external_type_specification]
#[verifier::external_body]
pub struct ExJsonError(serde_json::Error);

/// The error of `reqwest`, carried through as the source of a network error.
#[verifier::external_type_specification]
#[verifier::external_body]
pub struct ExTransportError(reqwest::Error);

/// The error of `std::io`, carried through as the source of a file error.
#[verifier::external_type_specification]
#[verifier::external_body]
pub struct ExIoError(std::io::Error);

/// Whether `reqwest::Error::is_timeout` says of an error that it is a
/// timeout.
pub uninterp spec fn reports_timeout(err: reqwest::Error) -> bool;

/// Whether `reqwest::Error::is_connect` says of an error that it is a failed
/// connection.
pub uninterp spec fn reports_connect(err: reqwest::Error) -> bool;

/// `reqwest::Error::is_timeout` walks the error's chain of sources and says
/// whether one of them is a timeout: the same error gives the same answer.
pub assume_specification[ reqwest::Error::is_timeout ](err: &reqwest::Error) -> (r: bool)
    ensures
        r == reports_timeout(*err),
;

/// `reqwest::Error::is_connect` walks the error's chain of sources and says
/// whether one of them is a failed connection: the same error gives the same
/// answer.
pub assume_specification[ reqwest::Error::is_connect ](err: &reqwest::Error) -> (r: bool)
    ensures
        r == reports_connect(*err),
;

/// The fields of a response beyond those with a meaning of their own.
pub type Details = HashMap<String, serde_json::Value>;

/// The kinds of failure that a caller can meet.
#[derive(Debug, Clone, Copy, PartialEq, Eq, Structural)]
pub enum ErrorKind {
    /// The credential was rejected.
    Authentication,
    /// Quota or credits are exhausted.
    InsufficientResources,
    /// Too many requests.
    RateLimited,
    /// The request or its payload was malformed.
    Validation,
    /// No response was obtained.
    Network,
    /// A request exceeded its deadline.
    Timeout,
    /// A job failed, finished without a result, or was not finished in time.
    Job,
    /// Any other error response.
    Api,
    /// A file could not be read.
    File,
    /// A body was not the JSON that was expected.
    Serialization,
}

/// What can go wrong when talking to the service.
#[derive(Debug)]
#[allow(inconsistent_fields)]
pub enum RenamedError {
    /// Invalid or missing API key.
    Authentication {
        /// What the service said.
        message: String,
        /// The HTTP status of the response.
        status_code: u16,
    },
    /// Not enough credits to complete the operation.
    InsufficientCredits {
        /// What the service said.
        message: String,
        /// The HTTP status of the response.
        status_code: u16,
    },
    /// Rate limit exceeded.
    RateLimit {
        /// What the service said.
        message: String,
        /// The HTTP status of the response.
        status_code: u16,
        /// Seconds to wait before trying again, where the service gave them.
        retry_after: Option<u32>,
    },
    /// Invalid request parameters or payload.
    Validation {
        /// What the service said.
        message: String,
        /// The HTTP status of the response.
        status_code: u16,
        /// The other fields of the response, where there are any.
        details: Option<Details>,
    },
    /// Network or connection failure.
    Network {
        /// What went wrong.
        message: String,
        /// The transport's own error, where there is one.
        source: Option<reqwest::Error>,
    },
    /// A request timed out.
    Timeout {
        /// What went wrong.
        message: String,
    },
    /// An asynchronous job did not deliver.
    Job {
        /// What went wrong.
        message: String,
        /// The job, where it is known.
        job_id: Option<String>,
    },
    /// Any other error response.
    Api {
        /// What the service said.
        message: String,
        /// The HTTP status of the response.
        status_code: u16,
        /// A fixed code for this kind.
        code: String,
        /// The other fields of the response, where there are any.
        details: Option<Details>,
    },
    /// A file could not be read.
    File {
        /// What was being done.
        message: String,
        /// The I/O error, where there is one.
        source: Option<std::io::Error>,
    },
    /// A body could not be written or read as JSON.
    Serialization {
        /// What the JSON library said.
        message: String,
        /// The JSON library's own error, where there is one.
        source: Option<serde_json::Error>,
    },
}

/// A [`RenamedError`] with its texts as sequences of characters.
#[allow(inconsistent_fields)]
pub enum ErrorModel {
    Authentication { message: Seq<char>, status_code: u16 },
    InsufficientCredits { message: Seq<char>, status_code: u16 },
    RateLimit { message: Seq<char>, status_code: u16, retry_after: Option<u32> },
    Validation { message: Seq<char>, status_code: u16, details: Option<Details> },
    Network { message: Seq<char>, source: Option<reqwest::Error> },
    Timeout { message: Seq<char> },
    Job { message: Seq<char>, job_id: Option<Seq<char>> },
    Api { message: Seq<char>, status_code: u16, code: Seq<char>, details: Option<Details> },
    File { message: Seq<char>, source: Option<std::io::Error> },
    Serialization { message: Seq<char>, source: Option<serde_json::Error> },
}

/// The body of an error response, decoded.
#[derive(Debug)]
pub struct ApiErrorResponse {
    /// The field `error`.
    pub error: Option<String>,
    /// The field `retryAfter`, in seconds.
    pub retry_after: Option<u32>,
    /// Every other field.
    pub extra: Details,
}

/// The view of an optional string.
pub open spec fn text_of(s: Option<String>) -> Option<Seq<char>> {
    match s {
        Some(t) => Some(t@),
        None => None,
    }
}

/// The kind of error that an HTTP status stands for.
pub open spec fn classification(status: u16) -> ErrorKind {
    if status == 401 {
        ErrorKind::Authentication
    } else if status == 402 {
        ErrorKind::InsufficientResources
    } else if status == 400 || status == 422 {
        ErrorKind::Validation
    } else if status == 429 {
        ErrorKind::RateLimited
    } else {
        ErrorKind::Api
    }
}

/// The message of an error response: the service's own, or the status.
pub open spec fn http_message(status: u16, response: Option<ApiErrorResponse>) -> Seq<char> {
    match response {
        Some(ApiErrorResponse { error: Some(text), .. }) => text@,
        _ => "HTTP "@ + decimal(status as nat),
    }
}

/// The details of an error response: its other fields, where it has any.
pub open spec fn http_details(response: Option<ApiErrorResponse>) -> Option<Details> {
    match response {
        Some(r) => if r.extra@.is_empty() {
            None
        } else {
            Some(r.extra)
        },
        None => None,
    }
}

/// The retry hint of an error response.
pub open spec fn http_retry_after(response: Option<ApiErrorResponse>) -> Option<u32> {
    match response {
        Some(r) => r.retry_after,
        None => None,
    }
}

/// The error that a response with an error status stands for.
pub open spec fn http_error(status: u16, response: Option<ApiErrorResponse>) -> ErrorModel {
    let message = http_message(status, response);
    match classification(status) {
        ErrorKind::Authentication => ErrorModel::Authentication { message, status_code: status },
        ErrorKind::InsufficientResources => ErrorModel::InsufficientCredits {
            message,
            status_code: status,
        },
        ErrorKind::Validation => ErrorModel::Validation {
            message,
            status_code: status,
            details: http_details(response),
        },
        ErrorKind::RateLimited => ErrorModel::RateLimit {
            message,
            status_code: status,
            retry_after: http_retry_after(response),
        },
        _ => ErrorModel::Api {
            message,
            status_code: status,
            code: "API_ERROR"@,
            details: http_details(response),
        },
    }
}

/// The error that a failed transport stands for, by what the transport says
/// of its failure.
pub open spec fn transport_error(
    timed_out: bool,
    connect: bool,
    text: Seq<char>,
    source: reqwest::Error,
) -> ErrorModel {
    if timed_out {
        ErrorModel::Timeout { message: "Request timed out"@ }
    } else if connect {
        ErrorModel::Network { message: "Connection failed"@, source: Some(source) }
    } else {
        ErrorModel::Network { message: text, source: Some(source) }
    }
}

/// Whether `message` is the transport's own description of `err`: what
/// `to_string` makes of it.
pub open spec fn describes_transport_error(message: Seq<char>, err: reqwest::Error) -> bool {
    exists|text: String| #[trigger]
        to_string_from_display_ensures::<reqwest::Error>(&err, text) && text@ == message
}

/// Whether `message` is the JSON library's own description of `err`: what
/// `to_string` makes of it.
pub open spec fn describes_json_error(message: Seq<char>, err: serde_json::Error) -> bool {
    exists|text: String| #[trigger]
        to_string_from_display_ensures::<serde_json::Error>(&err, text) && text@ == message
}

/// Whether `e` is what a request without response amounts to. An error that
/// the transport reports as a timeout is a timeout error. One that it
/// reports as a failed connection is a network error that says so. Any
/// other is a network error with the transport's own description. Both
/// network errors keep `err` as their source.
pub open spec fn wraps_transport_failure(e: ErrorModel, err: reqwest::Error) -> bool {
    if reports_timeout(err) {
        e == (ErrorModel::Timeout { message: "Request timed out"@ })
    } else if reports_connect(err) {
        e == (ErrorModel::Network { message: "Connection failed"@, source: Some(err) })
    } else {
        e matches ErrorModel::Network { message, source } && source == Some(err)
            && describes_transport_error(message, err)
    }
}

/// Whether `e` is the serialization error for `err`: it carries the JSON
/// library's description of `err` and keeps it as its source.
pub open spec fn wraps_json_error(e: ErrorModel, err: serde_json::Error) -> bool {
    e matches ErrorModel::Serialization { message, source } && source == Some(err)
        && describes_json_error(message, err)
}

impl ErrorModel {
    /// The kind of the error.
    pub open spec fn kind(self) -> ErrorKind {
        match self {
            ErrorModel::Authentication { .. } => ErrorKind::Authentication,
            ErrorModel::InsufficientCredits { .. } => ErrorKind::InsufficientResources,
            ErrorModel::RateLimit { .. } => ErrorKind::RateLimited,
            ErrorModel::Validation { .. } => ErrorKind::Validation,
            ErrorModel::Network { .. } => ErrorKind::Network,
            ErrorModel::Timeout { .. } => ErrorKind::Timeout,
            ErrorModel::Job { .. } => ErrorKind::Job,
            ErrorModel::Api { .. } => ErrorKind::Api,
            ErrorModel::File { .. } => ErrorKind::File,
            ErrorModel::Serialization { .. } => ErrorKind::Serialization,
        }
    }

    /// The human-readable message that the error carries.
    pub open spec fn message(self) -> Seq<char> {
        match self {
            ErrorModel::Authentication { message, .. } => message,
            ErrorModel::InsufficientCredits { message, .. } => message,
            ErrorModel::RateLimit { message, .. } => message,
            ErrorModel::Validation { message, .. } => message,
            ErrorModel::Network { message, .. } => message,
            ErrorModel::Timeout { message } => message,
            ErrorModel::Job { message, .. } => message,
            ErrorModel::Api { message, .. } => message,
            ErrorModel::File { message, .. } => message,
            ErrorModel::Serialization { message, .. } => message,
        }
    }

    /// The error written out: what kind it is, then its message.
    pub open spec fn rendered(self) -> Seq<char> {
        match self {
            ErrorModel::Authentication { message, .. } => "Authentication error: "@ + message,
            ErrorModel::InsufficientCredits { message, .. } => "Insufficient credits: "@ + message,
            ErrorModel::RateLimit { message, .. } => "Rate limit exceeded: "@ + message,
            ErrorModel::Validation { message, .. } => "Validation error: "@ + message,
            ErrorModel::Network { message, .. } => "Network error: "@ + message,
            ErrorModel::Timeout { message } => "Timeout error: "@ + message,
            ErrorModel::Job { message, .. } => "Job error: "@ + message,
            ErrorModel::Api { message, status_code, .. } => "API error ("@ + decimal(
                status_code as nat,
            ) + "): "@ + message,
            ErrorModel::File { message, .. } => "File error: "@ + message,
            ErrorModel::Serialization { message, .. } => "Serialization error: "@ + message,
        }
    }
}

impl View for RenamedError {
    type V = ErrorModel;

    open spec fn view(&self) -> ErrorModel {
        match *self {
            RenamedError::Authentication { message, status_code } => ErrorModel::Authentication {
                message: message@,
                status_code,
            },
            RenamedError::InsufficientCredits {
                message,
                status_code,
            } => ErrorModel::InsufficientCredits { message: message@, status_code },
            RenamedError::RateLimit { message, status_code, retry_after } => ErrorModel::RateLimit {
                message: message@,
                status_code,
                retry_after,
            },
            RenamedError::Validation { message, status_code, details } => ErrorModel::Validation {
                message: message@,
                status_code,
                details,
            },
            RenamedError::Network { message, source } => ErrorModel::Network {
                message: message@,
                source,
            },
            RenamedError::Timeout { message } => ErrorModel::Timeout { message: message@ },
            RenamedError::Job { message, job_id } => ErrorModel::Job {
                message: message@,
                job_id: text_of(job_id),
            },
            RenamedError::Api { message, status_code, code, details } => ErrorModel::Api {
                message: message@,
                status_code,
                code: code@,
                details,
            },
            RenamedError::File { message, source } => ErrorModel::File { message: message@, source },
            RenamedError::Serialization { message, source } => ErrorModel::Serialization {
                message: message@,
                source,
            },
        }
    }
}

/// The kind of error that an HTTP status stands for.
pub fn classify(status: u16) -> (kind: ErrorKind)
    ensures
        kind == classification(status),
{
    if status == 401 {
        ErrorKind::Authentication
    } else if status == 402 {
        ErrorKind::InsufficientResources
    } else if status == 400 || status == 422 {
        ErrorKind::Validation
    } else if status == 429 {
        ErrorKind::RateLimited
    } else {
        ErrorKind::Api
    }
}

impl RenamedError {
    /// The error for a response with status `status`, whose body was decoded
    /// as `response` (`None` where it could not be).
    pub fn from_http_status(status: u16, response: Option<ApiErrorResponse>) -> (r: RenamedError)
        ensures
            r@ == http_error(status, response),
            r@.kind() == classification(status),
    {
        let (error, retry_after, extra) = match response {
            Some(ApiErrorResponse { error, retry_after, extra }) => (error, retry_after, Some(extra)),
            None => (None, None, None),
        };
        let message = match error {
            Some(text) => text,
            None => {
                let mut text = String::from_str("HTTP ");
                push_decimal(&mut text, status as u64);
                text
            },
        };
        let details = match extra {
            Some(fields) => if fields.is_empty() {
                None
            } else {
                Some(fields)
            },
            None => None,
        };
        match classify(status) {
            ErrorKind::Authentication => RenamedError::Authentication {
                message,
                status_code: status,
            },
            ErrorKind::InsufficientResources => RenamedError::InsufficientCredits {
                message,
                status_code: status,
            },
            ErrorKind::Validation => RenamedError::Validation {
                message,
                status_code: status,
                details,
            },
            ErrorKind::RateLimited => RenamedError::RateLimit {
                message,
                status_code: status,
                retry_after,
            },
            _ => RenamedError::Api {
                message,
                status_code: status,
                code: String::from_str("API_ERROR"),
                details,
            },
        }
    }

    /// The error for a failed transport, from what the transport says of the
    /// failure: whether it was a timeout, whether the connection failed, and
    /// its own description.
    pub fn from_transport(timed_out: bool, connect: bool, text: String, source: reqwest::Error) -> (r:
        RenamedError)
        ensures
            r@ == transport_error(timed_out, connect, text@, source),
    {
        if timed_out {
            RenamedError::Timeout { message: String::from_str("Request timed out") }
        } else if connect {
            RenamedError::Network {
                message: String::from_str("Connection failed"),
                source: Some(source),
            }
        } else {
            RenamedError::Network { message: text, source: Some(source) }
        }
    }

    /// The error for a request that got no response. What the transport
    /// reports as a timeout gives a timeout error; what it reports as a
    /// failed connection gives a network error that says so; anything else
    /// gives a network error with the transport's own description. The
    /// network errors keep `err` as their source.
    pub fn from_reqwest(err: reqwest::Error) -> (r: RenamedError)
        ensures
            wraps_transport_failure(r@, err),
            reports_timeout(err) ==> r@ == (ErrorModel::Timeout { message: "Request timed out"@ }),
            !reports_timeout(err) && reports_connect(err) ==> r@ == (ErrorModel::Network {
                message: "Connection failed"@,
                source: Some(err),
            }),
            r@.kind() == (if reports_timeout(err) {
                ErrorKind::Timeout
            } else {
                ErrorKind::Network
            }),
    {
        let timed_out = err.is_timeout();
        let connect = err.is_connect();
        let text = err.to_string();
        assert(describes_transport_error(text@, err));
        RenamedError::from_transport(timed_out, connect, text, err)
    }

    /// A job error with the given message, for the given job where it is known.
    pub fn job_error(message: String, job_id: Option<String>) -> (r: RenamedError)
        ensures
            r@ == (ErrorModel::Job { message: message@, job_id: text_of(job_id) }),
    {
        RenamedError::Job { message, job_id }
    }

    /// A file error: `context` says what was being done when `err` came.
    pub fn from_io(err: std::io::Error, context: String) -> (r: RenamedError)
        ensures
            r@ == (ErrorModel::File { message: context@, source: Some(err) }),
    {
        RenamedError::File { message: context, source: Some(err) }
    }

    /// A serialization error with the JSON library's description of `err`,
    /// which it keeps as its source.
    pub fn from_serde(err: serde_json::Error) -> (r: RenamedError)
        ensures
            wraps_json_error(r@, err),
    {
        let text = err.to_string();
        assert(describes_json_error(text@, err));
        RenamedError::Serialization { message: text, source: Some(err) }
    }

    /// The kind of this error.
    pub fn kind(&self) -> (k: ErrorKind)
        ensures
            k == self@.kind(),
    {
        match self {
            RenamedError::Authentication { .. } => ErrorKind::Authentication,
            RenamedError::InsufficientCredits { .. } => ErrorKind::InsufficientResources,
            RenamedError::RateLimit { .. } => ErrorKind::RateLimited,
            RenamedError::Validation { .. } => ErrorKind::Validation,
            RenamedError::Network { .. } => ErrorKind::Network,
            RenamedError::Timeout { .. } => ErrorKind::Timeout,
            RenamedError::Job { .. } => ErrorKind::Job,
            RenamedError::Api { .. } => ErrorKind::Api,
            RenamedError::File { .. } => ErrorKind::File,
            RenamedError::Serialization { .. } => ErrorKind::Serialization,
        }
    }

    /// The human-readable message of this error.
    pub fn message(&self) -> (m: &str)
        ensures
            m@ == self@.message(),
    {
        match self {
            RenamedError::Authentication { message, .. } => message.as_str(),
            RenamedError::InsufficientCredits { message, .. } => message.as_str(),
            RenamedError::RateLimit { message, .. } => message.as_str(),
            RenamedError::Validation { message, .. } => message.as_str(),
            RenamedError::Network { message, .. } => message.as_str(),
            RenamedError::Timeout { message } => message.as_str(),
            RenamedError::Job { message, .. } => message.as_str(),
            RenamedError::Api { message, .. } => message.as_str(),
            RenamedError::File { message, .. } => message.as_str(),
            RenamedError::Serialization { message, .. } => message.as_str(),
        }
    }

    /// The error written out for a reader: what kind it is, then its message.
    pub fn to_string(&self) -> (r: String)
        ensures
            r@ == self@.rendered(),
    {
        let mut out = match self {
            RenamedError::Authentication { .. } => String::from_str("Authentication error: "),
            RenamedError::InsufficientCredits { .. } => String::from_str("Insufficient credits: "),
            RenamedError::RateLimit { .. } => String::from_str("Rate limit exceeded: "),
            RenamedError::Validation { .. } => String::from_str("Validation error: "),
            RenamedError::Network { .. } => String::from_str("Network error: "),
            RenamedError::Timeout { .. } => String::from_str("Timeout error: "),
            RenamedError::Job { .. } => String::from_str("Job error: "),
            RenamedError::Api { status_code, .. } => {
                let mut head = String::from_str("API error (");
                push_decimal(&mut head, *status_code as u64);
                head.append("): ");
                head
            },
            RenamedError::File { .. } => String::from_str("File error: "),
            RenamedError::Serialization { .. } => String::from_str("Serialization error: "),
        };
        out.append(self.message());
        out
    }
}

} // verus!
