//! Verified core of a client for a remote document-processing service:
//! the retry policy of a request, the polling of an asynchronous job, the
//! classification of failures, the resolution of endpoint addresses and
//! the masking of the credential.
//!
//! Nothing here touches the network or the clock. The caller sends
//! requests and sleeps; this library decides what to send, how long to
//! wait, and what an answer means.

pub mod async_job;
pub mod client;
pub mod error;
pub mod models;
pub mod prelude;
pub mod retry;
pub mod text;
pub mod upload;

pub use async_job::{AsyncJob, PollState, PollStep};
pub use client::{RenamedClient, RenamedClientBuilder, SizeUnit};
pub use error::{classify, ApiErrorResponse, Details, ErrorKind, RenamedError};
pub use models::{
    ExtractOptions, JobStatus, JobStatusResponse, PdfSplitOptions, PdfSplitResult, RenameOptions,
    SplitDocument, SplitMode, Team, User,
};
pub use retry::{
    is_error_status, response_outcome, AttemptOutcome, RetryDecision, RetryPolicy, RetryState,
};
