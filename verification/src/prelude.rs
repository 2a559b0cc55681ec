//! The names that most callers need, for one import.

pub use crate::async_job::{AsyncJob, PollState, PollStep};
pub use crate::client::RenamedClient;
pub use crate::error::{ErrorKind, RenamedError};
pub use crate::models::{
    ExtractOptions, JobStatus, PdfSplitOptions, PdfSplitResult, RenameOptions, SplitDocument,
    SplitMode, User,
};
pub use crate::retry::{AttemptOutcome, RetryDecision, RetryPolicy, RetryState};
