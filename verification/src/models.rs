//! Request and response values exchanged with the service.

use crate::error::{wraps_json_error, Details, RenamedError};
use crate::text::{decimal, to_decimal};
use vstd::prelude::*;
use vstd::string::StringExecFns;

verus! {

/// `serde_json::to_string` on a map of JSON values writes the map as a JSON
/// object, or fails. Nothing is claimed of which, nor of the text.
#[verifier::external_body]
fn encode_json_object(fields: &Details) -> (r: Result<String, serde_json::Error>) {
    serde_json::to_string(fields)
}

/// The named text fields that go with an uploaded file, as pairs of
/// character sequences.
pub open spec fn fields_view(fields: Seq<(String, String)>) -> Seq<(Seq<char>, Seq<char>)> {
    Seq::new(fields.len(), |i: int| (fields[i].0@, fields[i].1@))
}

// ---------------------------------------------------------------------------
// Rename

/// Options for a rename.
#[derive(Debug, Clone)]
pub struct RenameOptions {
    /// Custom template for the file name.
    pub template: Option<String>,
}

impl Default for RenameOptions {
    fn default() -> (r: RenameOptions)
        ensures
            r.template is None,
    {
        RenameOptions { template: None }
    }
}

impl RenameOptions {
    /// Options with nothing set.
    pub fn new() -> (r: RenameOptions)
        ensures
            r.template is None,
    {
        RenameOptions { template: None }
    }

    /// The same options with a template for the file name.
    pub fn with_template(self, template: &str) -> (r: RenameOptions)
        ensures
            r.template matches Some(t) && t@ == template@,
    {
        RenameOptions { template: Some(String::from_str(template)) }
    }

    /// The form fields of these options.
    pub open spec fn fields(self) -> Seq<(Seq<char>, Seq<char>)> {
        match self.template {
            Some(t) => seq![("template"@, t@)],
            None => Seq::empty(),
        }
    }

    /// The form fields that carry these options to the service.
    pub fn form_fields(self) -> (r: Vec<(String, String)>)
        ensures
            fields_view(r@) == self.fields(),
    {
        let mut out: Vec<(String, String)> = Vec::new();
        if let Some(template) = self.template {
            out.push((String::from_str("template"), template));
        }
        assert(fields_view(out@) =~= self.fields());
        out
    }
}

// ---------------------------------------------------------------------------
// PDF split

/// How a PDF is split.
#[derive(Debug, Clone, Copy, PartialEq, Eq, Structural)]
pub enum SplitMode {
    /// Document boundaries are detected.
    Auto,
    /// A split every N pages.
    Pages,
    /// A split at each blank page.
    Blank,
}

impl Default for SplitMode {
    fn default() -> (r: SplitMode)
        ensures
            r == SplitMode::Auto,
    {
        SplitMode::Auto
    }
}

impl SplitMode {
    /// The mode's name on the wire.
    pub open spec fn name(self) -> Seq<char> {
        match self {
            SplitMode::Auto => "auto"@,
            SplitMode::Pages => "pages"@,
            SplitMode::Blank => "blank"@,
        }
    }

    /// The mode's name on the wire.
    pub fn as_str(&self) -> (r: &'static str)
        ensures
            r@ == self.name(),
    {
        match self {
            SplitMode::Auto => "auto",
            SplitMode::Pages => "pages",
            SplitMode::Blank => "blank",
        }
    }

    /// The mode's name on the wire, owned.
    pub fn to_string(&self) -> (r: String)
        ensures
            r@ == self.name(),
    {
        String::from_str(self.as_str())
    }
}

/// Options for a PDF split.
#[derive(Debug, Clone)]
pub struct PdfSplitOptions {
    /// The split mode.
    pub mode: Option<SplitMode>,
    /// Pages per split, for [`SplitMode::Pages`].
    pub pages_per_split: Option<u32>,
}

impl Default for PdfSplitOptions {
    fn default() -> (r: PdfSplitOptions)
        ensures
            r.mode is None,
            r.pages_per_split is None,
    {
        PdfSplitOptions { mode: None, pages_per_split: None }
    }
}

impl PdfSplitOptions {
    /// Options with nothing set.
    pub fn new() -> (r: PdfSplitOptions)
        ensures
            r.mode is None,
            r.pages_per_split is None,
    {
        PdfSplitOptions { mode: None, pages_per_split: None }
    }

    /// The same options with a split mode.
    pub fn with_mode(self, mode: SplitMode) -> (r: PdfSplitOptions)
        ensures
            r.mode == Some(mode),
            r.pages_per_split == self.pages_per_split,
    {
        PdfSplitOptions { mode: Some(mode), pages_per_split: self.pages_per_split }
    }

    /// The same options with a number of pages per split.
    pub fn with_pages_per_split(self, pages: u32) -> (r: PdfSplitOptions)
        ensures
            r.mode == self.mode,
            r.pages_per_split == Some(pages),
    {
        PdfSplitOptions { mode: self.mode, pages_per_split: Some(pages) }
    }

    /// The form fields of these options: the mode, then the pages per split.
    pub open spec fn fields(self) -> Seq<(Seq<char>, Seq<char>)> {
        let mode = match self.mode {
            Some(m) => seq![("mode"@, m.name())],
            None => Seq::empty(),
        };
        let pages = match self.pages_per_split {
            Some(n) => seq![("pagesPerSplit"@, decimal(n as nat))],
            None => Seq::empty(),
        };
        mode + pages
    }

    /// The form fields that carry these options to the service.
    pub fn form_fields(self) -> (r: Vec<(String, String)>)
        ensures
            fields_view(r@) == self.fields(),
    {
        let mut out: Vec<(String, String)> = Vec::new();
        if let Some(mode) = self.mode {
            out.push((String::from_str("mode"), mode.to_string()));
        }
        if let Some(pages) = self.pages_per_split {
            out.push((String::from_str("pagesPerSplit"), to_decimal(pages as u64)));
        }
        assert(fields_view(out@) =~= self.fields());
        out
    }
}

/// One document that a split produced.
#[derive(Debug, Clone)]
pub struct SplitDocument {
    /// Position among the documents, from 0.
    pub index: u32,
    /// Suggested file name.
    pub filename: String,
    /// The pages of the uploaded document that it holds, such as "1-3".
    pub pages: String,
    /// Where to download it.
    pub download_url: String,
    /// Size in bytes.
    pub size: i64,
}

/// The result of a PDF split.
#[derive(Debug, Clone)]
pub struct PdfSplitResult {
    /// The name of the uploaded file.
    pub original_filename: String,
    /// The documents that the split produced.
    pub documents: Vec<SplitDocument>,
    /// The number of pages of the uploaded document.
    pub total_pages: u32,
}

// ---------------------------------------------------------------------------
// Jobs

/// Where an asynchronous job stands.
#[derive(Debug, Clone, Copy, PartialEq, Eq, Structural)]
pub enum JobStatus {
    /// Queued, not yet started.
    Pending,
    /// Being worked on.
    Processing,
    /// Finished with a result.
    Completed,
    /// Finished without one.
    Failed,
}

impl JobStatus {
    /// The job can still change state.
    pub open spec fn in_progress(self) -> bool {
        self == JobStatus::Pending || self == JobStatus::Processing
    }

    /// The status's name on the wire.
    pub open spec fn name(self) -> Seq<char> {
        match self {
            JobStatus::Pending => "pending"@,
            JobStatus::Processing => "processing"@,
            JobStatus::Completed => "completed"@,
            JobStatus::Failed => "failed"@,
        }
    }

    /// True while the job is pending or processing.
    pub fn is_in_progress(&self) -> (r: bool)
        ensures
            r == self.in_progress(),
    {
        match self {
            JobStatus::Pending | JobStatus::Processing => true,
            _ => false,
        }
    }

    /// True once the job has completed or failed.
    pub fn is_finished(&self) -> (r: bool)
        ensures
            r == !self.in_progress(),
    {
        match self {
            JobStatus::Completed | JobStatus::Failed => true,
            _ => false,
        }
    }

    /// The status's name on the wire, owned.
    pub fn to_string(&self) -> (r: String)
        ensures
            r@ == self.name(),
    {
        match self {
            JobStatus::Pending => String::from_str("pending"),
            JobStatus::Processing => String::from_str("processing"),
            JobStatus::Completed => String::from_str("completed"),
            JobStatus::Failed => String::from_str("failed"),
        }
    }
}

/// What the status endpoint says of a job at one moment.
#[derive(Debug, Clone)]
pub struct JobStatusResponse {
    /// The job's identifier.
    pub job_id: String,
    /// Where the job stands.
    pub status: JobStatus,
    /// Progress in percent.
    pub progress: Option<u8>,
    /// Why the job failed.
    pub error: Option<String>,
    /// The result of a completed job.
    pub result: Option<PdfSplitResult>,
}

// ---------------------------------------------------------------------------
// Extract

/// Options for an extraction.
#[derive(Debug, Clone)]
pub struct ExtractOptions {
    /// JSON schema of what to extract.
    pub schema: Option<Details>,
    /// What to extract, in words.
    pub prompt: Option<String>,
}

impl Default for ExtractOptions {
    fn default() -> (r: ExtractOptions)
        ensures
            r.schema is None,
            r.prompt is None,
    {
        ExtractOptions { schema: None, prompt: None }
    }
}

/// The form fields of an extraction: the prompt, then the schema as
/// encoded.
pub open spec fn extract_fields(prompt: Option<String>, schema: Option<String>) -> Seq<
    (Seq<char>, Seq<char>),
> {
    let first = match prompt {
        Some(p) => seq![("prompt"@, p@)],
        None => Seq::empty(),
    };
    let second = match schema {
        Some(s) => seq![("schema"@, s@)],
        None => Seq::empty(),
    };
    first + second
}

impl ExtractOptions {
    /// Options with nothing set.
    pub fn new() -> (r: ExtractOptions)
        ensures
            r.schema is None,
            r.prompt is None,
    {
        ExtractOptions { schema: None, prompt: None }
    }

    /// The same options with a schema of what to extract.
    pub fn with_schema(self, schema: Details) -> (r: ExtractOptions)
        ensures
            r.schema == Some(schema),
            r.prompt == self.prompt,
    {
        ExtractOptions { schema: Some(schema), prompt: self.prompt }
    }

    /// The same options with a description of what to extract.
    pub fn with_prompt(self, prompt: &str) -> (r: ExtractOptions)
        ensures
            r.schema == self.schema,
            r.prompt matches Some(p) && p@ == prompt@,
    {
        ExtractOptions { schema: self.schema, prompt: Some(String::from_str(prompt)) }
    }

    /// The form fields for a prompt and a schema that was encoded already,
    /// or the error of the encoding.
    pub fn fields_from(prompt: Option<String>, schema: Option<Result<String, serde_json::Error>>) -> (r:
        Result<Vec<(String, String)>, RenamedError>)
        ensures
            match schema {
                Some(Err(e)) => r matches Err(err) && wraps_json_error(err@, e),
                Some(Ok(text)) => r matches Ok(fields) && fields_view(fields@) == extract_fields(
                    prompt,
                    Some(text),
                ),
                None => r matches Ok(fields) && fields_view(fields@) == extract_fields(prompt, None),
            },
    {
        let mut out: Vec<(String, String)> = Vec::new();
        if let Some(p) = prompt {
            out.push((String::from_str("prompt"), p));
        }
        match schema {
            Some(Err(e)) => Err(RenamedError::from_serde(e)),
            Some(Ok(text)) => {
                out.push((String::from_str("schema"), text));
                assert(fields_view(out@) =~= extract_fields(prompt, Some(text)));
                Ok(out)
            },
            None => {
                assert(fields_view(out@) =~= extract_fields(prompt, None));
                Ok(out)
            },
        }
    }

    /// The form fields that carry these options to the service: the prompt
    /// as it is, the schema written as a JSON object. Where the schema
    /// cannot be written, the error says so.
    pub fn form_fields(self) -> (r: Result<Vec<(String, String)>, RenamedError>)
        ensures
            self.schema is None ==> (r matches Ok(fields) && fields_view(fields@) == extract_fields(
                self.prompt,
                None,
            )),
            self.schema is Some ==> match r {
                Ok(fields) => exists|text: String| #[trigger]
                    extract_fields(self.prompt, Some(text)) == fields_view(fields@),
                Err(err) => exists|e: serde_json::Error| #[trigger] wraps_json_error(err@, e),
            },
    {
        let encoded = match &self.schema {
            Some(schema) => Some(encode_json_object(schema)),
            None => None,
        };
        ExtractOptions::fields_from(self.prompt, encoded)
    }
}

// ---------------------------------------------------------------------------
// Users

/// A team.
#[derive(Debug, Clone)]
pub struct Team {
    /// The team's identifier.
    pub id: String,
    /// The team's name.
    pub name: String,
}

/// A user's profile.
#[derive(Debug, Clone)]
pub struct User {
    /// The user's identifier.
    pub id: String,
    /// Email address.
    pub email: String,
    /// Display name.
    pub name: Option<String>,
    /// Credits left.
    pub credits: Option<i32>,
    /// The user's team, where there is one.
    pub team: Option<Team>,
}

} // verus!
