//! Requests, responses and progress messages of the HTTP API, and its errors.

use vstd::prelude::*;
use crate::text::{concat, copy_str};

verus! {

/// Request to create a processing job.
#[derive(Debug, Clone)]
pub struct CreateJobRequest {
    /// Files to process.
    pub files: Vec<String>,
    /// Processing mode (1 scraping, 2 organizing, 3 analysis).
    pub mode: u8,
    /// Link mode (0 move, 1 soft link, 2 hard link).
    pub link_mode: u8,
    /// Output folder.
    pub output_folder: Option<String>,
    /// Folder template.
    pub location_rule: String,
    /// File name template.
    pub naming_rule: String,
    /// Maximum concurrent tasks.
    pub concurrent: usize,
}

/// The mode of a request that gives none: scraping.
pub fn default_mode() -> (r: u8)
    ensures
        r == 1,
{
    1
}

/// The folder template of a request that gives none: the number.
pub fn default_location_rule() -> (r: String)
    ensures
        r@ == "number"@,
{
    copy_str("number")
}

/// The file name template of a request that gives none: the number.
pub fn default_naming_rule() -> (r: String)
    ensures
        r@ == "number"@,
{
    copy_str("number")
}

/// The concurrency of a request that gives none.
pub fn default_concurrent() -> (r: usize)
    ensures
        r == 4,
{
    4
}

/// The media types of a scan request that gives none.
pub open spec fn default_scan_media_types() -> Seq<Seq<char>> {
    seq![
        "mp4"@, "avi"@, "mkv"@, "wmv"@, "mov"@, "flv"@, "rmvb"@, "ts"@, "webm"@, "iso"@, "mpg"@,
        "m4v"@,
    ]
}

/// The media types of a scan request that gives none.
pub fn default_media_types() -> (r: Vec<String>)
    ensures
        crate::text::views_of(r@) == default_scan_media_types(),
{
    let v: Vec<String> = vec![
        copy_str("mp4"),
        copy_str("avi"),
        copy_str("mkv"),
        copy_str("wmv"),
        copy_str("mov"),
        copy_str("flv"),
        copy_str("rmvb"),
        copy_str("ts"),
        copy_str("webm"),
        copy_str("iso"),
        copy_str("mpg"),
        copy_str("m4v"),
    ];
    assert(crate::text::views_of(v@) =~= default_scan_media_types());
    v
}

/// Request to scan a folder.
#[derive(Debug, Clone)]
pub struct ScanRequest {
    /// Folder to scan.
    pub path: String,
    /// Media file extensions to include.
    pub media_types: Vec<String>,
}

/// Scan results.
#[derive(Debug, Clone)]
pub struct ScanResponse {
    /// Number of files found.
    pub total: usize,
    /// The files found.
    pub files: Vec<String>,
}

impl ScanResponse {
    /// The response listing these files.
    pub fn of_files(files: Vec<String>) -> (r: Self)
        ensures
            r.files == files,
            r.total == files@.len(),
    {
        let total = files.len();
        ScanResponse { total, files }
    }
}

/// Status of a job, as the API reports it.
#[derive(Debug, Clone, Copy, PartialEq, Eq, Structural)]
pub enum JobStatus {
    Pending,
    Processing,
    Completed,
    Failed,
    Cancelled,
}

/// A job as the API reports it.
#[derive(Debug, Clone)]
pub struct JobResponse {
    /// Job id.
    pub id: String,
    /// Status.
    pub status: JobStatus,
    /// Files in the job.
    pub total_files: usize,
    /// Files processed so far.
    pub processed_files: usize,
    /// Files that succeeded.
    pub succeeded: usize,
    /// Files that failed.
    pub failed: usize,
    /// Error message of a failed job.
    pub error: Option<String>,
    /// Creation time.
    pub created_at: String,
    /// Completion time.
    pub completed_at: Option<String>,
}

/// A list of jobs.
#[derive(Debug, Clone)]
pub struct JobListResponse {
    /// The jobs.
    pub jobs: Vec<JobResponse>,
    /// Their number.
    pub total: usize,
}

/// Totals over all jobs.
#[derive(Debug, Clone, Copy, PartialEq, Eq)]
pub struct StatsResponse {
    pub total_jobs: usize,
    pub succeeded_jobs: usize,
    pub failed_jobs: usize,
    pub total_files: usize,
    pub succeeded_files: usize,
    pub failed_files: usize,
}

/// Default settings as the API reports them.
#[derive(Debug, Clone)]
pub struct ConfigResponse {
    pub default_mode: u8,
    pub default_link_mode: u8,
    pub default_output_folder: String,
    pub default_location_rule: String,
    pub default_naming_rule: String,
    pub default_concurrent: usize,
}

/// Progress messages sent over the WebSocket.
#[derive(Debug, Clone)]
pub enum ProgressMessage {
    /// A job started.
    JobStarted { job_id: String, total_files: usize },
    /// A file started.
    FileStarted { job_id: String, file_path: String, current: usize, total: usize },
    /// A file finished.
    FileCompleted {
        job_id: String,
        file_path: String,
        success: bool,
        error: Option<String>,
        current: usize,
        total: usize,
    },
    /// A job finished.
    JobCompleted { job_id: String, total: usize, succeeded: usize, failed: usize },
    /// A job failed.
    JobFailed { job_id: String, error: String },
}

/// Query of the job list.
#[derive(Debug, Clone)]
pub struct ListJobsQuery {
    /// Only jobs of this status.
    pub status: Option<String>,
    /// At most this many jobs.
    pub limit: Option<usize>,
    /// Skip this many jobs.
    pub offset: Option<usize>,
}

/// Errors of the API.
#[derive(Debug, Clone)]
pub enum ApiError {
    NotFound(String),
    BadRequest(String),
    Internal(String),
    NotImplemented(String),
}

/// The message of an API error: its kind, then its detail.
pub open spec fn api_error_text(e: ApiError) -> Seq<char> {
    match e {
        ApiError::NotFound(m) => "Not found: "@ + m@,
        ApiError::BadRequest(m) => "Bad request: "@ + m@,
        ApiError::Internal(m) => "Internal error: "@ + m@,
        ApiError::NotImplemented(m) => "Not implemented: "@ + m@,
    }
}

impl ApiError {
    /// The error's message.
    pub fn to_string(&self) -> (r: String)
        ensures
            r@ == api_error_text(*self),
    {
        match self {
            ApiError::NotFound(m) => concat("Not found: ", m.as_str()),
            ApiError::BadRequest(m) => concat("Bad request: ", m.as_str()),
            ApiError::Internal(m) => concat("Internal error: ", m.as_str()),
            ApiError::NotImplemented(m) => concat("Not implemented: ", m.as_str()),
        }
    }
}

} // verus!
