//! Records of the job database.

use vstd::prelude::*;
use crate::text::{
    ascii_lower, concat, copy_str, is_ascii_seq, lowercase, replace, replace_str, str_eq, to_lowercase,
};

verus! {

/// Status of a stored job.
#[derive(Debug, Clone, Copy, PartialEq, Eq, Structural)]
pub enum JobStatus {
    Pending,
    Processing,
    Completed,
    Failed,
}

/// The stored name of a status.
pub open spec fn status_text(s: JobStatus) -> Seq<char> {
    match s {
        JobStatus::Pending => "pending"@,
        JobStatus::Processing => "processing"@,
        JobStatus::Completed => "completed"@,
        JobStatus::Failed => "failed"@,
    }
}

/// The status a text names, in any case.
pub open spec fn status_named(t: Seq<char>) -> Option<JobStatus> {
    let l = lowercase(t);
    if l == "pending"@ {
        Some(JobStatus::Pending)
    } else if l == "processing"@ {
        Some(JobStatus::Processing)
    } else if l == "completed"@ {
        Some(JobStatus::Completed)
    } else if l == "failed"@ {
        Some(JobStatus::Failed)
    } else {
        None
    }
}

impl JobStatus {
    /// The stored name of the status.
    pub fn to_string(&self) -> (r: String)
        ensures
            r@ == status_text(*self),
    {
        match self {
            JobStatus::Pending => copy_str("pending"),
            JobStatus::Processing => copy_str("processing"),
            JobStatus::Completed => copy_str("completed"),
            JobStatus::Failed => copy_str("failed"),
        }
    }

    /// The status a text names (case does not matter), or the error
    /// `Invalid job status: <text>`.
    pub fn parse(s: &str) -> (r: Result<JobStatus, String>)
        ensures
            match r {
                Ok(st) => status_named(s@) == Some(st),
                Err(m) => status_named(s@) is None && m@ == "Invalid job status: "@ + s@,
            },
    {
        let l = to_lowercase(s);
        if str_eq(l.as_str(), "pending") {
            Ok(JobStatus::Pending)
        } else if str_eq(l.as_str(), "processing") {
            Ok(JobStatus::Processing)
        } else if str_eq(l.as_str(), "completed") {
            Ok(JobStatus::Completed)
        } else if str_eq(l.as_str(), "failed") {
            Ok(JobStatus::Failed)
        } else {
            Err(concat("Invalid job status: ", s))
        }
    }
}

impl std::str::FromStr for JobStatus {
    type Err = String;

    fn from_str(s: &str) -> (r: Result<Self, Self::Err>)
        ensures
            match r {
                Ok(st) => status_named(s@) == Some(st),
                Err(m) => status_named(s@) is None && m@ == "Invalid job status: "@ + s@,
            },
    {
        JobStatus::parse(s)
    }
}

/// A status is read back from its stored name.
pub proof fn lemma_status_round_trip(s: JobStatus)
    ensures
        status_named(status_text(s)) == Some(s),
{
    reveal_strlit("pending");
    reveal_strlit("processing");
    reveal_strlit("completed");
    reveal_strlit("failed");
    let t = status_text(s);
    assert(is_ascii_seq(t));
    assert(ascii_lower(t) =~= t);
}

/// The current UTC time as `%Y-%m-%d %H:%M:%S`, through `chrono::Utc::now`.
/// The time is not a function of anything here, so nothing is stated of it.
#[verifier::external_body]
pub(crate) fn utc_now_text() -> (r: String) {
    chrono::Utc::now().format("%Y-%m-%d %H:%M:%S").to_string()
}

/// A fresh random job id, through `uuid::Uuid::new_v4` and its hyphenated
/// text form, which the crate defines to be 36 characters long. The id is
/// random, so nothing else is stated of it.
#[verifier::external_body]
pub(crate) fn new_job_id() -> (r: String)
    ensures
        r@.len() == 36,
{
    uuid::Uuid::new_v4().to_string()
}

/// A stored job.
#[derive(Debug, Clone)]
pub struct ProcessingJob {
    /// Unique id.
    pub id: String,
    /// The movie file.
    pub file_path: String,
    /// The movie number, once known.
    pub number: Option<String>,
    /// Status name.
    pub status: String,
    /// Scraped metadata as JSON.
    pub metadata_json: Option<String>,
    /// Error message of a failed job.
    pub error_message: Option<String>,
    /// Creation time.
    pub created_at: String,
    /// Last update time.
    pub updated_at: String,
    /// Completion time.
    pub completed_at: Option<String>,
}

impl ProcessingJob {
    /// A new pending job with a fresh id, created and updated now.
    pub fn new(file_path: String, number: Option<String>) -> (r: Self)
        ensures
            r.id@.len() == 36,
            r.file_path == file_path,
            r.number == number,
            r.status@ == "pending"@,
            r.metadata_json is None,
            r.error_message is None,
            r.created_at@ == r.updated_at@,
            r.completed_at is None,
    {
        let now = utc_now_text();
        ProcessingJob {
            id: new_job_id(),
            file_path,
            number,
            status: copy_str("pending"),
            metadata_json: None,
            error_message: None,
            created_at: copy_str(now.as_str()),
            updated_at: now,
            completed_at: None,
        }
    }

    /// The status the job's status name gives.
    pub fn status_enum(&self) -> (r: Result<JobStatus, String>)
        ensures
            match r {
                Ok(st) => status_named(self.status@) == Some(st),
                Err(m) => status_named(self.status@) is None && m@ == "Invalid job status: "@
                    + self.status@,
            },
    {
        JobStatus::parse(self.status.as_str())
    }

    /// The job is completed or failed.
    pub fn is_complete(&self) -> (r: bool)
        ensures
            r == (status_named(self.status@) == Some(JobStatus::Completed) || status_named(
                self.status@,
            ) == Some(JobStatus::Failed)),
    {
        match self.status_enum() {
            Ok(JobStatus::Completed) => true,
            Ok(JobStatus::Failed) => true,
            _ => false,
        }
    }

    /// The job is being processed.
    pub fn is_in_progress(&self) -> (r: bool)
        ensures
            r == (status_named(self.status@) == Some(JobStatus::Processing)),
    {
        match self.status_enum() {
            Ok(JobStatus::Processing) => true,
            _ => false,
        }
    }

    /// The job waits to be processed.
    pub fn is_pending(&self) -> (r: bool)
        ensures
            r == (status_named(self.status@) == Some(JobStatus::Pending)),
    {
        match self.status_enum() {
            Ok(JobStatus::Pending) => true,
            _ => false,
        }
    }
}

/// A file that failed.
#[derive(Debug, Clone)]
pub struct FailedFile {
    /// The file.
    pub file_path: String,
    /// Why it failed.
    pub reason: Option<String>,
    /// When it failed.
    pub failed_at: String,
}

impl FailedFile {
    /// A record of a failure that happens now.
    pub fn new(file_path: String, reason: Option<String>) -> (r: Self)
        ensures
            r.file_path == file_path,
            r.reason == reason,
    {
        FailedFile { file_path, reason, failed_at: utc_now_text() }
    }
}

/// Numbers of jobs by status.
#[derive(Debug, Clone, Copy, PartialEq, Eq)]
pub struct JobStats {
    pub total: i64,
    pub pending: i64,
    pub processing: i64,
    pub completed: i64,
    pub failed: i64,
}


/// A folder setting with Windows separators made `/`: doubled backslashes
/// first, then single ones.
pub open spec fn normalized_folder(p: Seq<char>) -> Seq<char> {
    replace(replace(p, "\\\\"@, "/"@), "\\"@, "/"@)
}

/// The folder path of a `config.ini` setting, with `/` as separator.
pub fn normalize_folder(path: &str) -> (r: String)
    ensures
        r@ == normalized_folder(path@),
{
    proof {
        reveal_strlit("\\\\");
        reveal_strlit("\\");
    }
    let once = replace_str(path, "\\\\", "/");
    replace_str(once.as_str(), "\\", "/")
}

/// The media extensions used where `config.ini` names none.
pub fn default_media_type() -> (r: String)
    ensures
        r@ == ".mp4,.avi,.rmvb,.wmv,.mov,.mkv,.flv,.ts,.webm,.iso,.mpg,.m4v"@,
{
    copy_str(".mp4,.avi,.rmvb,.wmv,.mov,.mkv,.flv,.ts,.webm,.iso,.mpg,.m4v")
}

/// The subtitle extensions used where `config.ini` names none.
pub fn default_sub_type() -> (r: String)
    ensures
        r@ == ".smi,.srt,.idx,.sub,.sup,.psb,.ssa,.ass,.usf,.xss,.ssf,.rt,.lrc,.sbv,.vtt,.ttml"@,
{
    copy_str(".smi,.srt,.idx,.sub,.sup,.psb,.ssa,.ass,.usf,.xss,.ssf,.rt,.lrc,.sbv,.vtt,.ttml")
}

} // verus!
