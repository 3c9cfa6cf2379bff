//! The processing pipeline's own types: movie metadata as the pipeline keeps
//! it, processing jobs, their status, and the image cut mode.

use vstd::prelude::*;
use crate::storage::{new_job_id, utc_now_text};
use crate::text::{concat, decimal, decimal_str, zero_pad, zero_pad_str};

verus! {

/// Image cropping mode.
#[derive(Debug, Clone, Copy, PartialEq, Eq, Structural)]
pub enum ImageCutMode {
    /// Copy the cover as it is.
    Copy,
    /// Smart crop using face detection.
    Smart,
    /// Download the small cover.
    Small,
}

impl Default for ImageCutMode {
    fn default() -> (r: Self)
        ensures
            r == ImageCutMode::Copy,
    {
        ImageCutMode::Copy
    }
}

/// The mode a number selects: 0 copy, 1 smart, 3 small, anything else smart.
pub open spec fn cut_mode_of(value: i32) -> ImageCutMode {
    if value == 0 {
        ImageCutMode::Copy
    } else if value == 3 {
        ImageCutMode::Small
    } else {
        ImageCutMode::Smart
    }
}

/// The number of a mode.
pub open spec fn cut_mode_number(mode: ImageCutMode) -> i32 {
    match mode {
        ImageCutMode::Copy => 0,
        ImageCutMode::Smart => 1,
        ImageCutMode::Small => 3,
    }
}

impl vstd::std_specs::convert::FromSpecImpl<i32> for ImageCutMode {
    open spec fn obeys_from_spec() -> bool {
        true
    }

    open spec fn from_spec(v: i32) -> ImageCutMode {
        cut_mode_of(v)
    }
}

impl From<i32> for ImageCutMode {
    fn from(value: i32) -> (r: Self) {
        if value == 0 {
            ImageCutMode::Copy
        } else if value == 3 {
            ImageCutMode::Small
        } else {
            ImageCutMode::Smart
        }
    }
}

impl vstd::std_specs::convert::FromSpecImpl<ImageCutMode> for i32 {
    open spec fn obeys_from_spec() -> bool {
        true
    }

    open spec fn from_spec(v: ImageCutMode) -> i32 {
        cut_mode_number(v)
    }
}

impl From<ImageCutMode> for i32 {
    fn from(mode: ImageCutMode) -> (r: i32) {
        match mode {
            ImageCutMode::Copy => 0,
            ImageCutMode::Smart => 1,
            ImageCutMode::Small => 3,
        }
    }
}

/// A mode survives the round trip through its number.
pub proof fn lemma_cut_mode_round_trip(mode: ImageCutMode)
    ensures
        cut_mode_of(cut_mode_number(mode)) == mode,
{
}

/// Status of a processing job.
#[derive(Debug, Clone, Copy, PartialEq, Eq, Structural)]
pub enum JobStatus {
    /// Queued, waiting to be processed.
    Pending,
    /// Being processed.
    Processing,
    /// Completed successfully.
    Completed,
    /// Failed with an error.
    Failed,
}

/// The transitions a job may take: pending to processing, processing to
/// completed or failed, and failed back to pending (a retry).
pub open spec fn transition_allowed(from: JobStatus, to: JobStatus) -> bool {
    ||| from == JobStatus::Pending && to == JobStatus::Processing
    ||| from == JobStatus::Processing && to == JobStatus::Completed
    ||| from == JobStatus::Processing && to == JobStatus::Failed
    ||| from == JobStatus::Failed && to == JobStatus::Pending
}

/// The lowercase name of a status.
pub open spec fn status_name(s: JobStatus) -> Seq<char> {
    match s {
        JobStatus::Pending => "pending"@,
        JobStatus::Processing => "processing"@,
        JobStatus::Completed => "completed"@,
        JobStatus::Failed => "failed"@,
    }
}

impl JobStatus {
    /// Whether a job in this status may move to `next`.
    pub fn can_transition_to(&self, next: JobStatus) -> (r: bool)
        ensures
            r == transition_allowed(*self, next),
    {
        match (*self, next) {
            (JobStatus::Pending, JobStatus::Processing) => true,
            (JobStatus::Processing, JobStatus::Completed) => true,
            (JobStatus::Processing, JobStatus::Failed) => true,
            (JobStatus::Failed, JobStatus::Pending) => true,
            _ => false,
        }
    }

    /// The lowercase name of the status.
    pub fn as_str(&self) -> (r: &'static str)
        ensures
            r@ == status_name(*self),
    {
        match self {
            JobStatus::Pending => "pending",
            JobStatus::Processing => "processing",
            JobStatus::Completed => "completed",
            JobStatus::Failed => "failed",
        }
    }

    /// The text form of the status: its lowercase name.
    pub fn to_string(&self) -> (r: String)
        ensures
            r@ == status_name(*self),
    {
        crate::text::copy_str(self.as_str())
    }
}

/// A completed job is final: no transition leaves it.
pub proof fn lemma_completed_is_final(next: JobStatus)
    ensures
        !transition_allowed(JobStatus::Completed, next),
{
}

/// No transition keeps a job in the same status.
pub proof fn lemma_no_self_transition(s: JobStatus)
    ensures
        !transition_allowed(s, s),
{
}

/// The only way back to pending is the retry of a failed job.
pub proof fn lemma_pending_only_by_retry(from: JobStatus)
    ensures
        transition_allowed(from, JobStatus::Pending) <==> from == JobStatus::Failed,
{
}

/// A job that starts pending and takes allowed transitions reaches completed
/// only through processing.
pub proof fn lemma_completed_after_processing(from: JobStatus)
    ensures
        transition_allowed(from, JobStatus::Completed) ==> from == JobStatus::Processing,
{
}

/// Distinct statuses have distinct names.
pub proof fn lemma_status_names_distinct(a: JobStatus, b: JobStatus)
    ensures
        status_name(a) == status_name(b) ==> a == b,
{
    reveal_strlit("pending");
    reveal_strlit("processing");
    reveal_strlit("completed");
    reveal_strlit("failed");
    if a != b {
        assert(status_name(a).len() != status_name(b).len() || status_name(a)[0] != status_name(b)[0]
            || status_name(a)[1] != status_name(b)[1]);
    }
}

/// A calendar date.
#[derive(Debug, Clone, Copy, PartialEq, Eq)]
pub struct Date {
    pub year: i32,
    pub month: u32,
    pub day: u32,
}

/// A year as a date format's `%Y` writes it: four digits, zero-padded, for
/// years 0 to 9999; with its sign before it otherwise (`+10000`, `-0001`).
pub open spec fn year_text(y: i32) -> Seq<char> {
    if 0 <= y <= 9999 {
        zero_pad(decimal(y as nat), 4)
    } else if y > 9999 {
        "+"@ + decimal(y as nat)
    } else {
        "-"@ + zero_pad(decimal((-y) as nat), 4)
    }
}

fn year_text_exec(y: i32) -> (r: String)
    ensures
        r@ == year_text(y),
{
    if 0 <= y && y <= 9999 {
        let d = decimal_str(y as u64);
        zero_pad_str(d.as_str(), 4)
    } else if y > 9999 {
        let d = decimal_str(y as u64);
        concat("+", d.as_str())
    } else {
        let m: u64 = (0i64 - y as i64) as u64;
        let d = decimal_str(m);
        let p = zero_pad_str(d.as_str(), 4);
        concat("-", p.as_str())
    }
}

/// Movie metadata as the pipeline keeps it.
///
/// The user rating is kept as text, as the source wrote it.
#[derive(Debug, Clone)]
pub struct MovieMetadata {
    pub number: String,
    pub title: String,
    pub studio: Option<String>,
    pub release: Option<Date>,
    pub year: Option<String>,
    pub outline: Option<String>,
    pub runtime: Option<u32>,
    pub director: Option<String>,
    pub actor: Vec<String>,
    /// Actor name and photo URL, one pair per name.
    pub actor_photo: Vec<(String, String)>,
    pub cover: Option<String>,
    pub cover_small: Option<String>,
    pub extrafanart: Vec<String>,
    pub trailer: Option<String>,
    pub tag: Vec<String>,
    pub label: Option<String>,
    pub series: Option<String>,
    pub userrating: Option<String>,
    pub uservotes: Option<u32>,
    pub uncensored: bool,
    pub website: Option<String>,
    pub source: String,
    pub imagecut: ImageCutMode,
}

/// The year of a movie: the one it records, else that of its release date.
pub open spec fn year_of(year: Option<String>, release: Option<Date>) -> Option<Seq<char>> {
    match year {
        Some(y) => Some(y@),
        None => match release {
            Some(d) => Some(year_text(d.year)),
            None => None,
        },
    }
}

impl MovieMetadata {
    /// The year: the recorded one, else the release date's.
    pub fn get_year(&self) -> (r: Option<String>)
        ensures
            match r {
                Some(y) => year_of(self.year, self.release) == Some(y@),
                None => year_of(self.year, self.release) is None,
            },
    {
        match &self.year {
            Some(y) => Some(crate::text::copy_str(y.as_str())),
            None => match self.release {
                Some(d) => Some(year_text_exec(d.year)),
                None => None,
            },
        }
    }
}

/// A movie file going through the pipeline.
///
/// Times are the UTC time as `%Y-%m-%d %H:%M:%S`.
#[derive(Debug, Clone)]
pub struct ProcessingJob {
    /// Random id, in the hyphenated form of a UUID.
    pub id: String,
    pub file_path: String,
    pub number: Option<String>,
    pub status: JobStatus,
    pub metadata: Option<MovieMetadata>,
    pub error: Option<String>,
    pub created_at: String,
    pub updated_at: String,
    pub completed_at: Option<String>,
}

/// Whether a status ends the job's processing.
pub open spec fn is_final(s: JobStatus) -> bool {
    s == JobStatus::Completed || s == JobStatus::Failed
}

impl ProcessingJob {
    /// A new pending job for a file.
    pub fn new(file_path: String) -> (r: Self)
        ensures
            r.id@.len() == 36,
            r.file_path == file_path,
            r.number is None,
            r.status == JobStatus::Pending,
            r.metadata is None,
            r.error is None,
            r.created_at@ == r.updated_at@,
            r.completed_at is None,
    {
        let now = utc_now_text();
        ProcessingJob {
            id: new_job_id(),
            file_path,
            number: None,
            status: JobStatus::Pending,
            metadata: None,
            error: None,
            created_at: crate::text::copy_str(now.as_str()),
            updated_at: now,
            completed_at: None,
        }
    }

    /// Sets the status and the update time; a completed or failed job also
    /// gets its completion time.
    pub fn update_status(&mut self, status: JobStatus)
        ensures
            final(self).status == status,
            final(self).id == old(self).id,
            final(self).file_path == old(self).file_path,
            final(self).number == old(self).number,
            final(self).metadata == old(self).metadata,
            final(self).error == old(self).error,
            final(self).created_at == old(self).created_at,
            is_final(status) ==> final(self).completed_at is Some,
            !is_final(status) ==> final(self).completed_at == old(self).completed_at,
    {
        self.status = status;
        self.updated_at = utc_now_text();
        if status == JobStatus::Completed || status == JobStatus::Failed {
            self.completed_at = Some(utc_now_text());
        }
    }

    /// Records the metadata and the update time.
    pub fn set_metadata(&mut self, metadata: MovieMetadata)
        ensures
            final(self).metadata == Some(metadata),
            final(self).status == old(self).status,
            final(self).id == old(self).id,
            final(self).file_path == old(self).file_path,
            final(self).number == old(self).number,
            final(self).error == old(self).error,
            final(self).created_at == old(self).created_at,
            final(self).completed_at == old(self).completed_at,
    {
        self.metadata = Some(metadata);
        self.updated_at = utc_now_text();
    }

    /// Records the error and the update time.
    pub fn set_error(&mut self, error: String)
        ensures
            final(self).error == Some(error),
            final(self).status == old(self).status,
            final(self).id == old(self).id,
            final(self).file_path == old(self).file_path,
            final(self).number == old(self).number,
            final(self).metadata == old(self).metadata,
            final(self).created_at == old(self).created_at,
            final(self).completed_at == old(self).completed_at,
    {
        self.error = Some(error);
        self.updated_at = utc_now_text();
    }
}

} // verus!
