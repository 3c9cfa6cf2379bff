use moviemeta::api_models::{
    default_concurrent, default_location_rule, default_media_types, default_mode,
    default_naming_rule, ApiError, ScanResponse,
};
use moviemeta::storage::{FailedFile, JobStatus, ProcessingJob};

#[test]
fn test_error_types() {
    let error = ApiError::NotFound("test".to_string());
    assert!(error.to_string().contains("Not found"));

    let error = ApiError::BadRequest("bad input".to_string());
    assert!(error.to_string().contains("Bad request"));

    let error = ApiError::Internal("server error".to_string());
    assert!(error.to_string().contains("Internal error"));
}

#[test]
fn test_request_defaults() {
    assert_eq!(default_mode(), 1);
    assert_eq!(default_location_rule(), "number");
    assert_eq!(default_naming_rule(), "number");
    assert_eq!(default_concurrent(), 4);
    assert_eq!(default_media_types().len(), 12);
    assert_eq!(default_media_types()[0], "mp4");
    let r = ScanResponse::of_files(vec!["a".to_string(), "b".to_string()]);
    assert_eq!(r.total, 2);
}

#[test]
fn test_job_status_display() {
    assert_eq!(JobStatus::Pending.to_string(), "pending");
    assert_eq!(JobStatus::Processing.to_string(), "processing");
    assert_eq!(JobStatus::Completed.to_string(), "completed");
    assert_eq!(JobStatus::Failed.to_string(), "failed");
}

#[test]
fn test_job_status_from_str() {
    assert_eq!("pending".parse::<JobStatus>().unwrap(), JobStatus::Pending);
    assert_eq!("processing".parse::<JobStatus>().unwrap(), JobStatus::Processing);
    assert_eq!("completed".parse::<JobStatus>().unwrap(), JobStatus::Completed);
    assert_eq!("failed".parse::<JobStatus>().unwrap(), JobStatus::Failed);
    assert!("invalid".parse::<JobStatus>().is_err());
    assert_eq!("PENDING".parse::<JobStatus>().unwrap(), JobStatus::Pending);
    assert_eq!("x".parse::<JobStatus>().unwrap_err(), "Invalid job status: x");
}

#[test]
fn test_job_status_round_trip() {
    for s in [JobStatus::Pending, JobStatus::Processing, JobStatus::Completed, JobStatus::Failed] {
        assert_eq!(s.to_string().parse::<JobStatus>().unwrap(), s);
    }
}

#[test]
fn test_processing_job_new() {
    let job = ProcessingJob::new("/path/to/movie.mp4".to_string(), Some("TEST-001".to_string()));
    assert!(!job.id.is_empty());
    assert_eq!(job.id.len(), 36);
    assert_eq!(job.file_path, "/path/to/movie.mp4");
    assert_eq!(job.number, Some("TEST-001".to_string()));
    assert_eq!(job.status, "pending");
    assert!(job.metadata_json.is_none());
    assert!(job.error_message.is_none());
    assert!(job.completed_at.is_none());
    assert!(job.is_pending());
    assert!(!job.is_complete());
    assert!(!job.is_in_progress());
}

#[test]
fn test_failed_file_new() {
    let failed = FailedFile::new(
        "/path/to/failed.mp4".to_string(),
        Some("No metadata found".to_string()),
    );
    assert_eq!(failed.file_path, "/path/to/failed.mp4");
    assert_eq!(failed.reason, Some("No metadata found".to_string()));
    assert!(!failed.failed_at.is_empty());
}
