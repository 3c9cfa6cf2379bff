use moviemeta::batch::{batch_stats, dual_id_of, file_outcome, parse_failure, DualId, ProcessingResult};
use moviemeta::processor::ProcessingStats;

/// One file through the batch steps: its number, the metadata lookup, and a
/// workflow that succeeds.
fn run_file(path: &str, lookup: &dyn Fn(&DualId) -> Result<(), String>, seen: &mut Vec<(String, String)>) -> ProcessingResult {
    match dual_id_of(path) {
        Err(e) => parse_failure(path.to_string(), &e),
        Ok(id) => {
            seen.push((id.display.clone(), id.content.clone()));
            let fetch = lookup(&id);
            file_outcome(path.to_string(), id.display.clone(), fetch, Ok(()))
        }
    }
}

fn run_batch(
    files: &[String],
    lookup: &dyn Fn(&DualId) -> Result<(), String>,
) -> (Vec<ProcessingResult>, ProcessingStats, Vec<(String, String)>) {
    let mut seen = Vec::new();
    let results: Vec<ProcessingResult> = files.iter().map(|f| run_file(f, lookup, &mut seen)).collect();
    let stats = batch_stats(&results);
    (results, stats, seen)
}

fn found(_: &DualId) -> Result<(), String> {
    Ok(())
}

#[test]
fn test_batch_processor_error_handling() {
    let files = vec!["/tmp/t/invalid_movie.mp4".to_string()];
    let (results, stats, _) = run_batch(&files, &|_| Err("Metadata not found".to_string()));
    assert_eq!(results.len(), 1);
    assert!(!results[0].success);
    assert_eq!(stats.succeeded, 0);
    assert_eq!(stats.failed, 1);
}

#[test]
fn test_batch_processor_mixed_results() {
    let files = vec![
        "/tmp/t/TEST-001.mp4".to_string(),
        "/tmp/t/invalid_name.mp4".to_string(),
        "/tmp/t/TEST-003.mp4".to_string(),
    ];
    let lookup = |id: &DualId| {
        if id.display == "TEST-003" {
            Err("Simulated fetch error".to_string())
        } else {
            Ok(())
        }
    };
    let (results, stats, _) = run_batch(&files, &lookup);
    assert_eq!(results.len(), 3);
    assert_eq!(stats.succeeded, 1);
    assert_eq!(stats.failed, 2);
    assert_eq!(results.iter().filter(|r| r.success).count(), 1);
    assert_eq!(results.iter().filter(|r| !r.success).count(), 2);
    assert_eq!(results[2].error.as_deref(), Some("Metadata fetch error: Simulated fetch error"));
}

#[test]
fn test_batch_processor_empty_batch() {
    let (results, stats, _) = run_batch(&[], &found);
    assert_eq!(results.len(), 0);
    assert_eq!(stats.succeeded, 0);
    assert_eq!(stats.failed, 0);
    assert_eq!(stats.total_processed, 0);
}

#[test]
fn test_batch_processor_dual_id_format() {
    let files = vec!["/tmp/t/SSIS-123.mp4".to_string(), "/tmp/t/FC2-PPV-1234567.mp4".to_string()];
    let (results, stats, ids) = run_batch(&files, &found);
    assert_eq!(results.len(), 2);
    assert_eq!(stats.succeeded, 2);
    assert_eq!(ids.len(), 2);
    assert!(ids.iter().any(|(display, _)| display == "SSIS-123"));
    assert!(ids.iter().any(|(display, content)| display == "FC2-PPV-1234567" && content.contains("fc2")));
}

#[test]
fn test_batch_processor_number_parsing_errors() {
    let files = vec!["/tmp/t/no_number.mp4".to_string(), "/tmp/t/invalid.mp4".to_string()];
    let (results, stats, _) = run_batch(&files, &found);
    assert_eq!(results.len(), 2);
    assert_eq!(stats.failed, 2);
    assert_eq!(stats.succeeded, 0);
    for result in &results {
        assert!(!result.success);
        assert!(result.error.is_some());
        let error = result.error.as_ref().unwrap();
        assert!(error.contains("parsing") || error.contains("extract"), "Error should mention parsing: {}", error);
    }
}

#[test]
fn test_batch_processor_large_batch() {
    let files: Vec<String> = (0..50).map(|i| format!("/tmp/t/TEST-{:03}.mp4", i + 1)).collect();
    let (results, stats, _) = run_batch(&files, &found);
    assert_eq!(results.len(), 50);
    assert_eq!(stats.total_processed, 50);
    assert_eq!(stats.succeeded, 50);
    assert_eq!(stats.failed, 0);
}
