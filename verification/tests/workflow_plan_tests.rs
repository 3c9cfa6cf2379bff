use moviemeta::processor::ProcessingMode;
use moviemeta::workflow::{workflow_steps, ProcessorConfig, WorkflowStep};

fn config(mode: ProcessingMode) -> ProcessorConfig {
    let mut c = ProcessorConfig::default();
    c.mode = mode;
    c
}

#[test]
fn scraping_runs_the_whole_workflow() {
    let steps = workflow_steps(&config(ProcessingMode::Scraping), false);
    assert_eq!(
        steps,
        vec![
            WorkflowStep::CreateFolder,
            WorkflowStep::WriteNfo,
            WorkflowStep::DownloadPoster,
            WorkflowStep::PlaceMovie,
            WorkflowStep::MoveSubtitles,
        ]
    );
}

#[test]
fn organizing_only_places_files() {
    let steps = workflow_steps(&config(ProcessingMode::Organizing), false);
    assert_eq!(
        steps,
        vec![WorkflowStep::CreateFolder, WorkflowStep::PlaceMovie, WorkflowStep::MoveSubtitles]
    );
}

#[test]
fn analysis_moves_nothing() {
    let steps = workflow_steps(&config(ProcessingMode::Analysis), true);
    assert_eq!(steps, vec![WorkflowStep::WriteNfo, WorkflowStep::DownloadPoster]);
    let mut c = config(ProcessingMode::Analysis);
    c.create_nfo = false;
    c.download_images = false;
    assert!(workflow_steps(&c, false).is_empty());
}

#[test]
fn existing_destination_is_skipped_only_when_asked() {
    let mut c = config(ProcessingMode::Scraping);
    c.skip_existing = true;
    assert_eq!(workflow_steps(&c, true), vec![WorkflowStep::CreateFolder]);
    assert_eq!(workflow_steps(&c, false).len(), 5);
    c.skip_existing = false;
    assert_eq!(workflow_steps(&c, true).len(), 5);
}

#[test]
fn switches_remove_their_steps() {
    let mut c = config(ProcessingMode::Scraping);
    c.create_nfo = false;
    c.move_subtitles = false;
    assert_eq!(
        workflow_steps(&c, false),
        vec![WorkflowStep::CreateFolder, WorkflowStep::DownloadPoster, WorkflowStep::PlaceMovie]
    );
}
