use moviemeta::file_ops::get_video_extension;
use moviemeta::file_ops::{plan_file_operation, subtitle_destination, FileFacts, FilePlan};
use moviemeta::processor::LinkMode;

fn facts(source_exists: bool, same_file: bool, destination_exists: bool, identical: bool) -> FileFacts {
    FileFacts { source_exists, same_file, destination_exists, identical }
}

#[test]
fn missing_source_is_refused_before_anything() {
    let plan = plan_file_operation(LinkMode::Move, "/a/b.mp4", facts(false, true, true, true));
    assert_eq!(
        plan,
        FilePlan::Refuse(
            "Source file does not exist: /a/b.mp4\nWill not proceed with move operation to avoid data loss"
                .to_string()
        )
    );
    let plan = plan_file_operation(LinkMode::HardLink, "/a/b.mp4", facts(false, false, false, false));
    assert_eq!(
        plan,
        FilePlan::Refuse(
            "Source file does not exist: /a/b.mp4\nWill not proceed with link operation to avoid data loss"
                .to_string()
        )
    );
}

#[test]
fn already_moved_file_is_left_alone() {
    for mode in [LinkMode::Move, LinkMode::SoftLink, LinkMode::HardLink] {
        assert_eq!(plan_file_operation(mode, "s", facts(true, true, true, true)), FilePlan::Nothing);
    }
}

#[test]
fn identical_destination_removes_the_source_only_when_moving() {
    assert_eq!(
        plan_file_operation(LinkMode::Move, "s", facts(true, false, true, true)),
        FilePlan::RemoveSource
    );
    assert_eq!(
        plan_file_operation(LinkMode::SoftLink, "s", facts(true, false, true, true)),
        FilePlan::ReplaceDestination
    );
    assert_eq!(
        plan_file_operation(LinkMode::Move, "s", facts(true, false, true, false)),
        FilePlan::ReplaceDestination
    );
    assert_eq!(
        plan_file_operation(LinkMode::HardLink, "s", facts(true, false, false, false)),
        FilePlan::Proceed
    );
}

#[test]
fn subtitles_follow_the_movie() {
    assert_eq!(
        subtitle_destination("ABC-123", "/in/ABC-123.zh.SRT", "/out/ABC-123", "ABC-123-C"),
        Some("/out/ABC-123/ABC-123-C.SRT".to_string())
    );
    assert_eq!(subtitle_destination("ABC-123", "/in/ABC-123.nfo", "/out", "X"), None);
    assert_eq!(subtitle_destination("ABC-123", "/in/XYZ-999.srt", "/out", "X"), None);
    assert_eq!(
        subtitle_destination("ABC-123", "/in/ABC-123.ass", "/out/", "X"),
        Some("/out/X.ass".to_string())
    );
}

#[test]
fn extensions_split_at_the_last_dot() {
    assert_eq!(get_video_extension("/a/movie.part1.mkv"), ".mkv");
    assert_eq!(get_video_extension("/a/.hidden"), ".mp4");
    assert_eq!(get_video_extension("/a/movie."), ".");
}
