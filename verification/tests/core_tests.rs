use moviemeta::batch::{batch_stats, dual_id_of, file_outcome, parse_failure, ProcessingResult};
use moviemeta::file_metadata::FileSnapshot;
use moviemeta::file_ops::{get_video_extension, sanitize_filename};
use moviemeta::logging::LogConfig;
use moviemeta::nfo::{generate_nfo, xml_escape, NfoMetadata};
use moviemeta::number_parser::{get_number, NumberError};
use moviemeta::processor::{FieldValue, LinkMode, ProcessingMode, TemplateFields};
use moviemeta::scanner::{
    normalize_media_types, parse_failed_list, EntryVerdict, ScanEntry, ScanStats, Scanner,
    ScannerConfig,
};
use moviemeta::types::{ImageCutMode, JobStatus};
use moviemeta::workflow::{
    cookie_in_config, workflow_steps, ProcessingContext, ProcessorConfig, WorkflowStep,
};

fn snapshot(path: &str, size_bytes: u64, exists: bool) -> FileSnapshot {
    FileSnapshot {
        path: path.to_string(),
        size_bytes,
        modified: if exists { "2026-01-01 12:00:00".to_string() } else { "unknown".to_string() },
        exists,
    }
}

#[test]
fn test_format_size_bytes() {
    let snapshot = FileSnapshot {
        path: "test.txt".to_string(),
        size_bytes: 512,
        modified: "2026-01-01 12:00:00".to_string(),
        exists: true,
    };
    assert_eq!(snapshot.format_size(), "512 B");
}

#[test]
fn test_format_size_kilobytes() {
    let snapshot = FileSnapshot {
        path: "test.txt".to_string(),
        size_bytes: 1024 * 10,
        modified: "2026-01-01 12:00:00".to_string(),
        exists: true,
    };
    assert_eq!(snapshot.format_size(), "10.00 KB");
}

#[test]
fn test_format_size_megabytes() {
    let snapshot = FileSnapshot {
        path: "test.txt".to_string(),
        size_bytes: 1024 * 1024 * 5,
        modified: "2026-01-01 12:00:00".to_string(),
        exists: true,
    };
    let formatted = snapshot.format();
    assert!(formatted.contains("5.00 MB"));
}

#[test]
fn test_format_size_gigabytes() {
    let snapshot = FileSnapshot {
        path: "movie.mp4".to_string(),
        size_bytes: 1024 * 1024 * 1024 * 2,
        modified: "2026-01-01 12:00:00".to_string(),
        exists: true,
    };
    assert_eq!(snapshot.format_size(), "2.00 GB");
}

#[test]
fn test_format_existing_file() {
    let snapshot = FileSnapshot {
        path: "/path/to/test.mp4".to_string(),
        size_bytes: 1024 * 1024 * 100,
        modified: "2026-01-01 12:00:00".to_string(),
        exists: true,
    };
    let formatted = snapshot.format();
    assert!(formatted.contains("/path/to/test.mp4"));
    assert!(formatted.contains("100.00 MB"));
    assert!(formatted.contains("2026-01-01 12:00:00"));
}

#[test]
fn test_format_nonexistent_file() {
    let snapshot = FileSnapshot {
        path: "/nonexistent.mp4".to_string(),
        size_bytes: 0,
        modified: "unknown".to_string(),
        exists: false,
    };
    let formatted = snapshot.format();
    assert_eq!(formatted, "/nonexistent.mp4 (not found)");
}

/// Sizes written with two decimals agree with floating-point formatting,
/// ties and large values included.
#[test]
fn test_format_size_matches_float_formatting() {
    let sizes: Vec<u64> = vec![
        0,
        1,
        1023,
        1024,
        1025,
        1536,
        1029,
        1034,
        10 * 1024 + 5,
        1024 * 1024 - 1,
        1024 * 1024,
        3 * 1024 * 1024 + 5243,
        1024 * 1024 * 1024 - 1,
        1024 * 1024 * 1024 + 5 * 1024 * 1024,
        123_456_789_012,
        (1u64 << 53) + 1,
        u64::MAX - 1,
        u64::MAX,
    ];
    for n in sizes {
        let size = n as f64;
        let expected = if size < 1024.0 {
            format!("{} B", size)
        } else if size < 1024.0 * 1024.0 {
            format!("{:.2} KB", size / 1024.0)
        } else if size < 1024.0 * 1024.0 * 1024.0 {
            format!("{:.2} MB", size / (1024.0 * 1024.0))
        } else {
            format!("{:.2} GB", size / (1024.0 * 1024.0 * 1024.0))
        };
        assert_eq!(snapshot("f", n, true).format_size(), expected, "size {}", n);
    }
}

#[test]
fn test_format_line() {
    let s = snapshot("/m/a.mp4", 2048, true);
    assert_eq!(s.format(), "/m/a.mp4 (size: 2.00 KB, modified: 2026-01-01 12:00:00)");
}

#[test]
fn test_get_video_extension() {
    assert_eq!(get_video_extension("movie.mp4"), ".mp4");
    assert_eq!(get_video_extension("movie.mkv"), ".mkv");
    assert_eq!(get_video_extension("movie"), ".mp4");
}

#[test]
fn test_sanitize_filename() {
    assert_eq!(sanitize_filename("Test Movie"), "Test Movie");
    assert_eq!(sanitize_filename("Test: Movie?"), "Test_ Movie_");
    assert_eq!(sanitize_filename("Test<>Movie"), "Test__Movie");
    assert_eq!(sanitize_filename("  Test Movie  "), "Test Movie");
    assert_eq!(sanitize_filename("Test Movie..."), "Test Movie");

    let long_name = "a".repeat(250);
    let sanitized = sanitize_filename(&long_name);
    assert!(sanitized.len() <= 200);

    let japanese_name = "日本語のタイトル".repeat(30);
    let sanitized = sanitize_filename(&japanese_name);
    assert!(sanitized.chars().count() <= 200);
    assert!(!sanitized.is_empty());
}

#[test]
fn test_sanitize_filename_edges() {
    assert_eq!(sanitize_filename("a/b\\c|d*e\"f"), "a_b_c_d_e_f");
    assert_eq!(sanitize_filename("name. ."), "name. ");
    assert_eq!(sanitize_filename(""), "");
    assert_eq!(sanitize_filename("x".repeat(200).as_str()).len(), 200);
}

#[test]
fn test_default_config() {
    let config = LogConfig::defaults_in("/opt/mdc".to_string());
    assert_eq!(config.level, "info");
    assert_eq!(config.file_prefix, "mdc");
    assert!(config.console);
}

#[test]
fn test_log_presets() {
    let cli = LogConfig::for_cli(true, None, "/exe".to_string());
    assert_eq!(cli.level, "debug");
    assert_eq!(cli.log_dir, "/exe");
    assert_eq!(cli.file_prefix, "mdc");
    let server = LogConfig::for_server(false, Some("/var/log".to_string()), "/exe".to_string());
    assert_eq!(server.level, "info");
    assert_eq!(server.log_dir, "/var/log");
    assert_eq!(server.file_prefix, "mdc-server");
}

#[test]
fn test_xml_escape() {
    assert_eq!(xml_escape("Test & Movie"), "Test &amp; Movie");
    assert_eq!(xml_escape("Test < Movie"), "Test &lt; Movie");
    assert_eq!(xml_escape("Test > Movie"), "Test &gt; Movie");
    assert_eq!(xml_escape("Test \"Movie\""), "Test &quot;Movie&quot;");
    assert_eq!(xml_escape("Test's Movie"), "Test&apos;s Movie");
}

fn empty_nfo() -> NfoMetadata {
    NfoMetadata {
        title: None,
        userrating: None,
        uservotes: None,
        outline: None,
        runtime: None,
        release: None,
        year: None,
        director: None,
        studio: None,
        label: None,
        series: None,
        tag: Vec::new(),
        actor: Vec::new(),
        actor_photo: Vec::new(),
        cover: None,
        trailer: None,
        website: None,
        source: None,
    }
}

#[test]
fn test_generate_nfo_basic() {
    let mut m = empty_nfo();
    m.title = Some("Test Movie".to_string());
    m.year = Some("2024".to_string());
    m.studio = Some("Test Studio".to_string());
    m.outline = Some("A test movie description".to_string());
    let nfo = generate_nfo(&m, "TEST-001");
    assert!(nfo.contains("<title>Test Movie</title>"));
    assert!(nfo.contains("<year>2024</year>"));
    assert!(nfo.contains("<studio>Test Studio</studio>"));
    assert!(nfo.contains("<plot>A test movie description</plot>"));
    assert!(nfo.contains("<num>TEST-001</num>"));
}

#[test]
fn test_generate_nfo_with_actors() {
    let mut m = empty_nfo();
    m.title = Some("Test Movie".to_string());
    m.actor = vec![Some("Actor One".to_string()), Some("Actor Two".to_string())];
    m.actor_photo = vec![("Actor One".to_string(), "http://example.com/actor1.jpg".to_string())];
    let nfo = generate_nfo(&m, "TEST-001");
    assert!(nfo.contains("<name>Actor One</name>"));
    assert!(nfo.contains("<name>Actor Two</name>"));
    assert!(nfo.contains("http://example.com/actor1.jpg"));
    assert!(nfo.contains(
        "  <actor>\n    <name>Actor One</name>\n    <thumb>http://example.com/actor1.jpg</thumb>\n  </actor>\n"
    ));
    assert!(nfo.contains("  <actor>\n    <name>Actor Two</name>\n  </actor>\n"));
}

#[test]
fn test_generate_nfo_with_tags() {
    let mut m = empty_nfo();
    m.title = Some("Test Movie".to_string());
    m.tag = vec![
        Some("Action".to_string()),
        Some("Drama".to_string()),
        Some("Thriller".to_string()),
        Some(String::new()),
        None,
    ];
    let nfo = generate_nfo(&m, "TEST-001");
    assert!(nfo.contains("<tag>Action</tag>"));
    assert!(nfo.contains("<genre>Action</genre>"));
    assert!(nfo.contains("<tag>Drama</tag>"));
    assert!(nfo.contains("<tag>Thriller</tag>"));
    assert!(!nfo.contains("<tag></tag>"));
}

#[test]
fn test_generate_nfo_complete() {
    let mut m = empty_nfo();
    m.title = Some("Complete Test Movie".to_string());
    m.year = Some("2024".to_string());
    m.release = Some("2024-03-15".to_string());
    m.studio = Some("Test Studio".to_string());
    m.director = Some("Test Director".to_string());
    m.label = Some("Test Label".to_string());
    m.series = Some("Test Series".to_string());
    m.outline = Some("A complete test movie".to_string());
    m.runtime = Some("120".to_string());
    m.userrating = Some(format!("{:.1}", 8.5f64));
    m.uservotes = Some(1000);
    m.actor = vec![Some("Actor One".to_string())];
    m.tag = vec![Some("Action".to_string())];
    m.cover = Some("http://example.com/cover.jpg".to_string());
    m.trailer = Some("http://example.com/trailer.mp4".to_string());
    m.website = Some("http://example.com/movie".to_string());
    m.source = Some("test_source".to_string());
    let nfo = generate_nfo(&m, "TEST-001");
    assert!(nfo.contains("<title>Complete Test Movie</title>"));
    assert!(nfo.contains("<runtime>120</runtime>"));
    assert!(nfo.contains("<rating>8.5</rating>"));
    assert!(nfo.contains("<votes>1000</votes>"));
    assert!(nfo.contains("<director>Test Director</director>"));
    assert!(nfo.contains("<label>Test Label</label>"));
    assert!(nfo.contains("<set>Test Series</set>"));
    assert!(nfo.contains("<releasedate>2024-03-15</releasedate>"));
    assert!(nfo.contains("<trailer>http://example.com/trailer.mp4</trailer>"));
    assert!(nfo.contains("<website>http://example.com/movie</website>"));
    assert!(nfo.contains("  <fanart>\n    <thumb>http://example.com/cover.jpg</thumb>\n  </fanart>\n"));
}

#[test]
fn test_generate_nfo_exact_minimal() {
    let mut m = empty_nfo();
    m.runtime = Some("abc".to_string());
    m.director = Some(String::new());
    let nfo = generate_nfo(&m, "A&B");
    assert_eq!(
        nfo,
        "<?xml version=\"1.0\" encoding=\"UTF-8\" standalone=\"yes\"?>\n<movie>\n  <sorttitle>A&amp;B</sorttitle>\n  <num>A&amp;B</num>\n  <id>A&amp;B</id>\n</movie>\n"
    );
}

#[test]
fn test_generate_nfo_runtime_bounds() {
    let mut m = empty_nfo();
    m.runtime = Some("+90".to_string());
    assert!(generate_nfo(&m, "X").contains("<runtime>90</runtime>"));
    m.runtime = Some("4294967296".to_string());
    assert!(!generate_nfo(&m, "X").contains("<runtime>"));
    m.runtime = Some("4294967295".to_string());
    assert!(generate_nfo(&m, "X").contains("<runtime>4294967295</runtime>"));
}

#[test]
fn test_job_status_transitions() {
    assert!(JobStatus::Pending.can_transition_to(JobStatus::Processing));
    assert!(JobStatus::Processing.can_transition_to(JobStatus::Completed));
    assert!(JobStatus::Processing.can_transition_to(JobStatus::Failed));
    assert!(JobStatus::Failed.can_transition_to(JobStatus::Pending));

    assert!(!JobStatus::Pending.can_transition_to(JobStatus::Completed));
    assert!(!JobStatus::Completed.can_transition_to(JobStatus::Processing));
}

#[test]
fn test_image_cut_mode_conversion() {
    assert_eq!(ImageCutMode::from(0), ImageCutMode::Copy);
    assert_eq!(ImageCutMode::from(1), ImageCutMode::Smart);
    assert_eq!(ImageCutMode::from(3), ImageCutMode::Small);
    assert_eq!(ImageCutMode::from(99), ImageCutMode::Smart);

    assert_eq!(i32::from(ImageCutMode::Copy), 0);
    assert_eq!(i32::from(ImageCutMode::Smart), 1);
    assert_eq!(i32::from(ImageCutMode::Small), 3);
}

#[test]
fn test_number_parser_integration() {
    let test_cases = vec![
        ("TEST-001.mp4", "TEST-001"),
        ("ABC-123-C.mkv", "ABC-123"),
        ("XYZ-999-U.avi", "XYZ-999"),
        ("MOVIE-001.mp4", "MOVIE-001"),
        ("FC2-PPV-1234567.mp4", "FC2-PPV-1234567"),
    ];
    for (filename, expected) in test_cases {
        match get_number(filename, None) {
            Ok(result) => assert_eq!(result, expected, "Failed to parse: {}", filename),
            Err(e) => panic!("Error parsing {}: {}", filename, e.message()),
        }
    }
}

#[test]
fn test_dual_id_and_outcomes() {
    let d = dual_id_of("/movies/SSIS-123.mp4").unwrap();
    assert_eq!(d.display, "SSIS-123");
    assert_eq!(d.content, "ssis00123");

    let f = parse_failure("x.mp4".to_string(), &NumberError::NotFound);
    assert!(!f.success);
    assert_eq!(
        f.error,
        Some("Number parsing error: Could not extract number from filename".to_string())
    );

    let ok = file_outcome("a.mp4".to_string(), "A-1".to_string(), Ok(()), Ok(()));
    assert!(ok.success);
    assert_eq!(ok.error, None);
    let fetch = file_outcome("a.mp4".to_string(), "A-1".to_string(), Err("timeout".to_string()), Ok(()));
    assert_eq!(fetch.error, Some("Metadata fetch error: timeout".to_string()));
    let wf = file_outcome("a.mp4".to_string(), "A-1".to_string(), Ok(()), Err("disk".to_string()));
    assert!(!wf.success);
    assert_eq!(wf.error, Some("Processing error: disk".to_string()));

    let results: Vec<ProcessingResult> = vec![ok, fetch, wf, f];
    let stats = batch_stats(&results);
    assert_eq!(stats.total_processed, 4);
    assert_eq!(stats.succeeded, 1);
    assert_eq!(stats.failed, 3);
    assert_eq!(stats.succeeded + stats.failed, stats.total_processed);
}

fn entry(path: &str, ext: Option<&str>, name: &str) -> ScanEntry {
    ScanEntry {
        path: path.to_string(),
        is_file: true,
        parent_components: vec!["movies".to_string()],
        extension: ext.map(|e| e.to_string()),
        file_name: Some(name.to_string()),
        is_symlink: false,
        has_hardlinks: false,
        nfo_days: None,
    }
}

#[test]
fn test_scanner_rules() {
    let mut config = ScannerConfig::default();
    assert_eq!(config.media_types.len(), 12);
    config.escape_folders = vec!["skip".to_string()];
    let scanner = Scanner::new(config.clone());
    let failed = vec!["movies/failed.mp4".to_string()];

    assert_eq!(scanner.check_entry(&entry("movies/a.MP4", Some("MP4"), "a.MP4"), &failed), EntryVerdict::Keep);
    assert_eq!(scanner.check_entry(&entry("movies/a.txt", Some("txt"), "a.txt"), &failed), EntryVerdict::Ignore);
    assert_eq!(scanner.check_entry(&entry("movies/failed.mp4", Some("mp4"), "failed.mp4"), &failed), EntryVerdict::SkipFailed);
    assert_eq!(
        scanner.check_entry(&entry("movies/x-trailer.mp4", Some("mp4"), "x-TRAILER.mp4"), &failed),
        EntryVerdict::Ignore
    );
    let mut escaped = entry("skip/a.mp4", Some("mp4"), "a.mp4");
    escaped.parent_components = vec!["skip".to_string()];
    assert_eq!(scanner.check_entry(&escaped, &failed), EntryVerdict::Ignore);
    let mut link = entry("movies/l.mp4", Some("mp4"), "l.mp4");
    link.is_symlink = true;
    assert_eq!(scanner.check_entry(&link, &failed), EntryVerdict::Ignore);

    let mut analysis = config.clone();
    analysis.main_mode = 3;
    analysis.nfo_skip_days = 7;
    let s3 = Scanner::new(analysis);
    let mut recent = entry("movies/r.mp4", Some("mp4"), "r.mp4");
    recent.nfo_days = Some(3);
    assert_eq!(s3.check_entry(&recent, &failed), EntryVerdict::SkipNfoDays);
    assert_eq!(s3.check_entry(&escaped, &failed), EntryVerdict::Keep);

    let entries = vec![
        entry("movies/a.mp4", Some("mp4"), "a.mp4"),
        entry("movies/failed.mp4", Some("mp4"), "failed.mp4"),
        entry("movies/b.txt", Some("txt"), "b.txt"),
        entry("movies/c.mkv", Some("mkv"), "c.mkv"),
    ];
    let (kept, stats) = scanner.scan_entries(&entries, &failed);
    assert_eq!(kept, vec!["movies/a.mp4".to_string(), "movies/c.mkv".to_string()]);
    assert_eq!(stats.total_files, 2);
    assert_eq!(stats.skip_failed, 1);

    let mut regex_cfg = config.clone();
    regex_cfg.cli_regex = Some("c\\.mkv$".to_string());
    let (kept2, _) = Scanner::new(regex_cfg).scan_entries(&entries, &failed);
    assert_eq!(kept2, vec!["movies/c.mkv".to_string()]);
}

#[test]
fn test_failed_list_and_media_types() {
    let list = parse_failed_list("  a.mp4  \r\n\nb.mkv\n   \n");
    assert_eq!(list, vec!["a.mp4".to_string(), "b.mkv".to_string()]);
    let types = normalize_media_types(&vec!["mp4".to_string(), ".mkv".to_string()]);
    assert_eq!(types, vec![".mp4".to_string(), ".mkv".to_string()]);
}

#[test]
fn test_success_folder_filter() {
    let mut config = ScannerConfig::default();
    config.nfo_skip_days = 5;
    config.link_mode = 1;
    config.success_folder = Some("/done".to_string());
    let scanner = Scanner::new(config);
    assert!(scanner.checks_success_folder());
    let recent = scanner.recent_success_numbers(&vec![
        ("SSIS-123".to_string(), 2),
        ("ABP-001".to_string(), 30),
    ]);
    assert_eq!(recent, vec!["ssis-123".to_string()]);
    let mut stats = ScanStats::default();
    let kept = scanner.filter_by_success_nfo(
        &vec![
            ("/in/SSIS-123.mp4".to_string(), Some("SSIS-123.mp4".to_string())),
            ("/in/ABP-001.mp4".to_string(), Some("ABP-001.mp4".to_string())),
        ],
        &recent,
        &mut stats,
    );
    assert_eq!(kept, vec!["/in/ABP-001.mp4".to_string()]);
    assert_eq!(stats.skip_success_nfo, 1);
}

fn test_fields() -> TemplateFields {
    TemplateFields {
        entries: vec![
            ("number".to_string(), FieldValue::Text("TEST-001".to_string())),
            ("title".to_string(), FieldValue::Text("Test Movie".to_string())),
            ("studio".to_string(), FieldValue::Text("Test Studio".to_string())),
            ("actor".to_string(), FieldValue::List(vec![Some("Test Actor".to_string())])),
            ("year".to_string(), FieldValue::Text("2024".to_string())),
        ],
    }
}

#[test]
fn test_get_destination_folder() {
    let config = ProcessorConfig {
        success_folder: "/tmp/out/output".to_string(),
        location_rule: "studio/number".to_string(),
        ..Default::default()
    };
    let ctx = ProcessingContext::new("/tmp/out/movie.mp4".to_string(), "TEST-001".to_string(), test_fields(), config);
    let dest = ctx.get_destination_folder();
    assert!(dest.contains("Test Studio"));
    assert!(dest.contains("TEST-001"));
    assert_eq!(dest, "/tmp/out/output/Test Studio/TEST-001");
}

#[test]
fn test_get_destination_filename_base() {
    let config = ProcessorConfig { naming_rule: "number".to_string(), ..Default::default() };
    let ctx = ProcessingContext::new("/tmp/x/movie-C.mp4".to_string(), "TEST-001".to_string(), test_fields(), config);
    assert_eq!(ctx.get_destination_filename_base(), "TEST-001-C");
    assert_eq!(ctx.get_destination_path(), "./output/Test Actor/2024/TEST-001-Test Movie/TEST-001-C.mp4");
}

#[test]
fn test_processor_config_default() {
    let c = ProcessorConfig::default();
    assert_eq!(c.mode, ProcessingMode::Scraping);
    assert_eq!(c.link_mode, LinkMode::Move);
    assert_eq!(c.max_title_len, 50);
}

#[test]
fn test_cookie_in_config() {
    let ini = "[general]\na=1\n[cookies] javdb.com = abc=1; b=2\nother.com = x\n\n[next]";
    assert_eq!(cookie_in_config(ini, "javdb.com"), Some("abc=1; b=2".to_string()));
    assert_eq!(cookie_in_config(ini, "www.javdb.com"), Some("abc=1; b=2".to_string()));
    assert_eq!(cookie_in_config(ini, "other.com"), Some("x".to_string()));
    assert_eq!(cookie_in_config(ini, "missing.com"), None);
    // The line right after the header is empty here, which ends the search.
    assert_eq!(cookie_in_config("[cookies]\njavdb.com = abc\n", "javdb.com"), None);
    assert_eq!(cookie_in_config("no section", "javdb.com"), None);
}

#[test]
fn test_execute_organizing_mode() {
    let config = ProcessorConfig {
        mode: ProcessingMode::Organizing,
        success_folder: "/tmp/t/output".to_string(),
        location_rule: "number".to_string(),
        naming_rule: "number".to_string(),
        link_mode: LinkMode::Move,
        create_nfo: false,
        download_images: false,
        ..Default::default()
    };
    let ctx = ProcessingContext::new("/tmp/t/source/movie.mp4".to_string(), "TEST-001".to_string(), test_fields(), config);
    assert_eq!(ctx.get_destination_path(), "/tmp/t/output/TEST-001/TEST-001.mp4");
    let steps = workflow_steps(&ctx.config, false);
    assert!(steps.contains(&WorkflowStep::PlaceMovie));
    assert!(!steps.contains(&WorkflowStep::WriteNfo));
}

#[test]
fn test_execute_analysis_mode() {
    let config = ProcessorConfig {
        mode: ProcessingMode::Analysis,
        naming_rule: "number".to_string(),
        create_nfo: true,
        download_images: false,
        ..Default::default()
    };
    let ctx = ProcessingContext::new("/tmp/t/movie.mp4".to_string(), "TEST-001".to_string(), test_fields(), config);
    assert_eq!(ctx.get_destination_filename_base(), "TEST-001");
    let steps = workflow_steps(&ctx.config, false);
    assert_eq!(steps, vec![WorkflowStep::WriteNfo]);
}

#[test]
fn test_skip_existing() {
    let config = ProcessorConfig {
        mode: ProcessingMode::Organizing,
        success_folder: "/tmp/t/output".to_string(),
        location_rule: "number".to_string(),
        naming_rule: "number".to_string(),
        skip_existing: true,
        link_mode: LinkMode::Move,
        create_nfo: false,
        download_images: false,
        ..Default::default()
    };
    let ctx = ProcessingContext::new("/tmp/t/source/movie.mp4".to_string(), "TEST-001".to_string(), test_fields(), config);
    assert_eq!(ctx.get_destination_path(), "/tmp/t/output/TEST-001/TEST-001.mp4");
    let steps = workflow_steps(&ctx.config, true);
    assert!(!steps.contains(&WorkflowStep::PlaceMovie));
    assert!(!steps.contains(&WorkflowStep::MoveSubtitles));
}

#[test]
fn escaped_values_hold_no_markup() {
    let e = xml_escape("<title a=\"x\">Tom & Jerry's</title>");
    assert!(!e.contains('<') && !e.contains('>') && !e.contains('"') && !e.contains('\''));
    assert_eq!(e, "&lt;title a=&quot;x&quot;&gt;Tom &amp; Jerry&apos;s&lt;/title&gt;");
}
