use moviemeta::processor::{FieldValue, FileAttributes, Template, TemplateFields};

#[test]
fn test_file_attributes_multi_part_cd() {
    // CD pattern detection (original behavior)
    let attrs = FileAttributes::from_path("/movies/TEST-001-CD1.mp4");
    assert!(attrs.multi_part);
    assert_eq!(attrs.part, "-CD1");

    let attrs2 = FileAttributes::from_path("/movies/TEST-001_CD2.mp4");
    assert!(attrs2.multi_part);
    assert_eq!(attrs2.part, "-CD2");
}

#[test]
fn test_file_attributes_multi_part_numeric() {
    // User's specific case - numeric suffixes
    let attrs = FileAttributes::from_path("/movies/migd-534/[456k.me]migd-534-2.mp4");
    assert!(attrs.multi_part, "Failed to detect -2 as multi-part");
    assert_eq!(attrs.part, "-2");

    // Other numeric patterns
    let attrs2 = FileAttributes::from_path("/movies/ABC-123-1.mp4");
    assert!(attrs2.multi_part);
    assert_eq!(attrs2.part, "-1");

    let attrs3 = FileAttributes::from_path("/movies/XYZ-456_3.mkv");
    assert!(attrs3.multi_part);
    assert_eq!(attrs3.part, "-3");
}

#[test]
fn test_file_attributes_multi_part_disc() {
    let attrs = FileAttributes::from_path("/movies/ABC-123-disc1.mp4");
    assert!(attrs.multi_part);
    assert_eq!(attrs.part, "-DISC1");

    let attrs2 = FileAttributes::from_path("/movies/XYZ-456_disk2.mkv");
    assert!(attrs2.multi_part);
    assert_eq!(attrs2.part, "-DISK2");
}

#[test]
fn test_file_attributes_multi_part_part() {
    let attrs = FileAttributes::from_path("/movies/ABC-123-part1.mp4");
    assert!(attrs.multi_part);
    assert_eq!(attrs.part, "-PART1");

    let attrs2 = FileAttributes::from_path("/movies/XYZ-456_pt2.mkv");
    assert!(attrs2.multi_part);
    assert_eq!(attrs2.part, "-PT2");
}

#[test]
fn test_file_attributes_not_multi_part() {
    // Movie numbers that end in digits - should NOT detect as multi-part
    let cases = vec![
        "/movies/SSIS-123.mp4",          // Primary number
        "/movies/T28-001.mp4",           // T28 format
        "/movies/FC2-PPV-1234567.mp4",   // FC2 format
    ];

    for path_str in cases {
        let attrs = FileAttributes::from_path(path_str);
        assert!(!attrs.multi_part, "Incorrectly detected {} as multi-part", path_str);
        assert_eq!(attrs.part, "", "Part should be empty for {}", path_str);
    }
}

#[test]
fn test_file_attributes_multi_part_with_attributes() {
    // Multi-part + Chinese subtitle
    let attrs = FileAttributes::from_path("/movies/MIGD-534-2-C.mp4");
    assert!(attrs.multi_part);
    assert_eq!(attrs.part, "-2");
    assert!(attrs.cn_sub);

    // Multi-part + Uncensored
    let attrs2 = FileAttributes::from_path("/movies/ABC-123-CD1-U.mp4");
    assert!(attrs2.multi_part);
    assert_eq!(attrs2.part, "-CD1");
    assert!(attrs2.uncensored);
}

#[test]
fn test_file_attributes_multi_part_priority() {
    // Test that CD pattern takes priority over numeric
    let attrs = FileAttributes::from_path("/movies/ABC-123-CD1-2.mp4");
    assert!(attrs.multi_part);
    // Should match CD1, not -2
    assert_eq!(attrs.part, "-CD1");
}

#[test]
fn test_file_attributes_chinese_sub() {
    let attrs = FileAttributes::from_path("/movies/TEST-001-C.mp4");

    assert!(attrs.cn_sub);
    assert!(!attrs.uncensored);
}

#[test]
fn test_file_attributes_uncensored() {
    let attrs = FileAttributes::from_path("/movies/TEST-001-U.mp4");

    assert!(attrs.uncensored);
    assert!(!attrs.cn_sub);
}

#[test]
fn test_file_attributes_uncensored_chinese() {
    let attrs = FileAttributes::from_path("/movies/TEST-001-UC.mp4");

    assert!(attrs.uncensored);
    assert!(attrs.cn_sub);
    assert!(attrs.uncensored_cn);
}

#[test]
fn test_file_attributes_4k() {
    let attrs = FileAttributes::from_path("/movies/TEST-001-4K.mp4");

    assert!(attrs.is_4k);
}

#[test]
fn test_file_attributes_suffix() {
    let attrs = FileAttributes::from_path("/movies/TEST-001-C.mp4");
    assert_eq!(attrs.get_suffix(), "-C");

    let attrs2 = FileAttributes::from_path("/movies/TEST-001-U.mp4");
    assert_eq!(attrs2.get_suffix(), "-U");

    let attrs3 = FileAttributes::from_path("/movies/TEST-001-UC.mp4");
    assert_eq!(attrs3.get_suffix(), "-UC");
}

fn text(key: &str, value: &str) -> (String, FieldValue) {
    (key.to_string(), FieldValue::Text(value.to_string()))
}

fn list(key: &str, values: &[&str]) -> (String, FieldValue) {
    (
        key.to_string(),
        FieldValue::List(values.iter().map(|v| Some(v.to_string())).collect()),
    )
}

#[test]
fn test_template_simple() {
    let template = Template::new("number");
    let metadata = TemplateFields {
        entries: vec![text("number", "TEST-001"), text("title", "Test Movie")],
    };

    let result = template.render(&metadata);
    assert_eq!(result, "TEST-001");
}

#[test]
fn test_template_with_actor() {
    let template = Template::new("actor/number");
    let metadata = TemplateFields {
        entries: vec![text("number", "TEST-001"), list("actor", &["John Doe", "Jane Smith"])],
    };

    let result = template.render(&metadata);
    assert_eq!(result, "John Doe/TEST-001");
}

#[test]
fn test_template_empty_actor() {
    let template = Template::new("actor");
    let metadata = TemplateFields {
        entries: vec![text("number", "TEST-001"), list("actor", &[])],
    };

    let result = template.render(&metadata);
    // Empty actor should fall back to number
    assert_eq!(result, "TEST-001");
}

#[test]
fn test_template_complex() {
    let template = Template::new("studio/number");
    let metadata = TemplateFields {
        entries: vec![
            text("number", "TEST-001"),
            text("studio", "Test Studio"),
            text("title", "Test Movie"),
        ],
    };

    let result = template.render(&metadata);
    assert_eq!(result, "Test Studio/TEST-001");
}
