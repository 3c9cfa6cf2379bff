use moviemeta::pages::R18DevNext;
use moviemeta::scrapers::R18DevScraper;

/// A response text of the JSON API.
fn doc(text: &str) -> &str {
    text
}

#[test]
fn test_r18dev_scraper_parse_json() {
    let scraper = R18DevScraper::new();

    let json_data = doc(
        r#"{
        "movie": {
            "dvd_id": "SSIS-123",
            "content_id": "ssis00123",
            "title": "Test English Title",
            "description": "This is a test description in English.",
            "release_date": "2024-01-15",
            "runtime_minutes": 120,
            "images": {
                "jacket_image": {
                    "large": "https://pics.r18.com/digital/video/ssis00123/ssis00123pl.jpg",
                    "medium": "https://pics.r18.com/digital/video/ssis00123/ssis00123pm.jpg"
                }
            },
            "maker": {
                "id": "12",
                "name": "S1 NO.1 STYLE"
            },
            "label": {
                "id": "1",
                "name": "S1 NO.1 STYLE"
            },
            "series": {
                "id": "10",
                "name": "Test Series"
            },
            "directors": [
                {
                    "id": "5",
                    "name": "Test Director"
                }
            ],
            "actresses": [
                {
                    "id": "100",
                    "name": "Test Actress One"
                },
                {
                    "id": "101",
                    "name": "Test Actress Two"
                }
            ],
            "categories": [
                {
                    "id": "1",
                    "name": "Drama"
                },
                {
                    "id": "2",
                    "name": "Featured Actress"
                }
            ],
            "rating": {
                "average": 4.5,
                "count": 100
            }
        }
    }"#,
    );

    let metadata = scraper.parse_response(json_data).unwrap();

    assert_eq!(metadata.number, "SSIS-123");
    assert_eq!(metadata.title, "Test English Title");
    assert_eq!(metadata.release, "2024-01-15");
    assert_eq!(metadata.runtime, "120分");
    assert_eq!(metadata.director, "Test Director");
    assert_eq!(metadata.studio, "S1 NO.1 STYLE");
    assert_eq!(metadata.label, "S1 NO.1 STYLE");
    assert_eq!(metadata.series, "Test Series");
    assert!(metadata.cover.contains("ssis00123pl.jpg"));
    assert_eq!(metadata.actor.len(), 2);
    assert!(metadata.actor.contains(&"Test Actress One".to_string()));
    assert_eq!(metadata.tag.len(), 2);
    assert!(metadata.tag.contains(&"Drama".to_string()));
    assert!(metadata.outline.contains("test description"));
    assert_eq!(metadata.userrating.parse::<f32>().unwrap(), 4.5);
}

#[test]
fn test_r18dev_parse_json_minimal() {
    let scraper = R18DevScraper::new();

    // Test with minimal JSON (only required fields)
    let json_data = doc(
        r#"{
        "movie": {
            "dvd_id": "TEST-001",
            "title": "Minimal Test Movie"
        }
    }"#,
    );

    let metadata = scraper.parse_response(json_data).unwrap();
    assert_eq!(metadata.number, "TEST-001");
    assert_eq!(metadata.title, "Minimal Test Movie");
}

#[test]
fn test_r18dev_parse_json_missing_movie() {
    let scraper = R18DevScraper::new();

    // Test with missing movie object
    let json_data = doc(r#"{ "error": "not found" }"#);

    let result = scraper.parse_response(json_data);
    assert!(result.is_err());
    assert!(result.unwrap_err().to_string().contains("No movie object"));
}

#[test]
fn test_r18dev_content_id_fallback() {
    let scraper = R18DevScraper::new();

    // Test fallback to content_id when dvd_id is missing
    let json_data = doc(
        r#"{
        "movie": {
            "content_id": "ssis00123",
            "title": "Test with Content ID Only"
        }
    }"#,
    );

    let metadata = scraper.parse_response(json_data).unwrap();
    // Should convert ssis00123 → SSIS-123
    assert!(metadata.number.contains("SSIS"));
    assert_eq!(metadata.title, "Test with Content ID Only");
}

#[test]
fn r18dev_content_id_is_hyphenated_at_its_digits() {
    let scraper = R18DevScraper::new();
    let json_data = doc(r#"{ "movie": { "content_id": "ssis00123", "title": "T" } }"#);
    let metadata = scraper.parse_response(json_data).unwrap();
    assert_eq!(metadata.number, "SSIS-123");
}

#[test]
fn r18dev_negative_runtime_and_medium_cover() {
    let scraper = R18DevScraper::new();
    let json_data = doc(
        r#"{ "movie": { "title": "T", "runtime_minutes": -5,
             "images": { "jacket_image": { "medium": "m.jpg" } },
             "directors": [], "actresses": [ { "id": 1 }, { "name": "A" } ] } }"#,
    );
    let metadata = scraper.parse_response(json_data).unwrap();
    assert_eq!(metadata.runtime, "-5分");
    assert_eq!(metadata.cover, "m.jpg");
    assert_eq!(metadata.director, "");
    assert_eq!(metadata.actor, vec!["A".to_string()]);
}

#[test]
fn r18dev_missing_title_is_refused() {
    let scraper = R18DevScraper::new();
    let json_data = doc(r#"{ "movie": { "dvd_id": "X-1" } }"#);
    let err = scraper.parse_response(json_data).unwrap_err();
    assert_eq!(err, "Failed to extract title from R18Dev JSON");
}

#[test]
fn r18dev_text_that_is_no_json_is_an_error() {
    let scraper = R18DevScraper::new();
    assert!(scraper.parse_response("<html>not json</html>").is_err());
}

#[test]
fn r18dev_lookup_steps() {
    let s = R18DevScraper::new();
    match s.after_dvd_id_response("SSIS-123", None) {
        R18DevNext::Fetch(u) => assert_eq!(u, "https://r18.dev/videos/vod/movies/detail/-/combined=ssis123/json"),
        other => panic!("unexpected {:?}", other),
    }
    match s.after_dvd_id_response("SSIS-123", Some("oops")) {
        R18DevNext::Fetch(u) => assert!(u.contains("/combined=ssis123/")),
        other => panic!("unexpected {:?}", other),
    }
    let text = r#"{ "movie": { "dvd_id": "ssis-123", "title": "T", "release_date": "2024-01-15" } }"#;
    match s.after_dvd_id_response("SSIS-123", Some(text)) {
        R18DevNext::Done(Ok(m)) => {
            assert_eq!(m.number, "SSIS-123");
            assert_eq!(m.source, "r18dev");
            assert_eq!(m.website, "https://r18.dev/videos/vod/movies/detail/-/dvd_id=SSIS-123/json");
            assert_eq!(m.imagecut, 1);
            assert_eq!(m.year, "2024");
        }
        other => panic!("unexpected {:?}", other),
    }
    match s.after_dvd_id_response("SSIS-123", Some(r#"{ "movie": {} }"#)) {
        R18DevNext::Done(Err(_)) => {}
        other => panic!("unexpected {:?}", other),
    }
    assert_eq!(
        s.after_combined_response("SSIS-123", None).unwrap_err(),
        "R18Dev: Both endpoints failed for SSIS-123"
    );
    assert!(s.after_combined_response("SSIS-123", Some("[1")).is_err());
    let m = s.after_combined_response("SSIS-123", Some(text)).unwrap();
    assert_eq!(m.website, "https://r18.dev/videos/vod/movies/detail/-/dvd_id=SSIS-123/json");
}
