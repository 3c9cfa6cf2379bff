use std::time::Duration;

use moviemeta::cloudscraper::CloudScraperClient;
use moviemeta::face_detect::{FaceDetector, FaceModel};
use moviemeta::http::{
    build_cookie_header, is_retryable_status, next_retry_action, should_fallback, Attempt,
    HttpBackend, HttpClientBuilder, HttpConfig, RetryAction, DEFAULT_RETRIES, DEFAULT_USER_AGENT,
};
use moviemeta::image::CropMode;
use moviemeta::scraper::{IdFormat, Scraper};
use moviemeta::scrapers::{
    AvmooScraper, DmmScraper, Fc2Scraper, ImdbScraper, Jav321Scraper, JavdbScraper,
    JavlibraryScraper, MgstageScraper, R18DevScraper, TmdbScraper, TokyohotScraper,
};
use moviemeta::number_parser::convert_to_content_id;

#[test]
fn test_face_detector_creation() {
    let detector = FaceDetector::new();
    assert_eq!(detector.model, FaceModel::Hog);
    assert_eq!(detector.upsample, 1);
}

#[test]
fn face_detect_test_builder() {
    let detector = FaceDetector::new()
        .python_path("python3")
        .model(FaceModel::Cnn)
        .upsample(2)
        .debug(true);
    assert_eq!(detector.python_path, "python3");
    assert_eq!(detector.model, FaceModel::Cnn);
    assert_eq!(detector.upsample, 2);
    assert!(detector.debug);
}

#[test]
fn test_face_detector_command() {
    let d = FaceDetector::new().bridge_script("/b.py").model(FaceModel::Cnn).upsample(3);
    assert_eq!(
        d.command_args("/img/cover.jpg"),
        vec!["/b.py", "/img/cover.jpg", "--model", "cnn", "--upsample", "3"]
    );
    assert!(FaceDetector::find_bridge_script().ends_with("face_detect_bridge.py"));
}

#[test]
fn test_crop_mode_conversion() {
    assert_eq!(CropMode::from(0), CropMode::Copy);
    assert_eq!(CropMode::from(1), CropMode::Smart);
    assert_eq!(CropMode::from(3), CropMode::Small);
    assert_eq!(CropMode::from(4), CropMode::SmartCensored);
    assert_eq!(CropMode::from(99), CropMode::Copy);
    assert_eq!(CropMode::from(4).number(), 4);
}

#[test]
fn cloudscraper_test_builder() {
    let client = CloudScraperClient::new()
        .python_path("python3")
        .user_agent("TestBot/1.0")
        .timeout(Duration::from_secs(30))
        .proxy("http://localhost:8080")
        .verify_ssl(true)
        .debug(true);
    assert_eq!(client.python_path, "python3");
    assert_eq!(client.user_agent, "TestBot/1.0");
    assert_eq!(client.timeout, 30);
    assert_eq!(client.proxy, Some("http://localhost:8080".to_string()));
    assert_eq!(client.verify_ssl, true);
    assert_eq!(client.debug, true);
}

#[test]
fn test_cloudscraper_request_args() {
    let client = CloudScraperClient::new().bridge_script("bridge.py").timeout(Duration::from_millis(2500));
    let data = vec![("q".to_string(), "1".to_string())];
    let cookies = vec![("s".to_string(), "abc".to_string())];
    let headers = vec![("X-A".to_string(), "b".to_string())];
    let get = client.request_args("GET", "http://x", &data, &cookies, &headers);
    assert_eq!(
        get,
        vec![
            "bridge.py", "http://x", "--method", "GET", "--timeout", "2", "--user-agent",
            DEFAULT_USER_AGENT, "--cookie", "s=abc", "--header", "X-A:b"
        ]
    );
    let post = client.proxy("p").verify_ssl(true).request_args("POST", "u", &data, &vec![], &vec![]);
    assert_eq!(
        post,
        vec![
            "bridge.py", "u", "--method", "POST", "--timeout", "2", "--user-agent",
            DEFAULT_USER_AGENT, "--proxy", "p", "--verify-ssl", "--data", "q=1"
        ]
    );
}

#[test]
fn test_http_builder() {
    let b = HttpClientBuilder::new()
        .user_agent("TestBot/1.0")
        .timeout(Duration::from_secs(30))
        .retries(5)
        .cookie("session", "abc123")
        .cookie("user", "john")
        .cookie("session", "new")
        .header("Accept", "text/html")
        .backend(HttpBackend::CloudScraper);
    assert_eq!(b.config.user_agent, "TestBot/1.0");
    assert_eq!(b.config.timeout, Duration::from_secs(30));
    assert_eq!(b.config.retries, 5);
    assert_eq!(b.config.cookies.len(), 2);
    assert_eq!(build_cookie_header(&b.config.cookies), "session=new; user=john");
    assert_eq!(b.config.backend, HttpBackend::CloudScraper);
    let d = HttpConfig::default();
    assert_eq!(d.timeout, Duration::from_secs(10));
    assert_eq!(d.retries, DEFAULT_RETRIES);
    assert!(d.verify_ssl);
}

#[test]
fn test_retry_rules() {
    for code in [429u16, 500, 502, 503, 504] {
        assert!(is_retryable_status(code));
    }
    for code in [200u16, 404, 403] {
        assert!(!is_retryable_status(code));
    }
    assert_eq!(next_retry_action(0, 3, Attempt::Status(200)), RetryAction::Return);
    assert_eq!(next_retry_action(0, 3, Attempt::Status(404)), RetryAction::Return);
    assert_eq!(next_retry_action(0, 3, Attempt::Status(503)), RetryAction::Retry(1));
    assert_eq!(next_retry_action(2, 3, Attempt::Failed), RetryAction::Retry(4));
    assert_eq!(next_retry_action(3, 3, Attempt::Failed), RetryAction::GiveUp);
    assert_eq!(next_retry_action(63, 64, Attempt::Failed), RetryAction::Retry(1u64 << 63));
    assert!(should_fallback("HTTP 403 Forbidden"));
    assert!(should_fallback("Just a moment..."));
    assert!(!should_fallback("timeout"));
}

struct TestScraper;

impl Scraper for TestScraper {
    fn source(&self) -> &'static str {
        "test"
    }

    fn query_number_url(&self, number: &str) -> String {
        format!("http://example.com/{}", number)
    }
}

struct ContentIdScraper;

impl Scraper for ContentIdScraper {
    fn source(&self) -> &'static str {
        "content_test"
    }

    fn preferred_id_format(&self) -> IdFormat {
        IdFormat::Content
    }

    fn query_number_url(&self, number: &str) -> String {
        format!("http://example.com/{}", number)
    }
}

#[test]
fn test_id_format_default() {
    assert_eq!(IdFormat::default(), IdFormat::Display);
}

#[test]
fn test_id_format_equality() {
    assert_eq!(IdFormat::Display, IdFormat::Display);
    assert_eq!(IdFormat::Content, IdFormat::Content);
    assert_ne!(IdFormat::Display, IdFormat::Content);
}

#[test]
fn test_scraper_default_id_format() {
    let scraper = TestScraper;
    assert_eq!(scraper.preferred_id_format(), IdFormat::Display);
    assert_eq!(scraper.imagecut(), 1);
}

#[test]
fn test_scraper_content_id_format() {
    let scraper = ContentIdScraper;
    assert_eq!(scraper.preferred_id_format(), IdFormat::Content);
}

#[test]
fn avmoo_test_clean_text() {
    let scraper = AvmooScraper::new();
    assert_eq!(scraper.clean_text("  Test   Movie  "), "Test Movie");
}

#[test]
fn test_dmm_extract_cid() {
    let scraper = DmmScraper::new();
    let url1 = "https://www.dmm.co.jp/mono/dvd/-/detail/=/cid=ssis00123/";
    assert_eq!(scraper.extract_cid_from_url(url1), Some("ssis00123".to_string()));
    let url2 = "https://www.dmm.co.jp/digital/videoa/-/detail/=/cid=abp00001/";
    assert_eq!(scraper.extract_cid_from_url(url2), Some("abp00001".to_string()));
    let url3 = "https://www.dmm.co.jp/search/";
    assert_eq!(scraper.extract_cid_from_url(url3), None);
    assert_eq!(scraper.extract_cid_from_url("x?cid=ab12&x=1"), Some("ab12".to_string()));
    assert_eq!(scraper.extract_cid_from_url("x/cid=/y"), None);
}

#[test]
fn dmm_test_clean_text() {
    let scraper = DmmScraper::new();
    assert_eq!(scraper.clean_text("  Test \n\t  Movie  "), "Test Movie");
}

#[test]
fn test_dmm_preferred_id_format() {
    let scraper = DmmScraper::new();
    assert_eq!(scraper.preferred_id_format(), IdFormat::Content);
    assert_eq!(scraper.query_number_url("ssis00123"), "https://www.dmm.co.jp/search/=/searchstr=ssis00123/");
}

#[test]
fn test_extract_fc2_id() {
    let scraper = Fc2Scraper::new();
    assert_eq!(scraper.extract_fc2_id("FC2-PPV-1234567"), "1234567");
    assert_eq!(scraper.extract_fc2_id("FC2-1234567"), "1234567");
    assert_eq!(scraper.extract_fc2_id("FC2PPV1234567"), "1234567");
    assert_eq!(scraper.extract_fc2_id("1234567"), "1234567");
    assert_eq!(scraper.query_number_url("fc2-ppv-42"), "https://adult.contents.fc2.com/article/42/");
}

#[test]
fn fc2_test_clean_text() {
    let scraper = Fc2Scraper::new();
    assert_eq!(scraper.clean_text("  Test   Movie  "), "Test Movie");
}

#[test]
fn test_jav321_scraper_url() {
    let scraper = Jav321Scraper::new();
    assert_eq!(scraper.base_url, "https://jp.jav321.com");
    assert_eq!(scraper.source(), "jav321");
}

#[test]
fn test_jav321_preferred_id_format() {
    let scraper = Jav321Scraper::new();
    assert!(matches!(scraper.preferred_id_format(), IdFormat::Display));
}

#[test]
fn test_jav321_clean_text() {
    let scraper = Jav321Scraper::new();
    assert_eq!(scraper.clean_text("  Test  "), "Test");
    assert_eq!(scraper.clean_text("Test&amp;More"), "Test&More");
    assert_eq!(scraper.clean_text("&amp;lt;"), "<");
}

#[test]
fn test_javdb_locale_configuration() {
    let scraper_en = JavdbScraper::new();
    assert_eq!(scraper_en.locale, "en");
    let scraper_zh = JavdbScraper::with_locale("zh".to_string());
    assert_eq!(scraper_zh.locale, "zh");
    assert_eq!(scraper_zh.build_detail_url("/v/abc", "zh"), "https://javdb.com/v/abc?locale=zh");
    assert_eq!(scraper_zh.decode_html_entities("a&nbsp;&#39;b&#39;"), "a 'b'");
}

#[test]
fn test_javdb_preferred_id_format() {
    let scraper = JavdbScraper::new();
    assert_eq!(scraper.preferred_id_format(), IdFormat::Display);
}

#[test]
fn javlibrary_test_clean_text() {
    let scraper = JavlibraryScraper::new();
    assert_eq!(scraper.clean_text("  Test   Movie  "), "Test Movie");
    assert_eq!(scraper.query_number_url("ssis-123"), "https://www.javlibrary.com/en/?v=javSSIS123");
}

#[test]
fn test_mgstage_scraper_url() {
    let scraper = MgstageScraper::new();
    assert_eq!(scraper.base_url, "https://www.mgstage.com");
    assert_eq!(scraper.source(), "mgstage");
}

#[test]
fn test_mgstage_preferred_id_format() {
    let scraper = MgstageScraper::new();
    assert!(matches!(scraper.preferred_id_format(), IdFormat::Display));
}

#[test]
fn test_mgstage_normalize_url() {
    let scraper = MgstageScraper::new();
    let url1 = scraper.normalize_url("/product/product_detail/SIRO-123");
    assert_eq!(url1, "https://www.mgstage.com/product/product_detail/SIRO-123/");
    let url2 = scraper.normalize_url("/product/product_detail/SIRO-123/");
    assert_eq!(url2, "https://www.mgstage.com/product/product_detail/SIRO-123/");
}

#[test]
fn test_r18dev_preferred_id_format() {
    let scraper = R18DevScraper::new();
    assert_eq!(scraper.preferred_id_format(), IdFormat::Display);
    assert_eq!(
        scraper.query_number_url("SSIS-123"),
        "https://r18.dev/videos/vod/movies/detail/-/dvd_id=SSIS-123/json"
    );
}

#[test]
fn test_normalize_id() {
    let scraper = TokyohotScraper::new();
    assert_eq!(scraper.normalize_id("TOKYO-HOT-N0001"), "n0001");
    assert_eq!(scraper.normalize_id("N0001"), "n0001");
    assert_eq!(scraper.normalize_id("n0001"), "n0001");
    assert_eq!(scraper.normalize_id("k1234"), "k1234");
}

#[test]
fn tokyohot_test_clean_text() {
    let scraper = TokyohotScraper::new();
    assert_eq!(scraper.clean_text("  Test   Movie  "), "Test Movie");
}

#[test]
fn test_other_sources() {
    assert_eq!(ImdbScraper::new().imagecut(), 0);
    assert_eq!(ImdbScraper::new().query_number_url("tt1"), "https://www.imdb.com/title/tt1");
    let t = TmdbScraper::with_api_key("k".to_string());
    assert_eq!(t.api_key, Some("k".to_string()));
    assert_eq!(t.source(), "tmdb");
    assert_eq!(AvmooScraper::with_base_url("http://m".to_string()).query_number_url("abc-1"), "http://m/movie/ABC-1");
}

#[test]
fn test_dmm_content_id_examples() {
    let test_cases = vec![
        ("SSIS-123", "ssis00123"),
        ("ABP-001", "abp00001"),
        ("IPX-789", "ipx00789"),
        ("PRED-456", "pred00456"),
        ("MIDE-999", "mide00999"),
    ];
    for (display, expected_content) in test_cases {
        println!("Display: {} → Content: {}", display, expected_content);
        assert!(expected_content.chars().all(|c| c.is_lowercase() || c.is_numeric()));
        assert_eq!(convert_to_content_id(display), expected_content);
    }
}

#[test]
fn test_scraper_trait_methods() {
    let scraper = TestScraper;
    assert_eq!(scraper.source(), "test");
    assert_eq!(scraper.imagecut(), 1);

    let html = r#"<html><head><title>Test</title></head><body><h1>Hello</h1></body></html>"#;
    let title = scraper.select_text(html, "title");
    assert_eq!(title, "Test");

    let h1 = scraper.select_text(html, "h1");
    assert_eq!(h1, "Hello");
}

#[test]
fn test_select_attr() {
    let scraper = TestScraper;
    let html = r#"<html><head><meta property="og:title" content="Test Title"/></head></html>"#;
    let title = scraper.select_attr(html, r#"meta[property="og:title"]"#, "content");
    assert_eq!(title, "Test Title");
}

#[test]
fn test_select_all_text() {
    let scraper = TestScraper;
    let html = r#"<html><body><ul><li>One</li><li>Two</li><li>Three</li></ul></body></html>"#;
    let items = scraper.select_all_text(html, "li");
    assert_eq!(items, vec!["One", "Two", "Three"]);
}

#[test]
fn test_cookie_header() {
    let cookies = vec![
        ("session".to_string(), "abc123".to_string()),
        ("user".to_string(), "john".to_string()),
    ];
    let header = build_cookie_header(&cookies);

    assert!(header.contains("session=abc123"));
    assert!(header.contains("user=john"));
}

#[test]
fn test_retryable_status() {
    assert!(is_retryable_status(429));
    assert!(is_retryable_status(500));
    assert!(is_retryable_status(502));
    assert!(is_retryable_status(503));
    assert!(is_retryable_status(504));

    assert!(!is_retryable_status(200));
    assert!(!is_retryable_status(404));
    assert!(!is_retryable_status(403));
}

#[test]
fn test_should_fallback() {
    assert!(should_fallback("HTTP 403: CloudFlare protection"));
    assert!(!should_fallback("HTTP 404: Not Found"));
}

#[test]
fn test_avmoo_scraper_url() {
    let scraper = AvmooScraper::new();
    let url = scraper.query_number_url("ABP-001");
    assert!(url.contains("avmoo.com"));
    assert!(url.contains("ABP-001"));
}

#[test]
fn test_dmm_scraper_url() {
    let scraper = DmmScraper::new();
    let url = scraper.query_number_url("ssis00123");
    assert!(url.contains("dmm.co.jp"));
    assert!(url.contains("ssis00123"));
}

#[test]
fn test_fc2_scraper_url() {
    let scraper = Fc2Scraper::new();
    let url = scraper.query_number_url("FC2-PPV-1234567");
    assert!(url.contains("fc2.com"));
    assert!(url.contains("1234567"));
}

#[test]
fn test_imdb_scraper_url() {
    let scraper = ImdbScraper::new();
    let url = scraper.query_number_url("tt1234567");
    assert_eq!(url, "https://www.imdb.com/title/tt1234567");
}

#[test]
fn test_javdb_scraper_url() {
    let scraper = JavdbScraper::new();
    let url = scraper.query_number_url("SSIS-123");
    assert!(url.contains("javdb.com"));
    assert!(url.contains("search?q=SSIS-123"));
    assert!(url.contains("&f=all"));
}

#[test]
fn test_javlibrary_scraper_url() {
    let scraper = JavlibraryScraper::new();
    let url = scraper.query_number_url("ABP-001");
    assert!(url.contains("javlibrary.com"));
    assert!(url.contains("ABP001") || url.contains("abp001"));
}

#[test]
fn test_r18dev_scraper_url() {
    let scraper = R18DevScraper::new();
    let url = scraper.query_number_url("SSIS-123");
    assert!(url.contains("r18.dev"));
    assert!(url.contains("dvd_id=SSIS-123"));
    assert!(url.contains("/json"));
}

#[test]
fn test_tmdb_scraper_url() {
    let scraper = TmdbScraper::new();
    let url = scraper.query_number_url("123456");
    assert!(url.contains("themoviedb.org"));
    assert!(url.contains("123456"));
}

#[test]
fn test_tokyohot_scraper_url() {
    let scraper = TokyohotScraper::new();
    let url = scraper.query_number_url("n0001");
    assert!(url.contains("tokyo-hot.com"));
    assert!(url.contains("n0001"));
}

#[test]
fn test_dmm_receives_content_id() {
    let scraper = DmmScraper::new();
    let mut registry = moviemeta::registry::ScraperRegistry::new();
    registry.register(scraper.source(), scraper.preferred_id_format());
    let plan = registry.plan_search("SSIS-123", "ssis00123", None, None);
    assert!(plan.contains(&("dmm".to_string(), "ssis00123".to_string())));
    assert!(!plan.iter().any(|(s, id)| s == "dmm" && id == "SSIS-123"));
}

#[test]
fn test_dmm_id_format_preference() {
    let scraper = DmmScraper::new();
    assert_eq!(scraper.preferred_id_format(), IdFormat::Content);
}

#[test]
fn test_dmm_url_generation() {
    let scraper = DmmScraper::new();
    let url = scraper.query_number_url("ssis00123");
    assert!(url.contains("dmm.co.jp"), "URL should be DMM domain");
    assert!(url.contains("search"), "URL should be search endpoint");
    assert!(url.contains("ssis00123"), "URL should contain content ID");
}

#[test]
fn test_dmm_registry_priority() {
    let scraper = DmmScraper::new();
    let mut registry = moviemeta::registry::ScraperRegistry::new();
    registry.register(scraper.source(), scraper.preferred_id_format());
    let sources = registry.available_sources();
    assert!(sources.contains(&"dmm".to_string()), "DMM should be registered");
}

#[test]
fn default_timeout_is_ten_whole_seconds() {
    let c = HttpClientBuilder::new().config;
    assert_eq!(c.timeout, Duration::from_secs(10));
    assert_eq!(HttpConfig::default().timeout, Duration::from_secs(moviemeta::http::DEFAULT_TIMEOUT));
}
