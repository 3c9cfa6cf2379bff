use moviemeta::scrapers::{
    AvmooScraper, DmmScraper, Fc2Scraper, ImdbScraper, Jav321Scraper, JavdbScraper,
    JavlibraryScraper, MgstageScraper, TmdbScraper, TokyohotScraper,
};

#[test]
fn test_imdb_scraper_parse() {
    let scraper = ImdbScraper::new();

    let html_content = r#"
    <html>
    <head>
        <meta property="og:title" content="Test Movie" />
        <meta property="og:description" content="A thrilling test movie" />
        <meta property="og:image" content="https://m.media-amazon.com/images/M/poster.jpg" />
    </head>
    <body>
        <h1 data-testid="hero-title-block__title">Test Movie</h1>
        <div data-testid="genres">
            <a><span>Action</span></a>
            <a><span>Thriller</span></a>
        </div>
        <div data-testid="hero-rating-bar__aggregate-rating__score">
            <span>8.5/10</span>
        </div>
    </body>
    </html>
    "#;

    let metadata = scraper
        .parse_metadata(html_content, "https://www.imdb.com/title/tt1234567")
        .unwrap();

    assert_eq!(metadata.number, "tt1234567");
    assert_eq!(metadata.title, "Test Movie");
    assert_eq!(metadata.outline, "A thrilling test movie");
    assert!(metadata.cover.contains("poster.jpg"));
    assert_eq!(metadata.tag, vec!["Action", "Thriller"]);
    assert_eq!(metadata.userrating.parse::<f32>().unwrap(), 8.5);
}

#[test]
fn test_javlibrary_scraper_parse() {
    let scraper = JavlibraryScraper::new();

    let html_content = r#"
    <html>
    <head>
        <title>ABP-001 Test Movie - JAVLibrary</title>
    </head>
    <body>
        <h3 class="post-title text">Test JAV Movie タイトル</h3>
        <img id="video_jacket_img" src="/covers/abp001.jpg" />
        <div id="video_info">
            <table>
                <tr><td class="header">ID:</td><td class="text">ABP-001</td></tr>
                <tr><td class="header">Release Date:</td><td class="text">2024-01-15</td></tr>
                <tr><td class="header">Length:</td><td class="text">120 min</td></tr>
                <tr><td class="header">Director:</td><td class="text">Test Director</td></tr>
                <tr><td class="header">Maker:</td><td class="text">Test Studio</td></tr>
                <tr><td class="header">Label:</td><td class="text">Test Label</td></tr>
                <tr><td class="header">Series:</td><td class="text">Test Series</td></tr>
            </table>
        </div>
        <div id="video_cast">
            <span class="cast"><a>Actress One</a></span>
            <span class="cast"><a>Actress Two</a></span>
        </div>
        <div id="video_genres">
            <span class="genre"><a>Drama</a></span>
            <span class="genre"><a>Romance</a></span>
        </div>
    </body>
    </html>
    "#;

    let metadata = scraper
        .parse_metadata(html_content, "https://www.javlibrary.com/en/?v=javabp001")
        .unwrap();

    assert_eq!(metadata.number, "ABP-001");
    assert!(metadata.title.contains("Test JAV Movie"));
    assert_eq!(metadata.release, "2024-01-15");
    assert_eq!(metadata.runtime, "120 min");
    assert_eq!(metadata.director, "Test Director");
    assert_eq!(metadata.studio, "Test Studio");
    assert_eq!(metadata.label, "Test Label");
    assert_eq!(metadata.series, "Test Series");
    assert!(metadata.cover.contains("abp001.jpg"));
    assert_eq!(metadata.actor.len(), 2);
    assert!(metadata.actor.contains(&"Actress One".to_string()));
    assert_eq!(metadata.tag.len(), 2);
    assert!(metadata.tag.contains(&"Drama".to_string()));
}

#[test]
fn test_mgstage_parse_search_results() {
    let scraper = MgstageScraper::new();

    let html_content = r#"
        <html>
            <body>
                <a href="/product/product_detail/SIRO-123/">SIRO-123</a>
                <a href="/product/product_detail/SIRO-456/">SIRO-456</a>
            </body>
        </html>
    "#;

    let result = scraper.parse_search_results(html_content, "SIRO-123").unwrap();
    assert_eq!(result, "https://www.mgstage.com/product/product_detail/SIRO-123/");
}

#[test]
fn test_mgstage_parse_detail_metadata() {
    let scraper = MgstageScraper::new();

    let html_content = r#"
        <html>
            <head><title>Test Movie Title - Mgstage</title></head>
            <body>
                <table>
                    <tr><th>品番：</th><td>SIRO-123</td></tr>
                    <tr><th>配信開始日：</th><td>2023-01-15</td></tr>
                    <tr><th>収録時間：</th><td>120min</td></tr>
                    <tr><th>メーカー：</th><td><a href="/maker">Prestige</a></td></tr>
                    <tr><th>レーベル：</th><td><a href="/label">SIRO</a></td></tr>
                    <tr><th>シリーズ：</th><td><a href="/series">Amateur Series</a></td></tr>
                </table>
                <a class="link_magnify" href="https://image.mgstage.com/cover.jpg">Cover</a>
                <a class="sample_image" href="https://image.mgstage.com/sample1.jpg">Sample 1</a>
                <a class="sample_image" href="https://image.mgstage.com/sample2.jpg">Sample 2</a>
            </body>
        </html>
    "#;

    let metadata = scraper.parse_detail_metadata(html_content, "https://www.mgstage.com/product/product_detail/SIRO-123/").unwrap();

    assert!(metadata.title.contains("Test Movie Title"));
    assert_eq!(metadata.number, "SIRO-123");
    assert_eq!(metadata.release, "2023-01-15");
    assert_eq!(metadata.runtime, "120");
    assert_eq!(metadata.studio, "Prestige");
    assert_eq!(metadata.label, "SIRO");
    assert_eq!(metadata.series, "Amateur Series");
    assert_eq!(metadata.cover, "https://image.mgstage.com/cover.jpg");
    // Note: Screenshots extraction may vary based on HTML structure
    // In real HTML, screenshots are present but test HTML structure may differ
    assert_eq!(metadata.extrafanart.len(), 2);
}

#[test]
fn test_tmdb_scraper_parse() {
    let scraper = TmdbScraper::new();

    let html_content = r#"
    <html>
    <head>
        <meta property="og:title" content="Test Movie (2024)" />
        <meta property="og:description" content="A test movie description" />
        <meta property="og:image" content="/path/to/poster.jpg" />
    </head>
    <body>
        <div><span class="release">2024-03-15</span></div>
        <span class="runtime">120 min</span>
        <span class="genres"><a>Action</a><a>Drama</a></span>
    </body>
    </html>
    "#;

    let metadata = scraper
        .parse_metadata(html_content, "https://www.themoviedb.org/movie/123456")
        .unwrap();

    assert_eq!(metadata.title, "Test Movie (2024)");
    assert_eq!(metadata.outline, "A test movie description");
    assert!(metadata.cover.contains("poster.jpg"));
    assert_eq!(metadata.release, "2024-03-15");
    assert_eq!(metadata.runtime, "120 min");
    assert_eq!(metadata.tag, vec!["Action", "Drama"]);
    assert_eq!(metadata.source, ""); // Not set by parse_metadata, set by scrape()
}

#[test]
fn test_jav321_parse_metadata() {
    let scraper = Jav321Scraper::new();

    let html_content = r#"
        <html>
            <body>
                <div class="panel-heading"><h3>Test Movie Title<small>2023</small></h3></div>
                <b>品番</b>: ssis-123<br>
                <b>Release Date</b>: 2023-01-15<br>
                <b>Runtime</b>: 120 minutes<br>
                <b>メーカー</b>: <a href="/maker/1">Prestige</a><br><b>ジャンル
                <a href="/genre/1">Drama</a>
                <a href="/genre/2">Amateur</a>
                <img class="img-responsive" src="https://www.jav321.com/cover.jpg">
                <a href="https://www.jav321.com/digital/video/ssis123/screenshot1.jpg">
                <a href="/mono/actjpgs/actress1.jpg">Actress Name (Alias)</a>
            </body>
        </html>
    "#;

    let metadata = scraper.parse_detail_metadata(html_content, "https://jp.jav321.com/video/ssis-123").unwrap();

    assert!(metadata.title.contains("Test Movie Title"));
    assert_eq!(metadata.number, "SSIS-123");
    assert_eq!(metadata.release, "2023-01-15");
    assert_eq!(metadata.runtime, "120");
    assert_eq!(metadata.studio, "Prestige");
    assert_eq!(metadata.tag.len(), 2);
    assert!(!metadata.actor.is_empty());
    assert_eq!(metadata.actor[0], "Actress Name");
}

#[test]
fn test_jav321_missing_title_error() {
    let scraper = Jav321Scraper::new();

    let html_content = r#"
        <html><body><b>品番</b>: ssis-123<br></body></html>
    "#;

    let result = scraper.parse_detail_metadata(html_content, "https://jp.jav321.com/video/ssis-123");

    assert!(result.is_err());
    assert!(result.unwrap_err().to_string().contains("title"));
}

#[test]
fn test_javdb_parse_metadata() {
    let scraper = JavdbScraper::new();

    let html_content = r#"
    <html>
        <head>
            <title>SSIS-123 Test JAV Movie Title - JavDB</title>
        </head>
        <body>
            <img src="https://javdb.com/covers/ssis123.jpg" class="video-cover" />
            <span class="value">2024-01-15</span>
            <span class="value">120 minute(s)</span>
            <a href="/directors/test-director">Test Director</a>
            <a href="/makers/test-studio">Test Studio</a>
            <a href="/actors/actress1"><strong>Actress One</strong></a>
            <a href="/actors/actress2"><strong>Actress Two</strong></a>
            <a href="/tags/drama">Drama</a>
            <a href="/tags/romance">Romance</a>
        </body>
    </html>
    "#;

    let metadata = scraper
        .parse_metadata(html_content, "https://javdb.com/v/abc123")
        .unwrap();

    assert_eq!(metadata.number, "SSIS-123");
    assert!(metadata.title.contains("Test JAV Movie Title"));
    assert!(metadata.cover.contains("ssis123.jpg"));
    assert_eq!(metadata.release, "2024-01-15");
    assert_eq!(metadata.runtime, "120");
    assert_eq!(metadata.director, "Test Director");
    assert_eq!(metadata.studio, "Test Studio");
    assert_eq!(metadata.actor.len(), 2);
    assert_eq!(metadata.actor[0], "Actress One");
    assert_eq!(metadata.tag.len(), 2);
    assert!(metadata.tag.contains(&"Drama".to_string()));
}

#[test]
fn test_javdb_parse_search_results() {
    let scraper = JavdbScraper::new();

    let search_html = r#"
    <div class="movie-list">
        <div class="item">
            <a href="/v/abc123" class="box">
                <div class="uid">SSIS-123</div>
                <div class="video-title">Test Movie Title</div>
            </a>
        </div>
    </div>
    "#;

    let detail_path = scraper.parse_search_results(search_html, "SSIS-123").unwrap();
    assert_eq!(detail_path, "/v/abc123");
}

#[test]
fn test_javdb_missing_title_error() {
    let scraper = JavdbScraper::new();

    let html_content = r#"
    <html>
        <body>
            <img src="https://javdb.com/covers/test.jpg" class="video-cover" />
        </body>
    </html>
    "#;

    let result = scraper.parse_metadata(html_content, "https://javdb.com/v/test");

    assert!(result.is_err());
    assert!(result
        .unwrap_err()
        .to_string()
        .contains("Failed to extract title"));
}

#[test]
fn test_tokyohot_scraper_parse() {
    let scraper = TokyohotScraper::new();

    let html_content = r#"
    <html>
    <head>
        <title>Tokyo-Hot n0001</title>
        <meta property="og:image" content="https://example.com/th-cover.jpg" />
    </head>
    <body>
        <h2 class="title">Test Tokyo-Hot Movie Title</h2>
        <img class="package" src="https://example.com/package.jpg" />
        <dl class="info">
            <dt>配信開始日:</dt><dd>2024-01-15</dd>
            <dt>収録時間:</dt><dd>120分</dd>
            <dt>監督:</dt><dd>Test Director</dd>
            <dt>シリーズ:</dt><dd>Test Series</dd>
        </dl>
        <div class="cast">
            <a class="actress">Actress One</a>
            <a class="actress">Actress Two</a>
        </div>
        <div class="genre">
            <a class="genre">Hardcore</a>
            <a class="genre">Creampie</a>
        </div>
        <div class="description">
            This is a test Tokyo-Hot movie description with uncensored content.
        </div>
    </body>
    </html>
    "#;

    let metadata = scraper
        .parse_metadata(html_content, "https://www.tokyo-hot.com/product/?q=n0001")
        .unwrap();

    assert_eq!(metadata.number, "Tokyo-Hot N0001");
    assert!(metadata.title.contains("Test Tokyo-Hot Movie Title"));
    assert_eq!(metadata.release, "2024-01-15");
    assert_eq!(metadata.runtime, "120分");
    assert_eq!(metadata.studio, "Tokyo-Hot");
    assert_eq!(metadata.director, "Test Director");
    assert_eq!(metadata.series, "Test Series");
    // Cover can be either package or og:image
    assert!(!metadata.cover.is_empty());
    assert!(metadata.cover.contains("package.jpg") || metadata.cover.contains("th-cover.jpg"));
    assert_eq!(metadata.actor.len(), 2);
    assert!(metadata.tag.len() >= 3); // 2 genres + "Uncensored"
    assert!(metadata.tag.contains(&"Uncensored".to_string()));
    assert!(!metadata.outline.is_empty());
}

#[test]
fn test_fc2_scraper_parse() {
    let scraper = Fc2Scraper::new();

    let html_content = r#"
    <html>
    <head>
        <title>FC2-PPV-1234567</title>
        <meta property="og:image" content="https://example.com/fc2-cover.jpg" />
    </head>
    <body>
        <h2 class="items_article_headerInfo">Test FC2 Movie Title</h2>
        <div class="items_article_MainitemThumb">
            <img src="https://example.com/thumbnail.jpg" />
        </div>
        <p class="items_article_info">
            販売日: 2024-01-15
            再生時間: 60分
        </p>
        <a class="items_article_SellerName">Test Seller</a>
        <div class="tag">
            <a>Amateur</a>
            <a>POV</a>
        </div>
        <div class="items_article_MainitemComment">
            This is a test FC2 movie description with details about the content.
        </div>
    </body>
    </html>
    "#;

    let metadata = scraper
        .parse_metadata(html_content, "https://adult.contents.fc2.com/article/1234567/")
        .unwrap();

    assert_eq!(metadata.number, "FC2-PPV-1234567");
    assert!(metadata.title.contains("Test FC2 Movie Title"));
    assert_eq!(metadata.release, "2024-01-15");
    assert_eq!(metadata.runtime, "60分");
    assert_eq!(metadata.studio, "FC2");
    assert_eq!(metadata.label, "FC2-PPV");
    assert_eq!(metadata.director, "Test Seller");
    // Cover can be either thumbnail or og:image
    assert!(!metadata.cover.is_empty());
    assert!(
        metadata.cover.contains("thumbnail.jpg") || metadata.cover.contains("fc2-cover.jpg")
    );
    assert_eq!(metadata.tag.len(), 2);
    assert!(!metadata.outline.is_empty());
}

#[test]
fn test_avmoo_scraper_parse() {
    let scraper = AvmooScraper::new();

    let html_content = r#"
    <html>
    <head>
        <title>ABP-001 - AVMOO</title>
    </head>
    <body>
        <div class="container">
            <h3>ABP-001 Test Movie Title</h3>
            <a class="bigImage">
                <img src="https://example.com/covers/abp001.jpg" />
            </a>
            <div class="info">
                <p><span class="header">發行日期:</span> 2024-01-15</p>
                <p><span class="header">長度:</span> 120分鐘</p>
                <p><span class="header">導演:</span> Test Director</p>
                <p><span class="header">製作商:</span> Test Studio</p>
                <p><span class="header">發行商:</span> Test Label</p>
                <p><span class="header">系列:</span> Test Series</p>
            </div>
            <div id="avatar-waterfall">
                <a><div class="photo-info"><span>Actress One</span></div></a>
                <a><div class="photo-info"><span>Actress Two</span></div></a>
            </div>
            <div class="genre">
                <a>Drama</a>
                <a>Romance</a>
            </div>
        </div>
    </body>
    </html>
    "#;

    let metadata = scraper
        .parse_metadata(html_content, "https://avmoo.com/movie/ABP-001")
        .unwrap();

    assert_eq!(metadata.number, "ABP-001");
    assert!(metadata.title.contains("Test Movie Title"));
    assert_eq!(metadata.release, "2024-01-15");
    assert_eq!(metadata.runtime, "120分鐘");
    assert_eq!(metadata.director, "Test Director");
    assert_eq!(metadata.studio, "Test Studio");
    assert!(metadata.cover.contains("abp001.jpg"));
    assert_eq!(metadata.actor.len(), 2);
    assert_eq!(metadata.tag.len(), 2);
}

#[test]
fn test_dmm_scraper_parse() {
    let scraper = DmmScraper::new();

    let html_content = r#"
    <html>
    <head>
        <title>SSIS-123 Test Movie - DMM</title>
    </head>
    <body>
        <h1 id="title">テストJAVムービー</h1>
        <div class="img">
            <img src="//pics.dmm.co.jp/digital/video/ssis00123/ssis00123pl.jpg" />
        </div>
        <table class="mg-b20">
            <tr><td class="nw">発売日：</td><td>2024-01-15</td></tr>
            <tr><td class="nw">収録時間：</td><td>120分</td></tr>
            <tr><td class="nw">監督：</td><td>Test Director</td></tr>
            <tr><td class="nw">メーカー：</td><td>Test Studio</td></tr>
            <tr><td class="nw">レーベル：</td><td>Test Label</td></tr>
            <tr><td class="nw">シリーズ：</td><td>Test Series</td></tr>
        </table>
        <span id="performer">
            <a>Actress One</a>
            <a>Actress Two</a>
        </span>
        <table class="mg-b20">
            <tr><td><a href="/genre/1/">Drama</a></td></tr>
            <tr><td><a href="/genre/2/">Romance</a></td></tr>
        </table>
        <div class="mg-b20 lh4">
            <p>This is a test movie description for integration testing.</p>
        </div>
    </body>
    </html>
    "#;

    let metadata = scraper
        .parse_metadata(
            html_content,
            "https://www.dmm.co.jp/mono/dvd/-/detail/=/cid=ssis00123/",
        )
        .unwrap();

    assert_eq!(metadata.title, "テストJAVムービー");
    assert_eq!(metadata.release, "2024-01-15");
    assert_eq!(metadata.runtime, "120分");
    assert_eq!(metadata.director, "Test Director");
    assert_eq!(metadata.studio, "Test Studio");
    assert_eq!(metadata.label, "Test Label");
    assert_eq!(metadata.series, "Test Series");
    assert!(metadata.cover.contains("ssis00123pl.jpg"));
    assert_eq!(metadata.actor.len(), 2);
    assert!(metadata.actor.contains(&"Actress One".to_string()));
    assert_eq!(metadata.tag.len(), 2);
    assert!(metadata.tag.contains(&"Drama".to_string()));
    assert!(metadata.outline.contains("test movie description"));
}

#[test]
fn test_dmm_metadata_parsing_completeness() {

    let scraper = DmmScraper::new();

    // Test with comprehensive HTML
    let html_content = r#"
    <html>
    <body>
        <h1 id="title">テストタイトル Test Title</h1>
        <div class="img">
            <img src="//pics.dmm.co.jp/digital/video/ssis00123/ssis00123pl.jpg" />
        </div>
        <table class="mg-b20">
            <tr><td class="nw">発売日：</td><td>2024-01-15</td></tr>
            <tr><td class="nw">収録時間：</td><td>120分</td></tr>
            <tr><td class="nw">監督：</td><td>Test Director</td></tr>
            <tr><td class="nw">メーカー：</td><td>S1 NO.1 STYLE</td></tr>
            <tr><td class="nw">レーベル：</td><td>S1 NO.1 STYLE</td></tr>
            <tr><td class="nw">シリーズ：</td><td>Test Series</td></tr>
        </table>
        <span id="performer">
            <a>Test Actress</a>
        </span>
        <table class="mg-b20">
            <tr><td><a href="/genre/1/">ドラマ</a></td></tr>
            <tr><td><a href="/genre/2/">単体作品</a></td></tr>
        </table>
        <div class="mg-b20 lh4">
            <p>This is a test description for the movie.</p>
        </div>
    </body>
    </html>
    "#;

    let metadata = scraper
        .parse_metadata(
            html_content,
            "https://www.dmm.co.jp/mono/dvd/-/detail/=/cid=ssis00123/",
        )
        .unwrap();

    // Verify all critical fields are extracted
    assert!(!metadata.title.is_empty(), "Title should be extracted");
    assert!(!metadata.cover.is_empty(), "Cover should be extracted");
    assert!(
        !metadata.release.is_empty(),
        "Release date should be extracted"
    );
    assert!(!metadata.runtime.is_empty(), "Runtime should be extracted");
    assert!(!metadata.studio.is_empty(), "Studio should be extracted");
    assert!(!metadata.actor.is_empty(), "Actors should be extracted");
    assert!(!metadata.tag.is_empty(), "Tags should be extracted");

    println!("✓ DMM Metadata Extraction Test Passed");
    println!("  Title: {}", metadata.title);
    println!("  Studio: {}", metadata.studio);
    println!("  Actors: {:?}", metadata.actor);
    println!("  Tags: {:?}", metadata.tag);
}

#[test]
fn javdb_search_falls_back_to_first_result() {
    let scraper = JavdbScraper::new();
    let page = r#"
    <div class="movie-list">
        <a href="/v/first" class="box"><div class="uid">ABC-001</div></a>
        <a href="/v/second" class="box"><div class="uid">ABC-002</div></a>
    </div>"#;
    assert_eq!(scraper.parse_search_results(page, "abc-002").unwrap(), "/v/second");
    assert_eq!(scraper.parse_search_results(page, "XYZ-999").unwrap(), "/v/first");
    assert_eq!(scraper.parse_search_results(page, "0001ABC-002").unwrap(), "/v/second");
}

#[test]
fn javdb_search_without_results_is_an_error() {
    let scraper = JavdbScraper::new();
    let err = scraper.parse_search_results("<html><body></body></html>", "ABC-001").unwrap_err();
    assert_eq!(err, "[JavDB] No search results found for: ABC-001");
}

#[test]
fn javdb_detail_url_out_of_range() {
    let scraper = JavdbScraper::new();
    let err = scraper.extract_detail_url_from_html("<a class=\"x\" href=\"/v/a\">", 3).unwrap_err();
    assert_eq!(err, "[JavDB] Failed to extract detail URL at index 3");
    assert_eq!(
        scraper.extract_detail_url_from_html("<a class=\"x\" href=\"/v/a\">", 0).unwrap(),
        "/v/a"
    );
}

#[test]
fn javdb_missing_cover_is_an_error() {
    let scraper = JavdbScraper::new();
    let page = "<html><head><title>ABC-001 Some Title - JavDB</title></head><body></body></html>";
    let err = scraper.parse_metadata(page, "https://javdb.com/v/x").unwrap_err();
    assert_eq!(err, "[JavDB] Failed to extract cover image from page");
}

#[test]
fn javdb_clean_movie_id() {
    assert_eq!(JavdbScraper::clean_movie_id("0123ABC-456"), Some("ABC-456".to_string()));
    assert_eq!(JavdbScraper::clean_movie_id("ABC"), None);
}

#[test]
fn dmm_number_from_content_id() {
    let scraper = DmmScraper::new();
    assert_eq!(scraper.number_from_cid("ssis00123"), "SSIS--123");
    assert_eq!(scraper.number_from_cid("abc123"), "ABC-123");
    assert_eq!(scraper.number_from_cid("123"), "123");
}

#[test]
fn dmm_search_page_links() {
    let scraper = DmmScraper::new();
    let dvd = r#"<a href="/mono/dvd/-/detail/=/cid=abc00001/">x</a>
                 <a href="/digital/videoa/-/detail/=/cid=abc00001/">y</a>"#;
    assert_eq!(
        scraper.search_dual_format(dvd, "abc00001").unwrap(),
        "https://www.dmm.co.jp/mono/dvd/-/detail/=/cid=abc00001/"
    );
    let digital = r#"<a href="https://www.dmm.co.jp/digital/videoa/-/detail/=/cid=abc00001/">y</a>"#;
    assert_eq!(
        scraper.search_dual_format(digital, "abc00001").unwrap(),
        "https://www.dmm.co.jp/digital/videoa/-/detail/=/cid=abc00001/"
    );
    assert_eq!(
        scraper.search_dual_format("<p>nothing</p>", "abc00001").unwrap_err(),
        "No DMM product page found for: abc00001"
    );
}

#[test]
fn dmm_info_table_rows() {
    let scraper = DmmScraper::new();
    let page = r#"<table class="mg-b20">
        <tr><td class="nw">監督：</td><td> A </td></tr>
        <tr><td class="nw">監督：</td><td>B</td></tr>
        <tr><td class="nw">空：</td><td>  </td></tr>
    </table>"#;
    let table = scraper.parse_info_table(page);
    assert_eq!(
        table,
        vec![
            ("監督：".to_string(), "A".to_string()),
            ("監督：".to_string(), "B".to_string())
        ]
    );
    assert_eq!(moviemeta::pages::info_get(&table, "監督："), Some("B".to_string()));
    assert_eq!(moviemeta::pages::info_get(&table, "空："), None);
}

#[test]
fn tmdb_rating_is_a_tenth_of_the_percentage() {
    let scraper = TmdbScraper::new();
    let page = r#"<html><head><meta property="og:title" content="T"/></head>
        <body><div class="user_score_chart" data-percent="85"></div></body></html>"#;
    let m = scraper.parse_metadata(page, "https://www.themoviedb.org/movie/42?language=en").unwrap();
    assert_eq!(m.userrating, "8.5");
    assert_eq!(m.number, "42");
    let page2 = r#"<div class="user_score_chart" data-percent="7"></div>"#;
    assert_eq!(scraper.parse_metadata(page2, "x/1").unwrap().userrating, ".7");
    let page3 = r#"<div class="user_score_chart" data-percent="n/a"></div>"#;
    assert_eq!(scraper.parse_metadata(page3, "x/1").unwrap().userrating, "");
}

#[test]
fn imdb_votes_and_rating() {
    let scraper = ImdbScraper::new();
    let page = r#"<div data-testid="hero-rating-bar__aggregate-rating__score"><span>7.1/10</span></div>
        <div class="TotalRating">1,234 votes</div>"#;
    let m = scraper.parse_metadata(page, "https://www.imdb.com/title/tt42/").unwrap();
    assert_eq!(m.userrating, "7.1");
    assert_eq!(m.uservotes, 1234);
    assert_eq!(m.number, "tt42");
    let page2 = r#"<div class="TotalRating">1.2M</div>"#;
    assert_eq!(scraper.parse_metadata(page2, "x").unwrap().uservotes, 0);
}

#[test]
fn mgstage_search_without_match_takes_first() {
    let scraper = MgstageScraper::new();
    let page = r#"<a href="/product/product_detail/AAA-1/">a</a><a href="/product/product_detail/BBB-2">b</a>"#;
    assert_eq!(
        scraper.parse_search_results(page, "bbb-2").unwrap(),
        "https://www.mgstage.com/product/product_detail/BBB-2/"
    );
    assert_eq!(
        scraper.parse_search_results(page, "ZZZ").unwrap(),
        "https://www.mgstage.com/product/product_detail/AAA-1/"
    );
    assert_eq!(
        scraper.parse_search_results("<p></p>", "ZZZ").unwrap_err(),
        "No search results found for 'ZZZ'"
    );
}

#[test]
fn mgstage_table_cells() {
    let scraper = MgstageScraper::new();
    let page = r#"<table><tr><th>品番：</th><td> ABC-123 </td></tr>
        <tr><th>メーカー：</th><td><a href="/m">Maker &amp; Co</a></td></tr></table>"#;
    assert_eq!(scraper.extract_table_value_opt(page, "品番："), Some("ABC-123".to_string()));
    assert_eq!(scraper.extract_table_value_opt(page, "無い："), None);
    assert_eq!(scraper.extract_table_link(page, "メーカー："), Some("Maker & Co".to_string()));
}

#[test]
fn javlibrary_number_from_address() {
    let scraper = JavlibraryScraper::new();
    let page = r#"<h3 class="post-title text">Some   Title</h3><img id="video_jacket_img" src="/c.jpg">"#;
    let m = scraper.parse_metadata(page, "https://www.javlibrary.com/en/?v=javabc12&x=1").unwrap();
    assert_eq!(m.number, "ABC12");
    assert_eq!(m.title, "Some Title");
    assert_eq!(m.cover, "https://www.javlibrary.com/c.jpg");
}

#[test]
fn tokyohot_without_title_is_an_error() {
    let scraper = TokyohotScraper::new();
    let err = scraper.parse_metadata("<p></p>", "https://www.tokyo-hot.com/product/?q=n1").unwrap_err();
    assert_eq!(err, "Failed to extract title from Tokyo-Hot");
}

#[test]
fn tokyohot_lists_pair_labels_with_values() {
    let scraper = TokyohotScraper::new();
    let page = r#"<dl class="info"><dt>監督:</dt><dd>D</dd><dt>シリーズ:</dt><dd>S</dd></dl>"#;
    assert_eq!(
        scraper.extract_info_from_dl(page),
        vec![
            ("監督:".to_string(), "D".to_string()),
            ("シリーズ:".to_string(), "S".to_string())
        ]
    );
}

#[test]
fn fc2_uses_og_image_without_thumbnail() {
    let scraper = Fc2Scraper::new();
    let page = r#"<html><head><meta property="og:image" content="https://x/og.jpg"/></head>
        <body><h2 class="items_article_headerInfo">T</h2></body></html>"#;
    let m = scraper.parse_metadata(page, "https://adult.contents.fc2.com/article/77/").unwrap();
    assert_eq!(m.cover, "https://x/og.jpg");
    assert_eq!(m.number, "FC2-PPV-77");
    assert_eq!(m.actor, vec!["Amateur".to_string()]);
}

#[test]
fn avmoo_missing_cover_is_an_error() {
    let scraper = AvmooScraper::new();
    let page = r#"<div class="container"><h3>ABP-001 Title</h3></div>"#;
    let err = scraper.parse_metadata(page, "https://avmoo.com/movie/abp-001").unwrap_err();
    assert_eq!(err, "Failed to extract cover image from AVMOO");
}
