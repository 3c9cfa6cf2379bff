use moviemeta::number_parser::{
    clean_filename, convert_to_content_id, convert_to_display_id, extract_part_from_suffix,
    get_number, insert_hyphens, is_uncensored, parse_number, ParsedNumber, ParserConfig,
};

#[test]
fn test_get_number_basic() {
    assert_eq!(get_number("ABC-123.mp4", None).unwrap(), "ABC-123");
    assert_eq!(get_number("XYZ_456.avi", None).unwrap(), "XYZ-456");
}

#[test]
fn test_get_number_with_suffix() {
    assert_eq!(get_number("ABC-123-C.mp4", None).unwrap(), "ABC-123");
    assert_eq!(get_number("ABC-123-U.mp4", None).unwrap(), "ABC-123");
    assert_eq!(get_number("ABC-123-UC.mp4", None).unwrap(), "ABC-123");
    assert_eq!(get_number("ABC-123ch.mp4", None).unwrap(), "ABC-123");
}

#[test]
fn test_get_number_fc2() {
    let result = get_number("FC2-PPV-1234567.mp4", None).unwrap();
    assert!(result.contains("FC2"));
}

#[test]
fn test_get_number_tokyo_hot() {
    assert_eq!(get_number("tokyo-hot-n1234.mp4", None).unwrap(), "n1234");
    assert_eq!(get_number("k0123.avi", None).unwrap(), "k0123");
}

#[test]
fn test_get_number_carib() {
    assert_eq!(
        get_number("carib-123456-789.mp4", None).unwrap(),
        "123456-789"
    );
    assert_eq!(
        get_number("caribbeancom-123456_789.mp4", None).unwrap(),
        "123456-789"
    );
}

#[test]
fn test_get_number_1pon() {
    assert_eq!(
        get_number("1pondo_123456_789.mp4", None).unwrap(),
        "123456_789"
    );
}

#[test]
fn test_get_number_heyzo() {
    assert_eq!(get_number("HEYZO-1234.mp4", None).unwrap(), "HEYZO-1234");
    assert_eq!(get_number("heyzo_hd_1234.avi", None).unwrap(), "HEYZO-1234");
}

#[test]
fn test_get_number_heydouga() {
    let result = get_number("heydouga-4017-123.mp4", None).unwrap();
    assert_eq!(result, "heydouga-4017-123");
}

#[test]
fn test_get_number_with_quality_prefix() {
    assert_eq!(get_number("FHD-ABC-123.mp4", None).unwrap(), "ABC-123");
    assert_eq!(get_number("1080p_XYZ-456.mkv", None).unwrap(), "XYZ-456");
}

#[test]
fn test_get_number_cd_marker() {
    assert_eq!(get_number("ABC-123-CD1.mp4", None).unwrap(), "ABC-123");
    assert_eq!(get_number("ABC-123-cd2.avi", None).unwrap(), "ABC-123");
}

#[test]
fn test_get_number_custom_regex() {
    let custom = r"CUSTOM-\d+";
    assert_eq!(
        get_number("prefix_CUSTOM-999_suffix.mp4", Some(custom)).unwrap(),
        "CUSTOM-999"
    );
}

#[test]
fn test_is_uncensored_builtin() {
    assert!(is_uncensored("123456-789", None));
    assert!(is_uncensored("HEYZO-1234", None));
    assert!(is_uncensored("n1234", None));
    assert!(is_uncensored("red-123", None));
    assert!(is_uncensored("xxx-av-12345", None));
}

#[test]
fn test_is_uncensored_custom_prefix() {
    assert!(is_uncensored("CUSTOM-123", Some("CUSTOM")));
    assert!(is_uncensored("FOO-456", Some("FOO,BAR")));
    assert!(!is_uncensored("ABC-123", Some("CUSTOM,FOO")));
}

#[test]
fn test_is_censored() {
    assert!(!is_uncensored("ABC-123", None));
    assert!(!is_uncensored("MDBK-001", None));
    assert!(!is_uncensored("SSIS-456", None));
}

#[test]
fn test_western_format() {
    assert_eq!(
        get_number("x-art.18.05.15.mp4", None).unwrap(),
        "x-art.18.05.15"
    );
}

// New tests for filename cleaning functionality

#[test]
fn test_clean_website_tags() {
    // Test various website tag patterns
    assert_eq!(
        get_number("[Thz.la]jufd-643.mp4", None).unwrap(),
        "JUFD-643"
    );
    assert_eq!(
        get_number("[7sht.me]SSIS-123.mp4", None).unwrap(),
        "SSIS-123"
    );
    assert_eq!(
        get_number("[ses23.com]ABC-456.avi", None).unwrap(),
        "ABC-456"
    );
}

#[test]
fn test_clean_email_username_prefixes() {
    // Test email/username@ patterns
    let result = get_number("roger92402094@www.sexinsex.net@AVGL-012.avi", None).unwrap();
    assert_eq!(result, "AVGL-012");
}

#[test]
fn test_clean_domain_prefixes() {
    // Test domain.com- patterns
    // Note: BEB077 is automatically normalized to BEB-077 for better metadata matching
    assert_eq!(get_number("jp.myav.tv-BEB077.avi", None).unwrap(), "BEB-077");
    assert_eq!(
        get_number("www.site.com-ABC-123.mp4", None).unwrap(),
        "ABC-123"
    );
    // With dash in original, it's preserved
    assert_eq!(
        get_number("jp.myav.tv-BEB-077.avi", None).unwrap(),
        "BEB-077"
    );
}

#[test]
fn test_clean_quality_suffixes() {
    // Test quality marker removal
    assert_eq!(get_number("CZBD-015FULLHD.mp4", None).unwrap(), "CZBD-015");
    assert_eq!(get_number("ABC-123-FHD.mp4", None).unwrap(), "ABC-123");
    assert_eq!(get_number("XYZ-456-1080P.mkv", None).unwrap(), "XYZ-456");
    assert_eq!(get_number("TEST-789-4K.mp4", None).unwrap(), "TEST-789");
    assert_eq!(get_number("MOVIE-001-H265.mp4", None).unwrap(), "MOVIE-001");
}

#[test]
fn test_clean_combined_patterns() {
    // Test multiple cleaning patterns at once
    assert_eq!(
        get_number("[Thz.la]jufd-643-FHD.mp4", None).unwrap(),
        "JUFD-643"
    );
    assert_eq!(
        get_number("[site.com]ABC-123-1080P-C.mp4", None).unwrap(),
        "ABC-123"
    );
}

#[test]
fn test_clean_part_markers() {
    // Test part marker removal (cd1, cd2, etc.)
    assert_eq!(get_number("ABC-123-cd1.mp4", None).unwrap(), "ABC-123");
    assert_eq!(get_number("XYZ-456-part2.avi", None).unwrap(), "XYZ-456");
}

#[test]
fn test_real_world_problematic_files() {
    // Real filenames from user's failed list
    assert_eq!(
        get_number("[Thz.la]jufd-643.mp4", None).unwrap(),
        "JUFD-643"
    );

    let result1 = get_number("roger92402094@www.sexinsex.net@AVGL-012.avi", None).unwrap();
    assert_eq!(result1, "AVGL-012");

    // BEB077 without dash stays as BEB077
    assert_eq!(get_number("jp.myav.tv-BEB077.avi", None).unwrap(), "BEB-077");
    assert_eq!(get_number("CZBD-015FULLHD.mp4", None).unwrap(), "CZBD-015");
}

#[test]
fn test_clean_filename_function() {
    // Direct tests of the clean_filename function
    assert_eq!(clean_filename("[Thz.la]jufd-643", None), "jufd-643");
    assert_eq!(clean_filename("site.com-ABC-123", None), "ABC-123");
    assert_eq!(clean_filename("MOVIE-1080P", None), "MOVIE");
    // TEST-FHD-CD1: FHD is stripped as quality marker, then CD1 is stripped as part marker
    assert_eq!(clean_filename("TEST-FHD-CD1", None), "TEST");
    assert_eq!(clean_filename("MOVIE-PART2", None), "MOVIE");
    // Date prefix stripping
    assert_eq!(clean_filename("0201-SNIS091", None), "SNIS091");
    assert_eq!(clean_filename("20240201-ABC-123", None), "ABC-123");
}

#[test]
fn test_date_prefix_stripping() {
    // Test files with date prefixes
    assert_eq!(get_number("0201-SNIS-091.mp4", None).unwrap(), "SNIS-091");
    // Without dash in code - the date prefix should be stripped
    let result = get_number("0201-SNIS091.mp4", None).unwrap();
    println!("Extracted from '0201-SNIS091.mp4': {}", result);
    // Should extract SNIS091, not 0201-SNIS091
    assert!(
        !result.contains("0201"),
        "Should not contain date prefix '0201'"
    );
    assert!(result.contains("SNIS"), "Should contain 'SNIS'");
}

#[test]
fn test_parentheses_quality_markers() {
    // Priority 1: Strip parenthesized quality markers at start
    // Note: A suffix is now stripped as multi-disc marker
    assert_eq!(
        get_number("(HD)avop-212A.HD.mp4", None).unwrap(),
        "AVOP-212" // A suffix stripped for multi-disc support
    );

    // Verify part_number is extracted correctly
    let parsed = parse_number("(HD)avop-212A.HD.mp4", None).unwrap();
    assert_eq!(parsed.id, "AVOP-212");
    assert_eq!(parsed.part_number, Some(1)); // A = part 1

    assert_eq!(get_number("(FHD)ABC-123.mp4", None).unwrap(), "ABC-123");
    assert_eq!(get_number("(4K)XYZ-456.mp4", None).unwrap(), "XYZ-456");
    assert_eq!(get_number("(1080P)TEST-001.mkv", None).unwrap(), "TEST-001");
}

#[test]
fn test_japanese_text_stripping() {
    // Priority 2: Strip Japanese/Chinese characters (actress names, descriptions)
    // Space + Japanese should be stripped
    assert_eq!(
        get_number("hnd-809 神宮寺ナオ.mp4", None).unwrap(),
        "HND-809"
    );
    assert_eq!(
        get_number("ABC-123 波多野結衣.mp4", None).unwrap(),
        "ABC-123"
    );
    assert_eq!(
        get_number("SSIS-001 明日花キララ.mp4", None).unwrap(),
        "SSIS-001"
    );
    // Full-width space (　) should also be handled
    assert_eq!(
        get_number("IPX-456　桜空もも.mp4", None).unwrap(),
        "IPX-456"
    );
}

#[test]
fn test_quality_markers_mid_string() {
    // Priority 3: Strip quality markers that appear after dashes mid-string
    assert_eq!(
        get_number("DSAMBD-18-H265-1080P.mp4", None).unwrap(),
        "DSAMBD-18"
    );
    assert_eq!(get_number("ABC-123-FHD-720P.mp4", None).unwrap(), "ABC-123");
    assert_eq!(get_number("XYZ-456-X264-HD.mkv", None).unwrap(), "XYZ-456");
    assert_eq!(
        get_number("TEST-001-HEVC-4K.mp4", None).unwrap(),
        "TEST-001"
    );
}

// ===== Dual ID Conversion Tests (Phase 1) =====

#[test]
fn test_convert_to_content_id_standard() {
    // Standard JAV format: ABC-123 → abc00123
    assert_eq!(convert_to_content_id("SSIS-123"), "ssis00123");
    assert_eq!(convert_to_content_id("ABP-1"), "abp00001");
    assert_eq!(convert_to_content_id("MIDE-999"), "mide00999");
    assert_eq!(convert_to_content_id("IPX-456"), "ipx00456");
    assert_eq!(convert_to_content_id("STARS-12345"), "stars12345");
}

#[test]
fn test_convert_to_content_id_with_suffix() {
    // IDs with alphabetic suffixes
    assert_eq!(convert_to_content_id("IPX-123A"), "ipx00123a");
    assert_eq!(convert_to_content_id("SSIS-456Z"), "ssis00456z");
    assert_eq!(convert_to_content_id("ABP-789E"), "abp00789e");
}

#[test]
fn test_convert_to_content_id_fc2() {
    // FC2 special handling
    assert_eq!(convert_to_content_id("FC2-PPV-1234567"), "fc2ppv1234567");
    assert_eq!(convert_to_content_id("FC2-1234567"), "fc21234567");
    assert_eq!(convert_to_content_id("fc2-ppv-123"), "fc2ppv123");
}

#[test]
fn test_convert_to_content_id_heyzo() {
    // HEYZO special handling
    assert_eq!(convert_to_content_id("HEYZO-1234"), "heyzo01234");
    assert_eq!(convert_to_content_id("HEYZO-12"), "heyzo00012");
    assert_eq!(convert_to_content_id("heyzo-999"), "heyzo00999");
}

#[test]
fn test_convert_to_content_id_tokyo_hot() {
    // Tokyo-Hot IDs remain as-is (already in content format)
    assert_eq!(convert_to_content_id("n1234"), "n1234");
    assert_eq!(convert_to_content_id("k0123"), "k0123");
    assert_eq!(convert_to_content_id("red123"), "red123");
}

#[test]
fn test_convert_to_display_id_standard() {
    // Standard content ID to display: abc00123 → ABC-123
    assert_eq!(convert_to_display_id("ssis00123"), "SSIS-123");
    assert_eq!(convert_to_display_id("abp00001"), "ABP-001");
    assert_eq!(convert_to_display_id("mide00999"), "MIDE-999");
    assert_eq!(convert_to_display_id("ipx00012"), "IPX-012");
}

#[test]
fn test_convert_to_display_id_zero_trimming() {
    // Leading zeros trimmed but minimum 3 digits preserved
    assert_eq!(convert_to_display_id("ssis00123"), "SSIS-123");
    assert_eq!(convert_to_display_id("abp00001"), "ABP-001");
    assert_eq!(convert_to_display_id("mide00099"), "MIDE-099");
    assert_eq!(convert_to_display_id("ipx00012"), "IPX-012");
}

#[test]
fn test_convert_to_display_id_fc2() {
    // FC2 special handling
    assert_eq!(convert_to_display_id("fc2ppv1234567"), "FC2-PPV-1234567");
    assert_eq!(convert_to_display_id("fc21234567"), "FC2-1234567");
}

#[test]
fn test_convert_to_display_id_heyzo() {
    // HEYZO special handling
    assert_eq!(convert_to_display_id("heyzo01234"), "HEYZO-1234");
    assert_eq!(convert_to_display_id("heyzo00012"), "HEYZO-12");
}

#[test]
fn test_convert_to_display_id_tokyo_hot() {
    // Tokyo-Hot IDs remain lowercase without hyphen
    assert_eq!(convert_to_display_id("n1234"), "n1234");
    assert_eq!(convert_to_display_id("k0123"), "k123");
    assert_eq!(convert_to_display_id("n01234"), "n1234");
}

#[test]
fn test_roundtrip_conversion_standard() {
    // Display → Content → Display should be identical
    let ids = vec!["SSIS-123", "ABP-001", "MIDE-999", "IPX-456", "STARS-001"];
    for id in ids {
        let content_id = convert_to_content_id(id);
        let back = convert_to_display_id(&content_id);
        assert_eq!(id, back, "Roundtrip failed for {}", id);
    }
}

#[test]
fn test_roundtrip_conversion_special() {
    // Special formats roundtrip
    let ids = vec![
        ("HEYZO-1234", "HEYZO-1234"),
        ("FC2-PPV-1234567", "FC2-PPV-1234567"),
    ];
    for (input, expected) in ids {
        let content_id = convert_to_content_id(input);
        let back = convert_to_display_id(&content_id);
        assert_eq!(expected, back, "Roundtrip failed for {}", input);
    }
}

#[test]
fn test_parse_number_dual_ids() {
    // parse_number() should return both IDs
    let result = parse_number("SSIS-123.mp4", None).unwrap();
    assert_eq!(result.id, "SSIS-123");
    assert_eq!(result.content_id, "ssis00123");
    assert_eq!(result.part_number, None);
}

#[test]
fn test_parse_number_fc2_dual_ids() {
    let result = parse_number("FC2-PPV-1234567.mp4", None).unwrap();
    assert_eq!(result.id, "FC2-PPV-1234567");
    assert_eq!(result.content_id, "fc2ppv1234567");
}

#[test]
fn test_parse_number_heyzo_dual_ids() {
    let result = parse_number("HEYZO-1234.mp4", None).unwrap();
    assert_eq!(result.id, "HEYZO-1234");
    assert_eq!(result.content_id, "heyzo01234");
}

#[test]
fn test_parse_number_tokyo_hot_dual_ids() {
    let result = parse_number("tokyo-hot-n1234.mp4", None).unwrap();
    assert_eq!(result.id, "n1234");
    assert_eq!(result.content_id, "n1234");
    // Note: special_site detection depends on get_number_by_dict matching
    // After Tokyo_Hot_ prefix stripping, the detection path may vary
    // The important part is that ID extraction works correctly
}

#[test]
fn test_parse_number_carib_dual_ids() {
    let result = parse_number("carib-123456-789.mp4", None).unwrap();
    assert_eq!(result.id, "123456-789");
    assert_eq!(result.attributes.special_site, Some("carib".to_string()));
}

#[test]
fn test_parse_number_attributes_cn_sub() {
    let result = parse_number("SSIS-123-C.mp4", None).unwrap();
    assert_eq!(result.id, "SSIS-123");
    assert_eq!(result.attributes.cn_sub, true);
}

#[test]
fn test_parse_number_attributes_uncensored() {
    let result = parse_number("SSIS-123-U.mp4", None).unwrap();
    assert_eq!(result.id, "SSIS-123");
    assert_eq!(result.attributes.uncensored, true);

    let result2 = parse_number("ABP-456-UC.mp4", None).unwrap();
    assert_eq!(result2.id, "ABP-456");
    assert_eq!(result2.attributes.uncensored, true);
}

#[test]
fn test_parse_number_with_config() {
    let mut config = ParserConfig::default();
    // Use regex without capture groups, or set regex_id_match to 0 for whole match
    config.custom_regexs = vec![r"CUSTOM-\d+".to_string()];

    let result = parse_number("prefix_CUSTOM-999_suffix.mp4", Some(&config)).unwrap();
    assert_eq!(result.id, "CUSTOM-999");
}

#[test]
fn test_parse_number_with_capture_groups() {
    let mut config = ParserConfig::default();
    // Regex with capture groups - group 0 is whole match, group 1 is digits
    config.custom_regexs = vec![r"(CUSTOM-\d+)".to_string()];
    config.regex_id_match = 1; // Extract from capture group 1

    let result = parse_number("prefix_CUSTOM-999_suffix.mp4", Some(&config)).unwrap();
    assert_eq!(result.id, "CUSTOM-999");
}

#[test]
fn test_parsed_number_display() {
    // Test Display trait implementation
    let parsed = ParsedNumber::from_id("SSIS-123".to_string());
    assert_eq!(parsed.to_string(), "SSIS-123");
}

#[test]
fn test_parsed_number_into_string() {
    // Test From<ParsedNumber> for String
    let parsed = ParsedNumber::from_id("SSIS-123".to_string());
    let s: String = parsed.into();
    assert_eq!(s, "SSIS-123");
}

#[test]
fn test_content_id_edge_cases() {
    // Very long numbers
    assert_eq!(convert_to_content_id("STARS-123456"), "stars123456");

    // Single digit
    assert_eq!(convert_to_content_id("TEST-1"), "test00001");

    // Underscore instead of hyphen
    assert_eq!(convert_to_content_id("SSIS_123"), "ssis00123");
}

#[test]
fn test_display_id_edge_cases() {
    // Already padded to more than 5
    assert_eq!(convert_to_display_id("stars123456"), "STARS-123456");

    // Minimum padding (3 digits)
    assert_eq!(convert_to_display_id("test00001"), "TEST-001");

    // Large numbers
    assert_eq!(convert_to_display_id("ssis99999"), "SSIS-99999");
}

#[test]
fn test_backward_compatibility_get_number() {
    // get_number() should still work exactly as before but use parse_number() internally
    assert_eq!(get_number("SSIS-123.mp4", None).unwrap(), "SSIS-123");
    assert_eq!(get_number("ABP-001.avi", None).unwrap(), "ABP-001");
    assert_eq!(
        get_number("FC2-PPV-1234567.mp4", None).unwrap(),
        "FC2-PPV-1234567"
    );

    // Custom regex still works
    let custom = r"CUSTOM-\d+";
    assert_eq!(
        get_number("prefix_CUSTOM-999.mp4", Some(custom)).unwrap(),
        "CUSTOM-999"
    );
}

// ===== Phase 2 Enhancement Tests =====

#[test]
fn test_t28_normalization() {
    // T28 prefix normalization: t28, t-28, T28, T-28 → T28-XXX
    assert_eq!(get_number("t28123.mp4", None).unwrap(), "T28-123");
    assert_eq!(get_number("t-28-001.mp4", None).unwrap(), "T28-001");
    assert_eq!(get_number("T28-456.mp4", None).unwrap(), "T28-456");
    assert_eq!(get_number("T-28789.mp4", None).unwrap(), "T28-789");

    // With quality markers
    assert_eq!(get_number("t28123-1080P.mp4", None).unwrap(), "T28-123");
    assert_eq!(get_number("t-28-001-FHD.mkv", None).unwrap(), "T28-001");
}

#[test]
fn test_r18_normalization() {
    // R18 prefix normalization: r18, r-18, R18, R-18 → R18-XXX
    assert_eq!(get_number("r18001.mp4", None).unwrap(), "R18-001");
    assert_eq!(get_number("r-18-123.mp4", None).unwrap(), "R18-123");
    assert_eq!(get_number("R18-456.mp4", None).unwrap(), "R18-456");
    assert_eq!(get_number("R-18789.mp4", None).unwrap(), "R18-789");

    // With quality markers
    assert_eq!(get_number("r18001-HD.mp4", None).unwrap(), "R18-001");
    assert_eq!(get_number("r-18-123-720P.mkv", None).unwrap(), "R18-123");
}

#[test]
fn test_insert_hyphens_function() {
    // Test the insert_hyphens() function directly
    assert_eq!(insert_hyphens("SSIS123"), "SSIS-123");
    assert_eq!(insert_hyphens("ABP1"), "ABP-1");
    assert_eq!(insert_hyphens("IPX456Z"), "IPX-456Z");

    // Already has hyphen - no change
    assert_eq!(insert_hyphens("SSIS-123"), "SSIS-123");
    assert_eq!(insert_hyphens("ABP-1"), "ABP-1");

    // With suffixes
    assert_eq!(insert_hyphens("SSIS123A"), "SSIS-123A");
    assert_eq!(insert_hyphens("ABP999Z"), "ABP-999Z");

    // No alphabetic prefix - return as-is
    assert_eq!(insert_hyphens("12345"), "12345");

    // No numeric part - return as-is
    assert_eq!(insert_hyphens("SSIS"), "SSIS");
}

#[test]
fn test_configurable_removal_strings() {
    // Test configurable removal strings via ParserConfig
    let mut config = ParserConfig::default();
    config.removal_strings = vec![
        "CUSTOM".to_string(),
        "TAG".to_string(),
        "-SPECIAL".to_string(),
    ];

    let result = parse_number("CUSTOMSSIS-123.mp4", Some(&config)).unwrap();
    assert_eq!(result.id, "SSIS-123");

    let result2 = parse_number("TAGIPM-456.mp4", Some(&config)).unwrap();
    assert_eq!(result2.id, "IPM-456");

    let result3 = parse_number("ABP-789-SPECIAL.mp4", Some(&config)).unwrap();
    assert_eq!(result3.id, "ABP-789");
}

#[test]
fn test_t28_r18_with_parse_number() {
    // T28/R18 normalization through parse_number()
    let result = parse_number("t28123.mp4", None).unwrap();
    assert_eq!(result.id, "T28-123");
    assert_eq!(result.content_id, "t2800123");

    let result2 = parse_number("r-18-456.mp4", None).unwrap();
    assert_eq!(result2.id, "R18-456");
    assert_eq!(result2.content_id, "r1800456");
}

#[test]
fn test_clean_filename_t28_r18() {
    // Direct clean_filename tests for T28/R18
    assert_eq!(clean_filename("t28123", None), "T28-123");
    assert_eq!(clean_filename("t-28-001", None), "T28-001");
    assert_eq!(clean_filename("r18456", None), "R18-456");
    assert_eq!(clean_filename("r-18-789", None), "R18-789");
}

#[test]
fn test_clean_filename_with_config() {
    // Test clean_filename with configurable removal strings
    let mut config = ParserConfig::default();
    config.removal_strings = vec!["UNWANTED".to_string(), "-JUNK".to_string()];

    assert_eq!(
        clean_filename("UNWANTEDSSIS-123", Some(&config)),
        "SSIS-123"
    );
    assert_eq!(clean_filename("ABP-456-JUNK", Some(&config)), "ABP-456");
    assert_eq!(
        clean_filename("UNWANTEDIPM-789-JUNK", Some(&config)),
        "IPM-789"
    );
}

#[test]
fn test_multiple_phase2_features() {
    // Test multiple Phase 2 features working together
    let mut config = ParserConfig::default();
    config.removal_strings = vec!["SITE".to_string()];

    // T28 normalization + removal string
    let result = parse_number("SITEt28123.mp4", Some(&config)).unwrap();
    assert_eq!(result.id, "T28-123");

    // R18 normalization + removal string + quality marker
    let result2 = parse_number("SITEr18-456-HD.mp4", Some(&config)).unwrap();
    assert_eq!(result2.id, "R18-456");
}

#[test]
fn test_t28_r18_edge_cases() {
    // Edge cases for T28/R18 normalization

    // With website tags
    assert_eq!(get_number("[site.com]t28123.mp4", None).unwrap(), "T28-123");
    assert_eq!(get_number("[xxx]r18-456.mp4", None).unwrap(), "R18-456");

    // With date prefixes
    assert_eq!(get_number("20240101-t28123.mp4", None).unwrap(), "T28-123");
    assert_eq!(get_number("0201-r18-456.mp4", None).unwrap(), "R18-456");

    // With part markers
    assert_eq!(get_number("t28123-cd1.mp4", None).unwrap(), "T28-123");
    assert_eq!(get_number("r18-456-part2.mp4", None).unwrap(), "R18-456");
}

#[test]
fn test_removal_strings_empty_handling() {
    // Test that empty removal strings are ignored
    let mut config = ParserConfig::default();
    config.removal_strings = vec!["".to_string(), "VALID".to_string(), "".to_string()];

    let result = parse_number("VALIDSSIS-123.mp4", Some(&config)).unwrap();
    assert_eq!(result.id, "SSIS-123");
}

// ===== Phase 3 Multi-Part Detection Tests =====

#[test]
fn test_extract_part_from_suffix_uppercase() {
    // Test letter suffix extraction - uppercase
    let (id, part) = extract_part_from_suffix("SSIS-123-A");
    assert_eq!(id, "SSIS-123");
    assert_eq!(part, Some(1));

    let (id2, part2) = extract_part_from_suffix("ABP-456-B");
    assert_eq!(id2, "ABP-456");
    assert_eq!(part2, Some(2));

    // C is reserved for Chinese subtitles, not treated as part 3
    let (id3, part3) = extract_part_from_suffix("IPX-789-C");
    assert_eq!(id3, "IPX-789-C"); // C not extracted
    assert_eq!(part3, None);

    // D is part 4
    let (id4, part4) = extract_part_from_suffix("IPX-789-D");
    assert_eq!(id4, "IPX-789");
    assert_eq!(part4, Some(4));

    // Y is the last valid part marker (25)
    let (id5, part5) = extract_part_from_suffix("MIDE-001-Y");
    assert_eq!(id5, "MIDE-001");
    assert_eq!(part5, Some(25));
}

#[test]
fn test_extract_part_from_suffix_lowercase() {
    // Test letter suffix extraction - lowercase
    let (id, part) = extract_part_from_suffix("ssis-123-a");
    assert_eq!(id, "ssis-123");
    assert_eq!(part, Some(1));

    let (id2, part2) = extract_part_from_suffix("abp-456-b");
    assert_eq!(id2, "abp-456");
    assert_eq!(part2, Some(2));
}

#[test]
fn test_extract_part_from_suffix_z_excluded() {
    // Z is a special marker, not a part number
    let (id, part) = extract_part_from_suffix("SSIS-123-Z");
    assert_eq!(id, "SSIS-123-Z"); // Z not stripped
    assert_eq!(part, None);

    let (id2, part2) = extract_part_from_suffix("ABP-456-z");
    assert_eq!(id2, "ABP-456-z"); // lowercase z also not stripped
    assert_eq!(part2, None);
}

#[test]
fn test_extract_part_from_suffix_underscore() {
    // Test with underscore separator
    let (id, part) = extract_part_from_suffix("SSIS-123_A");
    assert_eq!(id, "SSIS-123");
    assert_eq!(part, Some(1));

    let (id2, part2) = extract_part_from_suffix("ABP_456_B");
    assert_eq!(id2, "ABP_456");
    assert_eq!(part2, Some(2));
}

#[test]
fn test_extract_part_from_suffix_no_suffix() {
    // No letter suffix
    let (id, part) = extract_part_from_suffix("SSIS-123");
    assert_eq!(id, "SSIS-123");
    assert_eq!(part, None);

    let (id2, part2) = extract_part_from_suffix("FC2-PPV-1234567");
    assert_eq!(id2, "FC2-PPV-1234567");
    assert_eq!(part2, None);
}

#[test]
fn test_parse_number_with_letter_suffix() {
    // Test parse_number extracts part numbers from letter suffixes
    let result = parse_number("SSIS-123-A.mp4", None).unwrap();
    assert_eq!(result.id, "SSIS-123");
    assert_eq!(result.part_number, Some(1));

    let result2 = parse_number("ABP-456-B.mkv", None).unwrap();
    assert_eq!(result2.id, "ABP-456");
    assert_eq!(result2.part_number, Some(2));

    let result3 = parse_number("IPX-789-D.avi", None).unwrap();
    assert_eq!(result3.id, "IPX-789");
    assert_eq!(result3.part_number, Some(4)); // D = 4 (C=3 reserved for attributes)
}

#[test]
fn test_parse_number_letter_suffix_with_attributes() {
    // Test that letter suffix works with other attributes
    // e.g., "SSIS-123-UC-A" → ID="SSIS-123", uncensored=true, part=1
    let result = parse_number("SSIS-123-U-A.mp4", None).unwrap();
    assert_eq!(result.id, "SSIS-123");
    assert_eq!(result.part_number, Some(1));
    assert_eq!(result.attributes.uncensored, true);

    let result2 = parse_number("ABP-456-C-B.mp4", None).unwrap();
    assert_eq!(result2.id, "ABP-456");
    assert_eq!(result2.part_number, Some(2));
    assert_eq!(result2.attributes.cn_sub, true);
}

#[test]
fn test_enhanced_part_markers() {
    // Test enhanced part marker stripping with more flexible patterns
    assert_eq!(get_number("SSIS-123-cd1.mp4", None).unwrap(), "SSIS-123");
    assert_eq!(get_number("ABP-456-cd2.mp4", None).unwrap(), "ABP-456");
    assert_eq!(get_number("IPX-789-part3.mp4", None).unwrap(), "IPX-789");
    assert_eq!(get_number("MIDE-001-pt10.mp4", None).unwrap(), "MIDE-001");
    assert_eq!(
        get_number("STARS-100-disc15.mp4", None).unwrap(),
        "STARS-100"
    );
}

#[test]
fn test_enhanced_part_markers_standalone() {
    // Test standalone part numbers (but only when there's already an ID)
    assert_eq!(get_number("SSIS-123-1.mp4", None).unwrap(), "SSIS-123");
    assert_eq!(get_number("ABP-456-2.mp4", None).unwrap(), "ABP-456");
    assert_eq!(get_number("IPX-789_3.mp4", None).unwrap(), "IPX-789");
}

#[test]
fn test_letter_suffix_edge_cases() {
    // Test edge cases for letter suffix detection

    // Multiple letter suffixes (only last one counts)
    let (id, part) = extract_part_from_suffix("SSIS-123-A-B");
    assert_eq!(id, "SSIS-123-A");
    assert_eq!(part, Some(2)); // B = 2

    // No separator before letter (NOW SUPPORTED - directly attached)
    let (id2, part2) = extract_part_from_suffix("SSIS123A");
    assert_eq!(id2, "SSIS123"); // A is now stripped
    assert_eq!(part2, Some(1)); // A = part 1

    // Letter in middle of ID (not a suffix - no digit before letter)
    let (id3, part3) = extract_part_from_suffix("SSIS-A-123");
    assert_eq!(id3, "SSIS-A-123");
    assert_eq!(part3, None);
}

#[test]
fn test_parse_number_preserves_z_marker() {
    // Z suffix should be preserved as part of the ID, not converted to part number
    let result = parse_number("SSIS-123-Z.mp4", None).unwrap();
    assert_eq!(result.id, "SSIS-123-Z");
    assert_eq!(result.part_number, None);

    let result2 = parse_number("ABP-456Z.mp4", None).unwrap();
    assert_eq!(result2.id, "ABP-456Z");
    assert_eq!(result2.part_number, None);
}

#[test]
fn test_multi_part_with_quality_markers() {
    // Letter suffix with quality markers
    let result = parse_number("SSIS-123-A-1080P.mp4", None).unwrap();
    assert_eq!(result.id, "SSIS-123");
    assert_eq!(result.part_number, Some(1));

    let result2 = parse_number("ABP-456-B-FHD.mkv", None).unwrap();
    assert_eq!(result2.id, "ABP-456");
    assert_eq!(result2.part_number, Some(2));
}

// ===== Phase 4: Configuration Tests =====

#[test]
fn test_parser_config_builder_pattern() {
    // Test builder pattern for ParserConfig
    let config = ParserConfig::new()
        .with_custom_regex(r"CUSTOM-\d+")
        .with_strict_mode(true)
        .with_regex_id_match(1)
        .with_regex_pt_match(2);

    assert_eq!(config.custom_regexs.len(), 1);
    assert_eq!(config.custom_regexs[0], r"CUSTOM-\d+");
    assert_eq!(config.strict_mode, true);
    assert_eq!(config.regex_id_match, 1);
    assert_eq!(config.regex_pt_match, 2);
}

#[test]
fn test_parser_config_multiple_custom_regexs() {
    // Test adding multiple custom regexes
    let config = ParserConfig::new()
        .with_custom_regex(r"CUSTOM1-\d+")
        .with_custom_regex(r"CUSTOM2-\d+")
        .with_custom_regexs(vec![r"CUSTOM3-\d+".to_string(), r"CUSTOM4-\d+".to_string()]);

    assert_eq!(config.custom_regexs.len(), 4);
    assert_eq!(config.custom_regexs[0], r"CUSTOM1-\d+");
    assert_eq!(config.custom_regexs[3], r"CUSTOM4-\d+");
}

#[test]
fn test_parser_config_removal_strings() {
    // Test removal strings configuration
    let config = ParserConfig::new()
        .with_removal_string("UNWANTED")
        .with_removal_string("JUNK");

    // Default removal strings + 2 custom ones
    assert!(config.removal_strings.len() > 2);
    assert!(config.removal_strings.contains(&"UNWANTED".to_string()));
    assert!(config.removal_strings.contains(&"JUNK".to_string()));
}

#[test]
fn test_parser_config_replace_removal_strings() {
    // Test replacing default removal strings
    let config = ParserConfig::new()
        .with_removal_strings(vec!["ONLY1".to_string(), "ONLY2".to_string()]);

    assert_eq!(config.removal_strings.len(), 2);
    assert_eq!(config.removal_strings[0], "ONLY1");
    assert_eq!(config.removal_strings[1], "ONLY2");
}

#[test]
fn test_parser_config_uncensored_prefixes() {
    // Test uncensored prefixes configuration
    let config = ParserConfig::new().with_uncensored_prefixes("CUSTOM,FOO,BAR");

    assert_eq!(config.uncensored_prefixes, "CUSTOM,FOO,BAR");
}

#[test]
fn test_custom_regex_with_different_capture_groups() {
    // Test custom regex with non-default capture group indices
    let mut config = ParserConfig::new();
    config.custom_regexs = vec![r"PREFIX-([A-Z]+-\d+)-SUFFIX".to_string()];
    config.regex_id_match = 1; // First capture group

    let result = parse_number("PREFIX-SSIS-123-SUFFIX.mp4", Some(&config)).unwrap();
    assert_eq!(result.id, "SSIS-123");
}

#[test]
fn test_custom_regex_with_part_number_capture() {
    // Test custom regex that captures both ID and part number
    // Use a pattern that matches the whole filename including extension
    let mut config = ParserConfig::new();
    config.custom_regexs = vec![r"([A-Z]+-\d+)[-_]VOL(\d+)".to_string()];
    config.regex_id_match = 1;
    config.regex_pt_match = 2;
    config.strict_mode = false; // Disable strict mode for this test

    let result = parse_number("SSIS-123-VOL2.mp4", Some(&config)).unwrap();
    assert_eq!(result.id, "SSIS-123");
    assert_eq!(result.part_number, Some(2));
}

#[test]
fn test_strict_mode_manual_enable() {
    // Test manual strict mode - should reject non-standard IDs
    let config = ParserConfig::new().with_strict_mode(true);

    // Standard format should pass
    let result = parse_number("SSIS-123.mp4", Some(&config)).unwrap();
    assert_eq!(result.id, "SSIS-123");

    // Non-standard format with strict mode should fail
    // (assuming the extract logic would produce something non-standard)
    // This is hard to test without a truly non-standard filename that extracts weird IDs
}

#[test]
fn test_auto_strict_mode_activation() {
    // Test auto-strict mode: activates when standard DVD format not detected
    let config = ParserConfig::new(); // strict_mode = false

    // Filename with standard DVD format - strict mode should NOT activate
    let result = parse_number("SSIS-123.mp4", Some(&config)).unwrap();
    assert_eq!(result.id, "SSIS-123");

    // Note: Auto-strict mode is hard to test without filenames that:
    // 1. Don't have standard DVD format in the name
    // 2. Extract to an ID that doesn't match strict pattern
    // Most real-world filenames either have standard format or extract to standard IDs
}

#[test]
fn test_has_standard_dvd_format() {
    // Test the helper function indirectly via parse_number)
    // Filenames with standard format should parse successfully
    assert!(parse_number("ABC-123.mp4", None).is_ok());
    assert!(parse_number("SSIS-001.mp4", None).is_ok());
    assert!(parse_number("MIDE-999.avi", None).is_ok());

    // Filenames with standard format in them should also work
    assert!(parse_number("PREFIX-ABC-123-SUFFIX.mp4", None).is_ok());
}

#[test]
fn test_strict_mode_with_suffix_characters() {
    // Test that strict mode works with multi-disc suffix stripping
    // A/B suffixes are now stripped for multi-disc support
    // Z suffix is preserved (not a disc marker)
    let config = ParserConfig::new().with_strict_mode(true);

    let result = parse_number("SSIS-123A.mp4", Some(&config)).unwrap();
    assert_eq!(result.id, "SSIS-123"); // A stripped as disc marker
    assert_eq!(result.part_number, Some(1)); // A = part 1

    let result2 = parse_number("ABP-456Z.mp4", Some(&config)).unwrap();
    assert_eq!(result2.id, "ABP-456Z"); // Z preserved (not a disc marker)
    assert_eq!(result2.part_number, None);
}

#[test]
fn test_combined_config_features() {
    // Test multiple configuration features working together
    let config = ParserConfig::new()
        .with_custom_regex(r"SPECIAL-([A-Z]+-\d+)")
        .with_removal_string("UNWANTED")
        .with_strict_mode(false) // Disable strict for this test
        .with_regex_id_match(1);

    // Should use custom regex to extract ID
    let result = parse_number("SPECIAL-SSIS-123.mp4", Some(&config)).unwrap();
    assert_eq!(result.id, "SSIS-123");
}


#[test]
fn test_parser_fixes() {
    // Test 1: Japanese title should be stripped
    let result1 = parse_number("AVOP-212-kawaii_10周年SPECIAL企画.mp4", None).unwrap();
    assert_eq!(result1.id, "AVOP-212", "Japanese title not stripped");

    // Test 2: Watermark domain with _
    let result2 = parse_number("AVFAP.NET_okp-103.mp4", None).unwrap();
    assert_eq!(result2.id, "OKP-103", "Watermark with _ not removed");

    // Test 3: Watermark domain with @
    let result3 = parse_number("gg5.co@IPZZ-227-C_GG5.mp4", None).unwrap();
    assert_eq!(result3.id, "IPZZ-227", "Watermark with @ not removed");

    // Test 4: Quality tag in middle with space
    let result4 = parse_number("MVSD267.HD Semen Eat.mkv", None).unwrap();
    assert_eq!(result4.id, "MVSD-267", "Quality tag with space not removed");

    // Test 5: Double spaces and trailing name
    let result5 = parse_number("WANZ-220  TSUBOMI.mkv", None).unwrap();
    assert_eq!(result5.id, "WANZ-220", "Double spaces and name not handled");

    // Test 6: Attached disc C suffix (should be extracted)
    let result6 = parse_number("RCT515C.mp4", None).unwrap();
    assert_eq!(result6.id, "RCT-515", "Attached disc C not extracted");
    assert_eq!(result6.part_number, Some(3), "Disc C part number wrong");

    // Test 7: Separated -C suffix (should NOT be extracted, it's Chinese subtitle)
    let result7 = parse_number("IPZZ-227-C.mp4", None).unwrap();
    assert_eq!(result7.id, "IPZZ-227", "-C suffix should be handled as Chinese subtitle");
    assert!(result7.attributes.cn_sub, "Chinese subtitle not detected");
}

#[test]
fn special_formats_round_trip_for_any_digits() {
    for digits in ["1", "12", "999", "1234", "98765", "123456"] {
        let heyzo = format!("HEYZO-{}", digits);
        let content = convert_to_content_id(&heyzo);
        assert_eq!(convert_to_display_id(&content), heyzo);
        let fc2 = format!("FC2-PPV-{}", digits);
        let content = convert_to_content_id(&fc2);
        assert_eq!(content, format!("fc2ppv{}", digits));
        assert_eq!(convert_to_display_id(&content), fc2);
    }
    assert_eq!(convert_to_content_id("HEYZO-12"), "heyzo00012");
}

#[test]
fn get_number_is_parse_number_id() {
    for (path, custom) in [
        ("ABC-123.mp4", None),
        ("HEYZO-1234.mp4", None),
        ("prefix_CUSTOM-999_suffix.mp4", Some(r"CUSTOM-\d+ OTHER-\d+")),
        ("no_number.mp4", None),
    ] {
        let cfg = custom.map(|c: &str| {
            let mut cfg = ParserConfig::default();
            cfg.custom_regexs = c.split_whitespace().map(String::from).collect();
            cfg
        });
        let expected = parse_number(path, cfg.as_ref()).map(|p| p.id);
        let got = get_number(path, custom);
        assert_eq!(got.is_ok(), expected.is_ok());
        if let (Ok(a), Ok(b)) = (&got, &expected) {
            assert_eq!(a, b);
        }
    }
}

#[test]
fn quality_marker_after_removed_prefixes() {
    assert_eq!(clean_filename("[site]HD-ABC-123", None), "ABC-123");
    assert_eq!(clean_filename("0201-HD-ABC-123", None), "ABC-123");
    assert_eq!(clean_filename("(HD)avop-212A", None), "avop-212A");
}
