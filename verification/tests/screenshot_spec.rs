use katex::screenshot::{
    build_html_document, case_key_selected, max_warn_level, png_dimensions, sanitized_case_key,
    summarize_failures, warn_level_for_mismatch, BrowserKind, CaseResult, CaseState, CaseStatus,
    CompareTolerance, HtmlSnapshot, MismatchSeverity, PngHeaderError, WarnLevel,
};
use katex::strutil::str_contains;

#[test]
fn browser_slugs_and_suffixes() {
    assert_eq!(BrowserKind::Chrome.slug(), "chrome");
    assert_eq!(BrowserKind::Firefox.slug(), "firefox");
    assert_eq!(BrowserKind::Safari.slug(), "safari");
    assert_eq!(BrowserKind::Chrome.screenshot_suffix(), "-chrome.png");
    assert_eq!(BrowserKind::Firefox.diff_suffix(), "-firefox-diff.png");
}

#[test]
fn tolerance_labels() {
    assert_eq!(CompareTolerance::Strict.label(), "strict");
    assert_eq!(CompareTolerance::Normal.label(), "normal");
    assert_eq!(CompareTolerance::Tolerant.label(), "tolerant");
}

#[test]
fn case_state_counts_attempts() {
    let mut state = CaseState::new(3);
    assert_eq!(state.total_attempts(), 3);
    assert_eq!(state.attempts_left(), 3);
    assert!(!state.is_finished());

    assert_eq!(state.begin_attempt(), 1);
    assert_eq!(state.attempts_left(), 2);
    assert_eq!(state.begin_attempt(), 2);
    assert_eq!(state.begin_attempt(), 3);
    assert_eq!(state.attempts_left(), 0);
    // Attempts past the budget still count upward but cannot go below zero.
    assert_eq!(state.begin_attempt(), 4);
    assert_eq!(state.attempts_left(), 0);
}

#[test]
fn case_state_finalize_uses_up_the_attempts() {
    let mut state = CaseState::new(2);
    state.begin_attempt();
    state.finalize(CaseResult { status: CaseStatus::Pass, message: None, severity: None });
    assert!(state.is_finished());
    assert_eq!(state.attempts_left(), 0);
    assert_eq!(state.total_attempts(), 2);
}

#[test]
fn warn_levels_order_and_mapping() {
    assert_eq!(warn_level_for_mismatch(MismatchSeverity::Minor), WarnLevel::Low);
    assert_eq!(warn_level_for_mismatch(MismatchSeverity::Noticeable), WarnLevel::Medium);
    assert_eq!(warn_level_for_mismatch(MismatchSeverity::Major), WarnLevel::High);
    assert_eq!(max_warn_level(WarnLevel::Low, WarnLevel::Medium), WarnLevel::Medium);
    assert_eq!(max_warn_level(WarnLevel::High, WarnLevel::Low), WarnLevel::High);
    assert_eq!(max_warn_level(WarnLevel::Low, WarnLevel::Low), WarnLevel::Low);
}

fn failure(status: CaseStatus, severity: Option<MismatchSeverity>) -> (String, CaseResult) {
    ("case".to_string(), CaseResult { status, message: None, severity })
}

#[test]
fn summarize_failures_picks_the_loudest_level() {
    assert_eq!(summarize_failures(&vec![]), None);
    assert_eq!(summarize_failures(&vec![failure(CaseStatus::Pass, None)]), None);
    assert_eq!(
        summarize_failures(&vec![failure(CaseStatus::Mismatch, Some(MismatchSeverity::Minor))]),
        Some(WarnLevel::Low),
    );
    // A mismatch without a recorded severity is treated as loud.
    assert_eq!(
        summarize_failures(&vec![failure(CaseStatus::Mismatch, None)]),
        Some(WarnLevel::High),
    );
    assert_eq!(
        summarize_failures(&vec![
            failure(CaseStatus::Mismatch, Some(MismatchSeverity::Minor)),
            failure(CaseStatus::Pass, None),
            failure(CaseStatus::Mismatch, Some(MismatchSeverity::Noticeable)),
        ]),
        Some(WarnLevel::Medium),
    );
    assert_eq!(
        summarize_failures(&vec![
            failure(CaseStatus::Mismatch, Some(MismatchSeverity::Minor)),
            failure(CaseStatus::Error, None),
        ]),
        Some(WarnLevel::High),
    );
}

#[test]
fn sanitized_case_keys_are_file_name_safe() {
    assert_eq!(sanitized_case_key("Simple-Case_1.png"), "Simple-Case_1.png");
    assert_eq!(sanitized_case_key("a b/c"), "a_b_c");
    assert_eq!(sanitized_case_key("x\\y%z"), "x_y_z");
    assert_eq!(sanitized_case_key(""), "");
}

#[test]
fn html_documents_embed_the_snapshot() {
    let snapshot = HtmlSnapshot {
        implementation: Some("native".to_string()),
        status: Some("ok".to_string()),
        pre_html: "<p>before</p>".to_string(),
        math_html: "<span>x</span>".to_string(),
        post_html: "<p>after</p>".to_string(),
    };
    let document = build_html_document("case-1", &snapshot, "native");
    let expected = format!(
        "<!DOCTYPE html>\n<html lang=\"en\">\n<head>\n  <meta charset=\"utf-8\" />\n  <title>{key} [{imp}]</title>\n  <style>body {{ font-family: sans-serif; margin: 1rem; }}\n  header {{ margin-bottom: 1rem; }}\n  section {{ margin-bottom: 1rem; }}\n  .math {{ padding: 1rem; border: 1px solid #ccc; }}\n  </style>\n</head>\n<body>\n  <header>\n    <h1>{key}</h1>\n    <p><strong>Implementation:</strong> {imp}</p>\n    <p><strong>Status:</strong> {status}</p>\n  </header>\n  <section>\n    <h2>Pre</h2>\n    <div id=\"pre\">{pre}</div>\n  </section>\n  <section class=\"math\">\n    <h2>Math</h2>\n    <div id=\"math\">{math}</div>\n  </section>\n  <section>\n    <h2>Post</h2>\n    <div id=\"post\">{post}</div>\n  </section>\n</body>\n</html>\n",
        key = "case-1",
        imp = "native",
        status = "ok",
        pre = "<p>before</p>",
        math = "<span>x</span>",
        post = "<p>after</p>",
    );
    assert_eq!(document, expected);
}

#[test]
fn html_documents_report_an_unknown_status() {
    let snapshot = HtmlSnapshot {
        implementation: None,
        status: None,
        pre_html: String::new(),
        math_html: String::new(),
        post_html: String::new(),
    };
    let document = build_html_document("k", &snapshot, "fallback");
    assert!(document.contains("<p><strong>Status:</strong> unknown</p>"));
}

fn png_header(width: u32, height: u32) -> Vec<u8> {
    let mut data = vec![137, 80, 78, 71, 13, 10, 26, 10];
    data.extend_from_slice(&[0, 0, 0, 13]);
    data.extend_from_slice(b"IHDR");
    data.extend_from_slice(&width.to_be_bytes());
    data.extend_from_slice(&height.to_be_bytes());
    data
}

#[test]
fn png_dimensions_read_the_header() {
    let data = png_header(1024, 768);
    assert_eq!(png_dimensions(&data), Ok((1024, 768)));
    let data = png_header(0x01020304, 0x0A0B0C0D);
    assert_eq!(png_dimensions(&data), Ok((0x01020304, 0x0A0B0C0D)));
}

#[test]
fn png_dimensions_reject_bad_data() {
    assert_eq!(png_dimensions(&[1, 2, 3]), Err(PngHeaderError::Truncated));
    let mut bad_magic = png_header(1, 1);
    bad_magic[0] = 0;
    assert_eq!(png_dimensions(&bad_magic), Err(PngHeaderError::BadSignature));
    let mut bad_chunk = png_header(1, 1);
    bad_chunk[12] = b'J';
    assert_eq!(png_dimensions(&bad_chunk), Err(PngHeaderError::MissingHeaderChunk));
}

#[test]
fn case_selection_honors_both_pattern_lists() {
    let none: Vec<String> = vec![];
    assert!(case_key_selected("Accents", &none, &none));
    let wanted = vec!["cent".to_string(), "Frac".to_string()];
    assert!(case_key_selected("Accents", &wanted, &none));
    assert!(!case_key_selected("Sqrt", &wanted, &none));
    let unwanted = vec!["cent".to_string()];
    assert!(!case_key_selected("Accents", &wanted, &unwanted));
    assert!(case_key_selected("Fractions", &wanted, &unwanted));
}

#[test]
fn substring_search_finds_runs() {
    assert!(str_contains("hello world", "lo w"));
    assert!(str_contains("hello", ""));
    assert!(str_contains("hello", "hello"));
    assert!(!str_contains("hello", "hello!"));
    assert!(!str_contains("abc", "ca"));
}
