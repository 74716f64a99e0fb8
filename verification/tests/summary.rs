use camp_grader::escape::{strip_escapes, PatternError, ESCAPE_PATTERN};
use camp_grader::summary::{canonical_name, parse_stream, parse_summary, scan_line};

#[test]
fn summary_reads_two_records_in_order() {
    let stdout = "exercise01 ... passed\nexercise02 ... failed\n";
    let outcome = parse_summary(stdout, "").unwrap();
    let results = outcome.results();
    assert_eq!(results.len(), 2);
    assert_eq!(results[0].name, "exercise01");
    assert!(results[0].result);
    assert_eq!(results[1].name, "exercise02");
    assert!(!results[1].result);
    assert_eq!(outcome.attempted(), 2);
    assert_eq!(outcome.succeeded(), 1);
    assert_eq!(outcome.failed(), 1);
}

#[test]
fn summary_skips_error_lines() {
    let stdout = "error: exercise03 passed\nexercise04 failed error: boom\nexercise05 passed\n";
    let outcome = parse_summary(stdout, "").unwrap();
    let results = outcome.results();
    assert_eq!(results.len(), 1);
    assert_eq!(results[0].name, "exercise05");
    assert!(results[0].result);
}

#[test]
fn summary_falls_back_to_the_second_stream() {
    let outcome = parse_summary("", "exercise07 ... passed\n").unwrap();
    let results = outcome.results();
    assert_eq!(results.len(), 1);
    assert_eq!(results[0].name, "exercise07");
    assert!(results[0].result);
}

#[test]
fn summary_prefers_the_first_stream() {
    let outcome = parse_summary("exercise01 failed", "exercise02 passed").unwrap();
    let results = outcome.results();
    assert_eq!(results.len(), 1);
    assert_eq!(results[0].name, "exercise01");
    assert!(!results[0].result);
}

#[test]
fn summary_of_silence_is_empty() {
    let outcome = parse_summary("building...\ndone\n", "warning: nothing\n").unwrap();
    assert_eq!(outcome.attempted(), 0);
    assert_eq!(outcome.succeeded(), 0);
    assert_eq!(outcome.failed(), 0);
}

#[test]
fn fallback_names_are_canonical() {
    let results = parse_stream("exerciseexercise12 passed\n07 exercise failed\n", true).unwrap();
    assert_eq!(results.len(), 2);
    assert_eq!(results[0].name, "exercise12");
    assert_eq!(results[1].name, "exercise07");
    assert!(results[0].result);
    assert!(!results[1].result);
}

#[test]
fn first_stream_names_are_kept() {
    let results = parse_stream("exerciseexercise12 passed\n07 exercise failed\n", false).unwrap();
    assert_eq!(results[0].name, "exerciseexercise12");
    assert_eq!(results[1].name, "07");
}

#[test]
fn escapes_are_stripped_from_names() {
    let stdout = "\u{1b}[32mexercise01\u{1b}[0m \u{1b}[1;32mpassed\u{1b}[0m\n";
    let outcome = parse_summary(stdout, "").unwrap();
    assert_eq!(outcome.results()[0].name, "exercise01");
    assert!(outcome.results()[0].result);
}

#[test]
fn strip_escapes_removes_every_sequence() {
    assert_eq!(strip_escapes("\u{1b}[31mred\u{1b}[0m").unwrap(), "red");
    assert_eq!(strip_escapes("plain").unwrap(), "plain");
    assert_eq!(strip_escapes("\u{1b}[1;2;3Ha\u{1b}[Kb").unwrap(), "ab");
    assert_eq!(strip_escapes("\u{1b}[12").unwrap(), "\u{1b}[12");
    assert_eq!(strip_escapes("").unwrap(), "");
}

#[test]
fn canonical_name_puts_the_marker_back_once() {
    assert_eq!(canonical_name("exercise09"), "exercise09");
    assert_eq!(canonical_name("09"), "exercise09");
    assert_eq!(canonical_name("exerciseexercise"), "exercise");
    assert_eq!(canonical_name(""), "exercise");
    assert_eq!(canonical_name("xexercise1"), "exercisexexercise1");
}

#[test]
fn scan_line_finds_the_first_token() {
    assert_eq!(scan_line("  exercise01\t...  passed"), Some(("exercise01".to_string(), true)));
    assert_eq!(scan_line("ok exercise failed"), Some(("ok".to_string(), false)));
    assert_eq!(scan_line("exercise01 passed failed"), Some(("exercise01".to_string(), true)));
    assert_eq!(scan_line("exercise01 done"), None);
    assert_eq!(scan_line("test passed"), None);
    assert_eq!(scan_line("error: exercise01 passed"), None);
    assert_eq!(scan_line(""), None);
}

#[test]
fn lines_end_at_line_feeds_and_drop_carriage_returns() {
    let results = parse_stream("exercise1 passed\r\nexercise2 failed\r\n\r\nexercise3 passed", false)
        .unwrap();
    assert_eq!(results.len(), 3);
    assert_eq!(results[0].name, "exercise1");
    assert_eq!(results[1].name, "exercise2");
    assert_eq!(results[2].name, "exercise3");
}

#[test]
fn duplicate_names_are_kept() {
    let results = parse_stream("exercise1 passed\nexercise1 failed\n", false).unwrap();
    assert_eq!(results.len(), 2);
    assert_eq!(results[0].name, results[1].name);
    assert!(results[0].result && !results[1].result);
}

#[test]
fn unicode_white_space_ends_a_token() {
    let results = parse_stream("\u{3000}exercise1\u{a0}passed\n", false).unwrap();
    assert_eq!(results[0].name, "exercise1");
}

#[test]
fn the_escape_pattern_is_accepted() {
    assert_eq!(ESCAPE_PATTERN, "\\x1b\\[[0-9;]*[a-zA-Z]");
    assert!(regex::Regex::new(ESCAPE_PATTERN).is_ok());
    assert!(strip_escapes("anything").is_ok());
    assert!(parse_stream("", false).is_ok());
    assert!(parse_summary("", "").is_ok());
}

#[test]
fn a_refused_pattern_is_told_in_words() {
    assert_eq!(PatternError::Rejected.message(), "the pattern of terminal escape sequences was refused");
}
