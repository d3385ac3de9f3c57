use xtask::errors::TestError;
use xtask::pattern::{
    check_forbidden_patterns, check_forbidden_patterns_file, escape_literal, line_index_for_byte_offset,
    line_starts, rendering_counts, scan_files, window_text, MAX_MESSAGES,
};
use xtask::plan::{ForbiddenPatterns, ForbiddenPatternsGroup};

fn group(
    substring: &[&str],
    token: &[&str],
    regex: &[&str],
    hint: Option<&str>,
) -> ForbiddenPatternsGroup {
    ForbiddenPatternsGroup {
        substring: substring.iter().map(|s| s.to_string()).collect(),
        token: token.iter().map(|s| s.to_string()).collect(),
        regex: regex.iter().map(|s| s.to_string()).collect(),
        hint: hint.map(|s| s.to_string()),
    }
}

fn scan_one(g: ForbiddenPatternsGroup, text: &str) -> Vec<xtask::pattern::Diagnostic> {
    let groups = vec![g];
    let path = "file.cpp".to_string();
    check_forbidden_patterns_file(&groups, &path, text.as_bytes()).unwrap()
}

#[test]
fn token_does_not_match_inside_word_but_substring_does() {
    let token_hits = scan_one(group(&[], &["foo"], &[], None), "foobar");
    assert_eq!(token_hits.len(), 0);
    let substring_hits = scan_one(group(&["foo"], &[], &[], None), "foobar");
    assert_eq!(substring_hits.len(), 1);
}

#[test]
fn equivalent_encodings_report_equal_counts() {
    let input = "x = foo;\nfoo();\n";
    let as_substring = scan_one(group(&["foo"], &[], &[], None), input);
    let as_token = scan_one(group(&[], &["foo"], &[], None), input);
    let as_regex = scan_one(group(&[], &[], &["(foo)"], None), input);
    assert_eq!(as_substring.len(), 2);
    assert_eq!(as_token.len(), 2);
    assert_eq!(as_regex.len(), 2);
}

#[test]
fn line_start_table_is_exact() {
    // Lines of lengths [5, 0, 10], each with its terminator.
    let text = b"aaaaa\n\nbbbbbbbbbb\n";
    let starts = line_starts(text);
    assert_eq!(starts, vec![0, 6, 7, 18]);
    assert_eq!(line_index_for_byte_offset(&starts, 7), 2);
    assert_eq!(line_index_for_byte_offset(&starts, 0), 0);
    assert_eq!(line_index_for_byte_offset(&starts, 5), 0);
    assert_eq!(line_index_for_byte_offset(&starts, 6), 1);
    assert_eq!(line_index_for_byte_offset(&starts, 17), 2);
}

#[test]
fn table_without_trailing_newline_is_closed_with_length() {
    let starts = line_starts(b"ab\ncd");
    assert_eq!(starts, vec![0, 3, 5]);
    let starts = line_starts(b"");
    assert_eq!(starts, vec![0]);
}

#[test]
fn window_on_first_line_is_clamped() {
    let text = "needle\nb\nc\n";
    let hits = scan_one(group(&["needle"], &[], &[], None), text);
    assert_eq!(hits.len(), 1);
    let d = &hits[0];
    // The window cannot start before the file: first line plus one of context.
    assert_eq!(d.line_start, 1);
    assert_eq!(d.window_start, 0);
    assert_eq!(d.window_end, 9);
    assert!(d.window_end as usize <= text.len());
    assert_eq!(window_text(text.as_bytes(), d), b"needle\nb\n".to_vec());
    assert_eq!(d.span_start, 0);
    assert_eq!(d.span_end, 6);
}

#[test]
fn window_on_last_line_is_clamped() {
    let text = "a\nb\nneedle";
    let hits = scan_one(group(&["needle"], &[], &[], None), text);
    assert_eq!(hits.len(), 1);
    let d = &hits[0];
    assert_eq!(d.line_start, 2);
    assert_eq!(d.window_start, 2);
    assert_eq!(d.window_end, text.len());
    assert_eq!(window_text(text.as_bytes(), d), b"b\nneedle".to_vec());
}

#[test]
fn escape_makes_meta_characters_literal() {
    assert_eq!(escape_literal("a.b"), "a\\.b");
    assert_eq!(escape_literal("f(x)*"), "f\\(x\\)\\*");
    assert_eq!(escape_literal("plain"), "plain");
    // A dot pattern that was escaped matches only the dot, not any byte.
    let hits = scan_one(group(&["a.b"], &[], &[], None), "axb a.b");
    assert_eq!(hits.len(), 1);
    assert_eq!(hits[0].span_start, 4);
}

#[test]
fn group_pattern_has_expected_shape() {
    let g = group(&["foo"], &["bar"], &["baz+"], None);
    let pattern = g.build_regex();
    assert_eq!(
        pattern,
        "(?ms)(foo)|(?:^|[^[:alnum:]])(bar)(?:[^[:alnum:]]|$)|baz+"
    );
}

#[test]
fn hint_is_attached_to_every_match_of_its_group() {
    let hits = scan_one(group(&["x"], &[], &[], Some("do not use x")), "x + x");
    assert_eq!(hits.len(), 2);
    for d in &hits {
        assert_eq!(d.hint.as_deref(), Some("do not use x"));
        assert_eq!(d.path, "file.cpp");
    }
}

#[test]
fn empty_group_is_ignored() {
    let hits = scan_one(group(&[], &[], &[], None), "anything at all");
    assert_eq!(hits.len(), 0);
}

#[test]
fn bad_raw_fragment_reports_the_pattern() {
    let groups = vec![group(&[], &[], &["("], None)];
    let path = "f.cpp".to_string();
    let err = check_forbidden_patterns_file(&groups, &path, b"text").unwrap_err();
    match err {
        TestError::RegexCompile { pattern } => assert_eq!(pattern, "(?ms)("),
        other => panic!("expected RegexCompile, got {:?}", other),
    }
}

#[test]
fn scan_files_concatenates_in_file_order() {
    let cfg = ForbiddenPatterns::new(group(&["bad"], &[], &[], None), vec![]);
    let files = vec![
        ("a.cpp".to_string(), b"bad\n".to_vec()),
        ("b.cpp".to_string(), b"good\n".to_vec()),
        ("c.cpp".to_string(), b"bad bad\n".to_vec()),
    ];
    let diags = scan_files(&cfg, &files).unwrap();
    assert_eq!(diags.len(), 3);
    assert_eq!(diags[0].path, "a.cpp");
    assert_eq!(diags[1].path, "c.cpp");
    assert_eq!(diags[2].path, "c.cpp");
}

#[test]
fn verdict_counts_all_findings() {
    let cfg = ForbiddenPatterns::new(group(&["bad"], &[], &[], None), vec![]);
    let files = vec![("a.cpp".to_string(), b"bad bad bad\n".to_vec())];
    match check_forbidden_patterns(&cfg, &files).unwrap_err() {
        TestError::ForbiddenPatternsFound { count } => assert_eq!(count, 3),
        other => panic!("expected ForbiddenPatternsFound, got {:?}", other),
    }
    let clean = vec![("a.cpp".to_string(), b"fine\n".to_vec())];
    assert!(check_forbidden_patterns(&cfg, &clean).is_ok());
}

#[test]
fn rendering_is_capped() {
    assert_eq!(MAX_MESSAGES, 20);
    assert_eq!(rendering_counts(3), (3, 0));
    assert_eq!(rendering_counts(20), (20, 0));
    assert_eq!(rendering_counts(25), (20, 5));
}

#[test]
fn inline_group_comes_first_and_extra_groups_follow() {
    let cfg = ForbiddenPatterns::new(
        group(&["one"], &[], &[], None),
        vec![group(&["two"], &[], &[], Some("second"))],
    );
    assert_eq!(cfg.groups.len(), 2);
    let files = vec![("a.cpp".to_string(), b"one two\n".to_vec())];
    let diags = scan_files(&cfg, &files).unwrap();
    assert_eq!(diags.len(), 2);
    assert_eq!(diags[0].hint, None);
    assert_eq!(diags[1].hint.as_deref(), Some("second"));
}
