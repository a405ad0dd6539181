use interview_spark::import::{
    parse_import_line, split_fields, split_lines, trim_text, ImportLine, ImportResult,
    INVALID_LINE_REASON,
};

#[test]
fn lines_of_the_pipe_format() {
    match parse_import_line("  question| What is Rust? |  ") {
        ImportLine::Item(item) => {
            assert_eq!(item.content_type, "question");
            assert_eq!(item.content, "What is Rust?");
            assert!(item.metadata.is_none());
        }
        _ => panic!("expected an item"),
    }
    match parse_import_line("answer|three years|backend|extra") {
        ImportLine::Item(item) => assert_eq!(item.metadata.as_deref(), Some("backend")),
        _ => panic!("expected an item"),
    }
    assert!(matches!(parse_import_line("   "), ImportLine::Skip));
    assert!(matches!(parse_import_line("# comment|x"), ImportLine::Skip));
    assert!(matches!(parse_import_line("only one field"), ImportLine::Invalid));
}

#[test]
fn split_and_trim() {
    assert_eq!(split_fields("a||b|"), vec!["a", "", "b", ""]);
    assert_eq!(split_fields(""), vec![""]);
    assert_eq!(trim_text("\t x y \n"), "x y");
    assert_eq!(trim_text("　全角　"), "全角");
}

#[test]
fn import_tally() {
    let mut r = ImportResult::new();
    r.record_success();
    r.record_failure(3, INVALID_LINE_REASON);
    assert_eq!(r.success_count, 1);
    assert_eq!(r.fail_count, 1);
    assert_eq!(r.errors, vec!["Line 3: Invalid format (need at least 2 fields)".to_string()]);
}

#[test]
fn lines_match_std() {
    for text in ["", "\n", "a", "a\n", "a\r\nb\n", "x\n\ny", "a\r", "a\r\r\n", "\r\n\r\n", "题\n目"] {
        let expected: Vec<String> = text.lines().map(|l| l.to_string()).collect();
        assert_eq!(split_lines(text), expected, "text {:?}", text);
    }
}

#[test]
fn white_space_matches_std() {
    for c in ['\t', '\n', '\u{b}', '\u{c}', '\r', ' ', '\u{85}', '\u{a0}', '\u{1680}', '\u{2000}', '\u{200a}', '\u{2028}', '\u{2029}', '\u{202f}', '\u{205f}', '\u{3000}', 'a', '\u{200b}', '\u{feff}', '_'] {
        let s = format!("{}x{}", c, c);
        assert_eq!(trim_text(&s), s.trim(), "char {:?}", c);
    }
}
