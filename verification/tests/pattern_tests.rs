use feretto::pattern::contains_ignore_case;
use feretto::pattern::line_regex;
use feretto::pattern::lower_byte;
use feretto::pattern::lower_bytes;
use feretto::pattern::matches_regex;
use feretto::pattern::regex_verdict;
use feretto::pattern::Matcher;
use feretto::pattern::PatternError;
use feretto::pattern::MAX_LITERAL_LEN;

#[test]
fn substring_found_anywhere_in_the_chunk() {
    assert_eq!(contains_ignore_case("ERROR disk full\n", "ERROR"), Ok(true));
    assert_eq!(contains_ignore_case("disk ERROR", "ERROR"), Ok(true));
    assert_eq!(contains_ignore_case("a disk error b", "k err"), Ok(true));
    assert_eq!(contains_ignore_case("ERROR", "ERROR"), Ok(true));
}

#[test]
fn substring_absent_is_not_found() {
    assert_eq!(contains_ignore_case("INFO boot\n", "ERROR"), Ok(false));
    assert_eq!(contains_ignore_case("ERRO", "ERROR"), Ok(false));
    assert_eq!(contains_ignore_case("", "ERROR"), Ok(false));
    assert_eq!(contains_ignore_case("ERR OR", "ERROR"), Ok(false));
}

#[test]
fn substring_ignores_ascii_case_only() {
    assert_eq!(contains_ignore_case("error", "ERROR"), Ok(true));
    assert_eq!(contains_ignore_case("ErRoR", "eRrOr"), Ok(true));
    assert_eq!(contains_ignore_case("\u{c9}t\u{e9}", "\u{e9}t\u{e9}"), Ok(false));
    assert_eq!(contains_ignore_case("\u{e9}T\u{c9}", "t\u{c9}"), Ok(true));
}

#[test]
fn substring_is_literal() {
    assert_eq!(contains_ignore_case("abc", "a.c"), Ok(false));
    assert_eq!(contains_ignore_case("a.c", "a.c"), Ok(true));
    assert_eq!(contains_ignore_case("x(y", "("), Ok(true));
}

#[test]
fn empty_substring_matches_nothing() {
    assert_eq!(contains_ignore_case("anything", ""), Ok(false));
    assert_eq!(contains_ignore_case("", ""), Ok(false));
}

#[test]
fn literal_limit_is_what_a_32_bit_state_count_allows() {
    assert_eq!(MAX_LITERAL_LEN as u64, u32::MAX as u64 - 2);
}

#[test]
fn lower_byte_moves_upper_case_letters_only() {
    assert_eq!(lower_byte(b'A'), b'a');
    assert_eq!(lower_byte(b'Z'), b'z');
    assert_eq!(lower_byte(b'a'), b'a');
    assert_eq!(lower_byte(b'@'), b'@');
    assert_eq!(lower_byte(b'['), b'[');
    assert_eq!(lower_byte(0xc9), 0xc9);
    assert_eq!(lower_byte(0), 0);
}

#[test]
fn lower_bytes_keeps_length_and_other_bytes() {
    assert_eq!(lower_bytes(b"Hello, WORLD 42!"), b"hello, world 42!".to_vec());
    assert_eq!(lower_bytes(b""), Vec::<u8>::new());
}

#[test]
fn line_regex_wraps_the_pattern() {
    assert_eq!(line_regex("ERROR"), "(?i).*ERROR.*");
    assert_eq!(line_regex(""), "(?i).*.*");
}

#[test]
fn regex_matches_case_insensitively() {
    assert_eq!(matches_regex("ERROR disk full\n", "ERROR"), Ok(true));
    assert_eq!(matches_regex("an error here", "ERROR"), Ok(true));
    assert_eq!(matches_regex("INFO boot\n", "ERROR"), Ok(false));
}

#[test]
fn regex_pattern_is_an_expression() {
    assert_eq!(matches_regex("disk 42 full", r"disk \d+ full"), Ok(true));
    assert_eq!(matches_regex("disk xx full", r"disk \d+ full"), Ok(false));
    assert_eq!(matches_regex("abc", "a.c"), Ok(true));
}

#[test]
fn regex_that_does_not_compile_is_rejected() {
    match matches_regex("abc", "(") {
        Err(PatternError::Rejected { detail }) => assert!(!detail.is_empty()),
        other => panic!("expected a rejected pattern, got {:?}", other),
    }
}

#[test]
fn regex_verdict_keeps_answer_and_message() {
    assert_eq!(regex_verdict(Ok(true)), Ok(true));
    assert_eq!(regex_verdict(Ok(false)), Ok(false));
    assert_eq!(
        regex_verdict(Err("unclosed group".to_string())),
        Err(PatternError::Rejected { detail: "unclosed group".to_string() })
    );
}

#[test]
fn matcher_applies_its_own_test() {
    assert_eq!(Matcher::Substring.test("a.c", "abc"), Ok(false));
    assert_eq!(Matcher::Regex.test("a.c", "abc"), Ok(true));
    assert_eq!(Matcher::Substring.test("error", "An ERROR"), Ok(true));
    assert_eq!(Matcher::Regex.test("error", "An ERROR"), Ok(true));
    assert_eq!(Matcher::Substring.test("", "abc"), Ok(false));
    assert_eq!(Matcher::Regex.test("", "abc"), Ok(true));
}
