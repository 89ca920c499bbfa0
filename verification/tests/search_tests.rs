use grrs::search::filter_matching_lines;
use grrs::search::line_contains;

fn bytes(s: &str) -> Vec<u8> {
    s.as_bytes().to_vec()
}

#[test]
fn filter_keeps_exactly_the_matching_lines_in_order() {
    let lines = vec![bytes("apple"), bytes("banana"), bytes("apricot")];
    let pattern = bytes("ap");
    let matching = filter_matching_lines(&lines, &pattern);
    assert_eq!(matching, vec![bytes("apple"), bytes("apricot")]);
}

#[test]
fn filter_of_no_matches_is_empty() {
    let lines = vec![bytes("banana"), bytes("cherry")];
    let matching = filter_matching_lines(&lines, &bytes("ap"));
    assert_eq!(matching, Vec::<Vec<u8>>::new());
}

#[test]
fn filter_with_empty_pattern_keeps_every_line() {
    let lines = vec![bytes(""), bytes("a"), bytes("bb")];
    let matching = filter_matching_lines(&lines, &bytes(""));
    assert_eq!(matching, lines);
}

#[test]
fn filter_keeps_lines_verbatim() {
    let lines = vec![bytes("  apple  "), bytes("apple")];
    let matching = filter_matching_lines(&lines, &bytes("apple"));
    assert_eq!(matching, vec![bytes("  apple  "), bytes("apple")]);
}

#[test]
fn contains_finds_pattern_at_start_middle_and_end() {
    assert!(line_contains(&bytes("needle in hay"), &bytes("needle")));
    assert!(line_contains(&bytes("hay needle hay"), &bytes("needle")));
    assert!(line_contains(&bytes("hay in needle"), &bytes("needle")));
}

#[test]
fn contains_is_case_sensitive() {
    assert!(!line_contains(&bytes("Apple"), &bytes("ap")));
    assert!(line_contains(&bytes("Apple"), &bytes("Ap")));
}

#[test]
fn contains_handles_empty_inputs() {
    assert!(line_contains(&bytes(""), &bytes("")));
    assert!(line_contains(&bytes("abc"), &bytes("")));
    assert!(!line_contains(&bytes(""), &bytes("a")));
}

#[test]
fn contains_rejects_pattern_longer_than_text() {
    assert!(!line_contains(&bytes("ab"), &bytes("abc")));
}

#[test]
fn contains_finds_whole_text_as_pattern() {
    assert!(line_contains(&bytes("abc"), &bytes("abc")));
    assert!(!line_contains(&bytes("abc"), &bytes("abd")));
}

#[test]
fn contains_finds_repeated_prefix_pattern() {
    assert!(line_contains(&bytes("aaab"), &bytes("aab")));
    assert!(!line_contains(&bytes("aaab"), &bytes("abb")));
}
