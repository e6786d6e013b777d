use least::search::{scan, search_scraper, SearchMatch};

fn doc(lines: &[&str]) -> Vec<String> {
    lines.iter().map(|l| l.to_string()).collect()
}

#[test]
fn finds_matches_in_document_order() {
    let lines = doc(&["foo bar foo", "baz"]);
    let results = search_scraper(&lines, &"foo".to_string());
    assert_eq!(results, vec![(0, 0, 3), (0, 8, 11)]);
}

#[test]
fn finds_matches_across_lines() {
    let lines = doc(&["one two", "three", "two two"]);
    let results = search_scraper(&lines, &"two".to_string());
    assert_eq!(results, vec![(0, 4, 7), (2, 0, 3), (2, 4, 7)]);
}

#[test]
fn empty_pattern_matches_nothing() {
    let lines = doc(&["foo bar foo", "baz"]);
    let results = search_scraper(&lines, &String::new());
    assert!(results.is_empty());
    let lines = doc(&["", "x"]);
    let results = search_scraper(&lines, &String::new());
    assert!(results.is_empty());
}

#[test]
fn occurrences_do_not_overlap() {
    // "aaa" searched for "aa" yields one match, not two: the scan resumes
    // past each match's end.
    let lines = doc(&["aaa"]);
    let results = search_scraper(&lines, &"aa".to_string());
    assert_eq!(results, vec![(0, 0, 2)]);
    let lines = doc(&["aaaa"]);
    let results = search_scraper(&lines, &"aa".to_string());
    assert_eq!(results, vec![(0, 0, 2), (0, 2, 4)]);
}

#[test]
fn no_match_in_missing_term() {
    let lines = doc(&["foo bar"]);
    let results = search_scraper(&lines, &"quux".to_string());
    assert!(results.is_empty());
}

#[test]
fn pattern_longer_than_line() {
    let lines = doc(&["ab", "abcd"]);
    let results = search_scraper(&lines, &"abc".to_string());
    assert_eq!(results, vec![(1, 0, 3)]);
}

#[test]
fn whole_line_match() {
    let lines = doc(&["abc"]);
    let results = search_scraper(&lines, &"abc".to_string());
    assert_eq!(results, vec![(0, 0, 3)]);
}

#[test]
fn scan_yields_structured_matches() {
    let lines = doc(&["foo bar foo"]);
    let results = scan(&lines, &"bar".to_string());
    assert_eq!(results, vec![SearchMatch { line: 0, start: 4, end: 7 }]);
}

#[test]
fn scan_on_empty_document() {
    let lines: Vec<String> = Vec::new();
    let results = scan(&lines, &"x".to_string());
    assert!(results.is_empty());
}
