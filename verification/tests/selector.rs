use rsssh::error::Error;
use rsssh::selector::{candidate_lines, get_index, pick_ip, select, Selection, PROMPT};

fn found() -> Vec<(String, String)> {
    vec![
        ("web-1".to_string(), "10.0.0.1".to_string()),
        ("web-2".to_string(), "10.0.0.2".to_string()),
        ("web-3".to_string(), "10.0.0.3".to_string()),
    ]
}

#[test]
fn first_candidate_is_taken_without_asking() {
    assert_eq!(select(&found(), false), Ok(Selection::Address("10.0.0.1".to_string())));
    let one = vec![("db".to_string(), "10.1.1.1".to_string())];
    assert_eq!(select(&one, false), Ok(Selection::Address("10.1.1.1".to_string())));
    assert_eq!(select(&one, true), Ok(Selection::Address("10.1.1.1".to_string())));
}

#[test]
fn nothing_found_is_an_error() {
    assert_eq!(select(&vec![], false), Err(Error::NoCandidates));
    assert_eq!(select(&vec![], true), Err(Error::NoCandidates));
}

#[test]
fn several_candidates_are_offered_when_asked() {
    assert_eq!(
        select(&found(), true),
        Ok(Selection::Prompt(vec![
            "1. web-1 (10.0.0.1)".to_string(),
            "2. web-2 (10.0.0.2)".to_string(),
            "3. web-3 (10.0.0.3)".to_string(),
        ]))
    );
    assert_eq!(PROMPT, "Enter a number from the list above: ");
}

#[test]
fn lines_count_from_one_past_nine() {
    let many: Vec<(String, String)> =
        (0..12).map(|i| (format!("n{}", i), format!("10.0.0.{}", i))).collect();
    let lines = candidate_lines(&many);
    assert_eq!(lines.len(), 12);
    assert_eq!(lines[0], "1. n0 (10.0.0.0)");
    assert_eq!(lines[9], "10. n9 (10.0.0.9)");
    assert_eq!(lines[11], "12. n11 (10.0.0.11)");
}

#[test]
fn answer_has_to_be_the_number_of_a_line() {
    assert_eq!(get_index("1", 3), Some(0));
    assert_eq!(get_index("3\n", 3), Some(2));
    assert_eq!(get_index("  2 \r\n", 3), Some(1));
    assert_eq!(get_index("+2", 3), Some(1));
    assert_eq!(get_index("002", 3), Some(1));
    assert_eq!(get_index("\u{a0}2\u{3000}", 3), Some(1));
    assert_eq!(get_index("10\n", 12), Some(9));
}

#[test]
fn other_answers_pick_nothing() {
    assert_eq!(get_index("", 3), None);
    assert_eq!(get_index("\n", 3), None);
    assert_eq!(get_index("0", 3), None);
    assert_eq!(get_index("4", 3), None);
    assert_eq!(get_index("-1", 3), None);
    assert_eq!(get_index("+", 3), None);
    assert_eq!(get_index("++1", 3), None);
    assert_eq!(get_index("1 2", 3), None);
    assert_eq!(get_index("2.", 3), None);
    assert_eq!(get_index("two", 3), None);
    assert_eq!(get_index("\u{662}", 3), None);
    assert_eq!(get_index("999999999999999999999999999999999999", 3), None);
    assert_eq!(get_index("18446744073709551616", usize::MAX), None);
    assert_eq!(get_index("1", 0), None);
}

#[test]
fn largest_number_is_read() {
    let text = format!("{}", usize::MAX);
    assert_eq!(get_index(&text, usize::MAX), Some(usize::MAX - 1));
}

#[test]
fn answer_picks_the_address_of_its_line() {
    assert_eq!(pick_ip(&found(), "2\n"), Some("10.0.0.2".to_string()));
    assert_eq!(pick_ip(&found(), "3"), Some("10.0.0.3".to_string()));
    assert_eq!(pick_ip(&found(), "4"), None);
    assert_eq!(pick_ip(&found(), "web-1"), None);
}
