use todoist_bot::text::{concat_str, join_strings, replace_all, split_char, starts_with_char, str_eq};

fn strings(parts: &[&str]) -> Vec<String> {
    parts.iter().map(|p| p.to_string()).collect()
}

#[test]
fn concat_appends() {
    assert_eq!(concat_str("abc", "def"), "abcdef");
    assert_eq!(concat_str("", "x"), "x");
    assert_eq!(concat_str("x", ""), "x");
    assert_eq!(concat_str("é", "ü"), "éü");
}

#[test]
fn split_char_matches_std_split() {
    for text in ["", " ", "a", "a b", "a  b", " a", "a ", "task add", "a b c d", "é ü", "  "] {
        let expected: Vec<String> = text.split(' ').map(String::from).collect();
        assert_eq!(split_char(text, ' '), expected, "{:?}", text);
    }
}

#[test]
fn split_char_exact_values() {
    assert_eq!(split_char("", ':'), strings(&[""]));
    assert_eq!(split_char("section_select:42", ':'), strings(&["section_select", "42"]));
    assert_eq!(split_char("a::b", ':'), strings(&["a", "", "b"]));
    assert_eq!(split_char(":", ':'), strings(&["", ""]));
}

#[test]
fn join_strings_matches_std_join() {
    for parts in [vec![], vec!["a"], vec!["a", "b"], vec!["", ""], vec!["task", "add", "now"]] {
        let owned = strings(&parts);
        assert_eq!(join_strings(&owned, " "), parts.join(" "));
        assert_eq!(join_strings(&owned, ", "), parts.join(", "));
    }
}

#[test]
fn join_after_split_gives_the_text_back() {
    for text in ["", " ", "a b", " a  b ", "no-separator"] {
        assert_eq!(join_strings(&split_char(text, ' '), " "), text);
    }
}

#[test]
fn split_after_join_gives_the_pieces_back() {
    let parts = strings(&["task", "add"]);
    assert_eq!(split_char(&join_strings(&parts, " "), ' '), parts);
    let parts = strings(&["a", "", "b"]);
    assert_eq!(split_char(&join_strings(&parts, " "), ' '), parts);
}

#[test]
fn str_eq_compares_text() {
    assert!(str_eq("", ""));
    assert!(str_eq("abc", "abc"));
    assert!(!str_eq("abc", "abd"));
    assert!(!str_eq("abc", "ab"));
    assert!(!str_eq("é", "e"));
    assert!(str_eq("é", "é"));
}

#[test]
fn starts_with_char_looks_at_the_first_character() {
    assert!(starts_with_char("/tasks", '/'));
    assert!(!starts_with_char("tasks/", '/'));
    assert!(!starts_with_char("", '/'));
    assert!(starts_with_char("é", 'é'));
}

#[test]
fn replace_all_matches_std_replace() {
    let cases = [
        ("", "a", "b"),
        ("aaa", "a", "b"),
        ("aaa", "aa", "b"),
        ("abcabc", "bc", ""),
        ("abcabc", "abcabc", "x"),
        ("abc", "abcd", "x"),
        ("hello {{TIMEZONE}}!", "{{TIMEZONE}}", "Europe/Berlin"),
        ("{{a}}{{a}}", "{{a}}", "{{a}}{{a}}"),
        ("ababab", "aba", "-"),
        ("é-ü", "-", "é"),
    ];
    for (text, from, to) in cases {
        assert_eq!(replace_all(text, from, to), text.replace(from, to), "{:?}", (text, from, to));
    }
}

#[test]
fn replace_all_puts_the_replacement_at_every_position_for_an_empty_pattern() {
    assert_eq!(replace_all("abc", "", "-"), "-a-b-c-");
    assert_eq!(replace_all("", "", "x"), "x");
    for (text, to) in [("abc", "x"), ("", ""), ("é", "--"), ("ab", "")] {
        assert_eq!(replace_all(text, "", to), text.replace("", to), "{:?}", (text, to));
    }
}
