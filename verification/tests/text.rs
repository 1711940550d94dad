use wanaplay_booker::http::{field, post, Method, Reading};
use wanaplay_booker::text::{
    chars_of, end_of_last, find_char, find_text, matches_at, read_digit, slice_of,
};

fn chars(text: &str) -> Vec<char> {
    text.chars().collect()
}

#[test]
fn characters_come_in_order() {
    assert_eq!(chars_of("abc"), vec!['a', 'b', 'c']);
    assert_eq!(chars_of(""), Vec::<char>::new());
    assert_eq!(chars_of("\u{e9}t\u{e9}\u{a0}"), vec!['\u{e9}', 't', '\u{e9}', '\u{a0}']);
}

#[test]
fn needle_is_matched_where_it_stands() {
    let hay = chars("planning");
    assert!(matches_at(&hay, &chars("plan"), 0));
    assert!(matches_at(&hay, &chars("ning"), 4));
    assert!(matches_at(&hay, &chars(""), 8));
    assert!(!matches_at(&hay, &chars(""), 9));
    assert!(!matches_at(&hay, &chars("plan"), 1));
    assert!(!matches_at(&hay, &chars("ning"), 5));
    assert!(!matches_at(&hay, &chars("planning!"), 0));
    assert!(!matches_at(&hay, &chars("g"), usize::MAX));
}

#[test]
fn first_occurrence_is_found() {
    assert_eq!(find_text(&chars("abcabc"), &chars("bc")), Some(1));
    assert_eq!(find_text(&chars("abcabc"), &chars("abc")), Some(0));
    assert_eq!(find_text(&chars("aab"), &chars("ab")), Some(1));
    assert_eq!(find_text(&chars("abc"), &chars("c")), Some(2));
    assert_eq!(find_text(&chars("abc"), &chars("")), Some(0));
    assert_eq!(find_text(&chars(""), &chars("")), Some(0));
    assert_eq!(find_text(&chars("abc"), &chars("d")), None);
    assert_eq!(find_text(&chars("abc"), &chars("abcd")), None);
    assert_eq!(find_text(&chars(""), &chars("a")), None);
}

#[test]
fn first_mark_is_found_from_a_position() {
    let text = chars("a\"b\"c");
    assert_eq!(find_char(&text, '"', 0), 1);
    assert_eq!(find_char(&text, '"', 1), 1);
    assert_eq!(find_char(&text, '"', 2), 3);
    assert_eq!(find_char(&text, '"', 4), 5);
    assert_eq!(find_char(&text, '"', 5), 5);
    assert_eq!(find_char(&text, 'x', 0), 5);
}

#[test]
fn slice_is_cut_between_two_positions() {
    let text = chars("abcdef");
    assert_eq!(slice_of(&text, 1, 4), chars("bcd"));
    assert_eq!(slice_of(&text, 0, 6), text);
    assert_eq!(slice_of(&text, 3, 3), chars(""));
}

#[test]
fn end_of_the_last_mark_is_found() {
    assert_eq!(end_of_last(&chars("/a/b/981"), '/'), 5);
    assert_eq!(end_of_last(&chars("981"), '/'), 0);
    assert_eq!(end_of_last(&chars("a/"), '/'), 2);
    assert_eq!(end_of_last(&chars(""), '/'), 0);
}

#[test]
fn one_digit_is_read() {
    assert_eq!(read_digit("0"), Some(0));
    assert_eq!(read_digit("7"), Some(7));
    assert_eq!(read_digit("9"), Some(9));
    assert_eq!(read_digit(""), None);
    assert_eq!(read_digit("10"), None);
    assert_eq!(read_digit("a"), None);
    assert_eq!(read_digit("+"), None);
    assert_eq!(read_digit("/"), None);
    assert_eq!(read_digit(":"), None);
}

#[test]
fn form_is_posted_as_given() {
    let form = vec![field("a", "1".to_string()), field("b", "2".to_string())];
    let request =
        post("http://x/".to_string(), form, Some("c=d".to_string()), false, Reading::Text);
    assert_eq!(request.method, Method::Post);
    assert_eq!(request.url, "http://x/");
    assert_eq!(request.form.len(), 2);
    assert_eq!((request.form[0].name.as_str(), request.form[0].value.as_str()), ("a", "1"));
    assert_eq!((request.form[1].name.as_str(), request.form[1].value.as_str()), ("b", "2"));
    assert_eq!(request.cookie.as_deref(), Some("c=d"));
    assert!(!request.follow_redirects);
    assert_eq!(request.reading, Reading::Text);
}
