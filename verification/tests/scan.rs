use ovim::scan::{find, find_either, split, strip, to_chars, to_string};

fn chars(text: &str) -> Vec<char> {
    text.chars().collect()
}

#[test]
fn chars_of_a_string() {
    assert_eq!(to_chars("a\u{e9}\u{4e2d}!"), vec!['a', '\u{e9}', '\u{4e2d}', '!']);
    assert!(to_chars("").is_empty());
}

#[test]
fn string_of_a_range() {
    let text = chars("h\u{e9}llo");
    assert_eq!(to_string(&text, 0, 5), "h\u{e9}llo");
    assert_eq!(to_string(&text, 1, 3), "\u{e9}l");
    assert_eq!(to_string(&text, 2, 2), "");
}

#[test]
fn find_gives_the_first_occurrence() {
    assert_eq!(find(&chars("abcabc"), &chars("bc")), Some(1));
    assert_eq!(find(&chars("abcabc"), &chars("abc")), Some(0));
    assert_eq!(find(&chars("aab"), &chars("ab")), Some(1));
    assert_eq!(find(&chars("abc"), &chars("c")), Some(2));
    assert_eq!(find(&chars("abc"), &chars("cd")), None);
    assert_eq!(find(&chars("abc"), &chars("abcd")), None);
    assert_eq!(find(&chars("abc"), &chars("")), Some(0));
    assert_eq!(find(&chars(""), &chars("")), Some(0));
    assert_eq!(find(&chars(""), &chars("a")), None);
}

#[test]
fn find_either_stops_at_the_first_of_two() {
    let text = chars("12,3}4");
    assert_eq!(find_either(&text, ',', '}', 0), 2);
    assert_eq!(find_either(&text, ',', '}', 2), 2);
    assert_eq!(find_either(&text, ',', '}', 3), 4);
    assert_eq!(find_either(&text, ',', '}', 5), 6);
    assert_eq!(find_either(&text, ',', '}', 6), 6);
    assert_eq!(find_either(&text, 'x', 'y', 0), 6);
}

#[test]
fn split_cuts_at_every_separator() {
    assert_eq!(split(&chars("a,bc,,d"), ','), vec![chars("a"), chars("bc"), chars(""), chars("d")]);
    assert_eq!(split(&chars("abc"), ','), vec![chars("abc")]);
    assert_eq!(split(&chars(""), ','), vec![chars("")]);
    assert_eq!(split(&chars(","), ','), vec![chars(""), chars("")]);
    assert_eq!(split(&chars("a,"), ','), vec![chars("a"), chars("")]);
}

#[test]
fn strip_removes_the_runs_at_both_ends() {
    assert_eq!(strip(&chars("\"\"a\"b\""), '"'), (2, 5));
    assert_eq!(strip(&chars("ab"), '"'), (0, 2));
    assert_eq!(strip(&chars("\"\"\""), '"'), (3, 3));
    assert_eq!(strip(&chars(""), '"'), (0, 0));
    assert_eq!(strip(&chars("\"a"), '"'), (1, 2));
}
