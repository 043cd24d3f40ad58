use aibase_scraper::chars::{
    all_in_class, append_chars, chars_of, count_words, find, has_part_at, has_prefix, keep,
    same_chars, slice, split, strip, strip_prefix, take_before, trim, CharClass,
};
use aibase_scraper::text::{concat2, concat3, copy_opt_string, same_text};

fn c(s: &str) -> Vec<char> {
    s.chars().collect()
}

fn s(v: &Vec<char>) -> String {
    v.iter().collect()
}

#[test]
fn chars_are_those_of_the_string() {
    assert_eq!(chars_of("a\u{e9}\u{1f600}"), vec!['a', '\u{e9}', '\u{1f600}']);
    assert!(chars_of("").is_empty());
}

#[test]
fn trim_takes_white_space_off_both_ends() {
    for text in ["  a b  ", "a b", "\t\na b\r\n", "\u{a0}a b\u{2003}", "", "   "] {
        assert_eq!(s(&trim(&c(text))), text.trim(), "{:?}", text);
    }
}

#[test]
fn strip_takes_a_class_off_both_ends() {
    assert_eq!(s(&strip(&c("//a/b//"), CharClass::Is('/'))), "a/b");
    assert_eq!(s(&strip(&c("///"), CharClass::Is('/'))), "");
    assert_eq!(s(&strip(&c("12ab34"), CharClass::Numeric)), "ab");
    assert_eq!(s(&strip(&c("ab"), CharClass::Is('/'))), "ab");
}

#[test]
fn classes_hold_what_they_say() {
    assert!(CharClass::Whitespace.test(' '));
    assert!(!CharClass::Whitespace.test('a'));
    assert!(CharClass::Numeric.test('7'));
    assert!(CharClass::Numeric.test('\u{0663}'));
    assert!(!CharClass::Numeric.test('x'));
    assert!(CharClass::Is('/').test('/'));
    assert!(!CharClass::Is('/').test('\\'));
    assert!(all_in_class(&c("0123"), CharClass::Numeric));
    assert!(!all_in_class(&c("01a3"), CharClass::Numeric));
    assert!(all_in_class(&c(""), CharClass::Numeric));
    assert_eq!(s(&keep(&c("a1b22c"), CharClass::Numeric)), "122");
    assert_eq!(s(&keep(&c("abc"), CharClass::Numeric)), "");
}

#[test]
fn prefixes_and_parts() {
    assert!(has_prefix(&c("/news/1"), &c("/news/")));
    assert!(has_prefix(&c("abc"), &c("")));
    assert!(!has_prefix(&c("/new"), &c("/news/")));
    assert!(!has_prefix(&c("xnews/"), &c("/news/")));
    assert_eq!(strip_prefix(&c("/news/12"), &c("/news/")).map(|v| s(&v)), Some("12".to_string()));
    assert_eq!(strip_prefix(&c("/news/"), &c("/news/")).map(|v| s(&v)), Some("".to_string()));
    assert_eq!(strip_prefix(&c("/blog/12"), &c("/news/")), None);
    assert!(has_part_at(&c("a - b"), &c(" - "), 1));
    assert!(!has_part_at(&c("a - b"), &c(" - "), 2));
    assert!(!has_part_at(&c("a - b"), &c(" - "), 4));
    assert!(has_part_at(&c("ab"), &c(""), 2));
}

#[test]
fn find_gives_the_first_occurrence() {
    assert_eq!(find(&c("a - b - c"), &c(" - "), 0), 1);
    assert_eq!(find(&c("a - b - c"), &c(" - "), 2), 5);
    assert_eq!(find(&c("a - b - c"), &c(" - "), 6), 9);
    assert_eq!(find(&c("abc"), &c("x"), 0), 3);
    assert_eq!(find(&c(""), &c("x"), 0), 0);
    assert_eq!(s(&take_before(&c("Title - Site - More"), &c(" - "))), "Title");
    assert_eq!(s(&take_before(&c("Title"), &c(" - "))), "Title");
    assert_eq!(s(&take_before(&c(" - x"), &c(" - "))), "");
}

#[test]
fn split_gives_one_piece_more_than_separators() {
    for text in ["a-b-c", "", "-", "a-", "-a", "a--b", "abc", "24-05-01-x-y"] {
        let got: Vec<String> = split(&c(text), '-').iter().map(s).collect();
        let want: Vec<String> = text.split('-').map(|p| p.to_string()).collect();
        assert_eq!(got, want, "{:?}", text);
    }
}

#[test]
fn words_are_runs_between_white_space() {
    for text in ["", " ", "one", " one ", "one two", "one\n\ntwo\tthree ", "a b c d e"] {
        assert_eq!(count_words(&c(text)), text.split_whitespace().count(), "{:?}", text);
    }
}

#[test]
fn slices_and_copies() {
    assert_eq!(s(&slice(&c("hello"), 1, 3)), "el");
    assert_eq!(s(&slice(&c("hello"), 0, 5)), "hello");
    assert_eq!(s(&slice(&c("hello"), 2, 2)), "");
    assert!(same_chars(&c("ab"), &c("ab")));
    assert!(!same_chars(&c("ab"), &c("ac")));
    assert!(!same_chars(&c("ab"), &c("abc")));
    let mut a = c("ab");
    append_chars(&mut a, &c("cd"));
    assert_eq!(s(&a), "abcd");
    assert_eq!(concat2("ab", "cd"), "abcd");
    assert_eq!(concat3("a", "", "c"), "ac");
    assert!(same_text("x", "x"));
    assert!(!same_text("x", "X"));
    assert_eq!(copy_opt_string(&Some("k".to_string())), Some("k".to_string()));
    assert_eq!(copy_opt_string(&None), None);
}

#[test]
fn white_space_is_the_twenty_five_code_points() {
    let mut count = 0;
    for n in 0..=0x10FFFFu32 {
        let c = match char::from_u32(n) {
            Some(c) => c,
            None => continue,
        };
        let stated = (0x09..=0x0D).contains(&n)
            || n == 0x20
            || n == 0x85
            || n == 0xA0
            || n == 0x1680
            || (0x2000..=0x200A).contains(&n)
            || n == 0x2028
            || n == 0x2029
            || n == 0x202F
            || n == 0x205F
            || n == 0x3000;
        assert_eq!(CharClass::Whitespace.test(c), stated, "U+{:04X}", n);
        if stated {
            count += 1;
        }
    }
    assert_eq!(count, 25);
}

#[test]
fn digits_are_numeric() {
    for c in '0'..='9' {
        assert!(CharClass::Numeric.test(c));
    }
    assert!(!CharClass::Numeric.test('/'));
    assert!(!CharClass::Numeric.test(':'));
    assert!(!CharClass::Numeric.test('+'));
    assert!(!CharClass::Numeric.test('-'));
}
