use i18n::sorted::{sorted_put, text_lt};
use i18n::table::{find_key, list_has, lookup_list, lookup_pair};
use i18n::text::{
    chars_of, contains, count_char, decimal, end_without, extend, find_from, first_occurrence,
    is_space, is_text, join, last_position, lines_of, matches_at, position, replace, same_text,
    skip_char, skip_spaces, slice_of, starts_with, string_of, string_of_range, text_contains,
    text_starts_with, trim, trim_start, trimmed_end, word_count,
};

fn c(s: &str) -> Vec<char> {
    s.chars().collect()
}

fn s(v: Vec<char>) -> String {
    v.into_iter().collect()
}

#[test]
fn chars_and_strings() {
    assert_eq!(chars_of("héllo 中"), c("héllo 中"));
    assert_eq!(chars_of(""), Vec::<char>::new());
    assert_eq!(string_of(&c("héllo 中")), "héllo 中");
    assert_eq!(string_of_range(&c("abcdef"), 2, 4), "cd");
    assert_eq!(string_of_range(&c("abcdef"), 3, 3), "");
    assert_eq!(slice_of(&c("abcdef"), 0, 6), c("abcdef"));
    let mut text = c("ab");
    extend(&mut text, &c("cd"));
    assert_eq!(text, c("abcd"));
}

#[test]
fn same_text_compares_texts() {
    assert!(same_text("", ""));
    assert!(same_text("中文", "中文"));
    assert!(!same_text("a", "b"));
    assert!(!same_text("a", "ab"));
    assert!(!same_text("é", "e"));
    assert!(is_text(&c("git"), "git"));
    assert!(!is_text(&c("git"), "gif"));
    assert!(!is_text(&c("git"), "gi"));
}

#[test]
fn finding_patterns() {
    let text = c("abcabc");
    assert!(matches_at(&text, &c("bc"), 1));
    assert!(!matches_at(&text, &c("bc"), 2));
    assert!(!matches_at(&text, &c("bc"), 5));
    assert!(!matches_at(&text, &c("bc"), usize::MAX));
    assert!(matches_at(&text, &c(""), 6));
    assert!(!matches_at(&text, &c(""), 7));
    assert!(starts_with(&text, &c("abc")));
    assert!(starts_with(&text, &c("")));
    assert!(!starts_with(&text, &c("bc")));
    assert!(!starts_with(&c("ab"), &c("abc")));
    assert!(contains(&text, &c("ca")));
    assert!(contains(&text, &c("")));
    assert!(contains(&c(""), &c("")));
    assert!(!contains(&text, &c("cb")));
    assert!(!contains(&c(""), &c("a")));
    assert_eq!(find_from(&text, &c("bc"), 0), Some(1));
    assert_eq!(find_from(&text, &c("bc"), 2), Some(4));
    assert_eq!(find_from(&text, &c("bc"), 5), None);
    assert_eq!(find_from(&text, &c(""), 6), Some(6));
    assert_eq!(find_from(&text, &c(""), 7), None);
    assert_eq!(first_occurrence(&text, &c("c"), 3), Some(5));
    assert_eq!(first_occurrence(&text, &c("d"), 0), None);
    assert!(text_contains("日本語パック", "語パ"));
    assert!(text_starts_with("i18n-ja", "i18n-"));
    assert!(!text_starts_with("i18n", "i18n-"));
}

#[test]
fn positions_of_characters() {
    let text = c("a.b.c");
    assert_eq!(position(&text, '.', 0), 1);
    assert_eq!(position(&text, '.', 2), 3);
    assert_eq!(position(&text, '.', 4), 5);
    assert_eq!(position(&text, '.', 9), 5);
    assert_eq!(position(&text, 'x', 0), 5);
    assert_eq!(last_position(&text, '.'), Some(3));
    assert_eq!(last_position(&text, 'a'), Some(0));
    assert_eq!(last_position(&text, 'x'), None);
    assert_eq!(skip_char(&c("__a_"), '_', 0), 2);
    assert_eq!(skip_char(&c("___"), '_', 0), 3);
    assert_eq!(end_without(&c("_a__"), '_', 4), 2);
    assert_eq!(end_without(&c("___"), '_', 3), 0);
    assert_eq!(count_char(&c("{a}{b}{"), '{'), 3);
    assert_eq!(count_char(&c(""), '{'), 0);
}

#[test]
fn replacing() {
    assert_eq!(s(replace(&c("aaa"), &c("aa"), &c("b"))), "ba");
    assert_eq!(s(replace(&c("abcabc"), &c("bc"), &c(""))), "aa");
    assert_eq!(s(replace(&c("abc"), &c("x"), &c("y"))), "abc");
    assert_eq!(s(replace(&c("abc"), &c("abc"), &c("abcabc"))), "abcabc");
    assert_eq!(s(replace(&c(""), &c("a"), &c("b"))), "");
    // an empty pattern occurs nowhere
    assert_eq!(s(replace(&c("abc"), &c(""), &c("-"))), "abc");
    assert_eq!(s(replace(&c("a..b...c"), &c(".."), &c("."))), "a.b..c");
}

#[test]
fn white_space() {
    for ch in [' ', '\t', '\n', '\r', '\u{b}', '\u{c}', '\u{85}', '\u{a0}', '\u{1680}', '\u{2000}',
        '\u{200a}', '\u{2028}', '\u{2029}', '\u{202f}', '\u{205f}', '\u{3000}']
    {
        assert!(is_space(ch));
        assert!(ch.is_whitespace());
    }
    for ch in ['a', '_', '\u{8}', '\u{e}', '\u{200b}', '\u{180e}', '\u{feff}', '中'] {
        assert!(!is_space(ch));
        assert!(!ch.is_whitespace());
    }
    // the same characters as the standard library takes for white space
    for code in 0..0x11000u32 {
        if let Some(ch) = char::from_u32(code) {
            assert_eq!(is_space(ch), ch.is_whitespace());
        }
    }
}

#[test]
fn trimming() {
    assert_eq!(s(trim(&c("  a b \t\n"))), "a b");
    assert_eq!(s(trim(&c("\u{3000}中 文\u{a0}"))), "中 文");
    assert_eq!(s(trim(&c("   "))), "");
    assert_eq!(s(trim(&c(""))), "");
    assert_eq!(s(trim(&c("a"))), "a");
    assert_eq!(s(trim_start(&c("  a b  "))), "a b  ");
    assert_eq!(s(trim_start(&c("   "))), "");
    assert_eq!(skip_spaces(&c("  a"), 0), 2);
    assert_eq!(skip_spaces(&c("  a"), 5), 3);
    assert_eq!(trimmed_end(&c("a  "), 3), 1);
    assert_eq!(trimmed_end(&c("a  "), 1), 1);
    assert_eq!(trimmed_end(&c("   "), 3), 0);
}

#[test]
fn counting_words() {
    for text in ["", "   ", "a", " a ", "a b", "  foo\tbar\nbaz  ", "a\u{3000}b", "中文 文本"] {
        assert_eq!(word_count(&c(text)), text.split_whitespace().count());
    }
    assert_eq!(word_count(&c("  foo\tbar\nbaz  ")), 3);
}

#[test]
fn lines() {
    for text in [
        "", "a", "a\n", "a\nb", "a\n\nb", "\n", "\n\n", "a\r\nb\r\n", "a\r", "a\rb\n", "\r\n",
        "a\n\r\nb", "\r", "a\r\r\nb", "last\n\n",
    ] {
        let expected: Vec<Vec<char>> = text.lines().map(|l| l.chars().collect()).collect();
        assert_eq!(lines_of(&c(text)), expected, "lines of {:?}", text);
    }
    assert_eq!(lines_of(&c("a\r\nb\n\nc")), vec![c("a"), c("b"), c(""), c("c")]);
}

#[test]
fn decimal_digits() {
    assert_eq!(s(decimal(0)), "0");
    assert_eq!(s(decimal(7)), "7");
    assert_eq!(s(decimal(10)), "10");
    assert_eq!(s(decimal(1905)), "1905");
    assert_eq!(s(decimal(usize::MAX)), usize::MAX.to_string());
}

#[test]
fn joining() {
    assert_eq!(s(join(&vec![c("a"), c("b"), c("c")], &c(", "))), "a, b, c");
    assert_eq!(s(join(&vec![c("a")], &c(", "))), "a");
    assert_eq!(s(join(&vec![], &c(", "))), "");
    assert_eq!(s(join(&vec![c(""), c("")], &c("."))), ".");
}

#[test]
fn tables_are_searched_from_the_front() {
    let table = vec![
        ("a".to_string(), "1".to_string()),
        ("b".to_string(), "2".to_string()),
        ("a".to_string(), "3".to_string()),
    ];
    assert_eq!(find_key(&table, "a"), Some(0));
    assert_eq!(find_key(&table, "b"), Some(1));
    assert_eq!(find_key(&table, "c"), None);
    assert_eq!(lookup_pair(&table, "a"), Some(&"1".to_string()));
    assert_eq!(lookup_pair(&table, "c"), None);
    let lists = vec![("a".to_string(), vec!["x".to_string()])];
    assert_eq!(lookup_list(&lists, "a"), Some(&vec!["x".to_string()]));
    assert_eq!(lookup_list(&lists, "b"), None);
    assert!(list_has(&vec!["x".to_string(), "y".to_string()], "y"));
    assert!(!list_has(&vec!["x".to_string(), "y".to_string()], "z"));
    assert!(!list_has(&vec![], ""));
}

#[test]
fn texts_are_ordered_as_strings_are() {
    let samples = ["", "a", "ab", "b", "B", "a.b", "a_b", "中", "é", "e", "zz", "z", "a\u{10000}", "a\u{ffff}"];
    for x in samples {
        for y in samples {
            assert_eq!(text_lt(&c(x), &c(y)), x < y, "{:?} < {:?}", x, y);
        }
    }
}

#[test]
fn sorted_put_keeps_the_order_of_keys() {
    let mut table: Vec<(String, String)> = Vec::new();
    for (key, value) in [("m", "1"), ("b", "2"), ("x", "3"), ("b", "4"), ("a", "5"), ("z", "6"), ("m", "7")] {
        sorted_put(&mut table, key.to_string(), value.to_string());
    }
    let got: Vec<(&str, &str)> = table.iter().map(|(k, v)| (k.as_str(), v.as_str())).collect();
    assert_eq!(got, vec![("a", "5"), ("b", "4"), ("m", "7"), ("x", "3"), ("z", "6")]);
}
