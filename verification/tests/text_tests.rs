use swarmy_core::decimal::{to_decimal, to_zero_padded};
use swarmy_core::text::{
    chars_of, contains, contains_chars, find_literal_from, occurs_at_index, remove_literal,
    split_once,
};

fn chars(s: &str) -> Vec<char> {
    s.chars().collect()
}

#[test]
fn chars_of_text() {
    assert_eq!(chars_of("héllo"), vec!['h', 'é', 'l', 'l', 'o']);
    assert_eq!(chars_of(""), Vec::<char>::new());
}

#[test]
fn literal_occurs_at_index() {
    let hay = chars("abcabc");
    assert!(occurs_at_index(&hay, &chars("abc"), 0));
    assert!(occurs_at_index(&hay, &chars("abc"), 3));
    assert!(!occurs_at_index(&hay, &chars("abc"), 1));
    assert!(!occurs_at_index(&hay, &chars("abc"), 4));
    assert!(!occurs_at_index(&hay, &chars("abc"), 100));
    assert!(occurs_at_index(&hay, &chars(""), 6));
    assert!(!occurs_at_index(&hay, &chars(""), 7));
}

#[test]
fn find_literal_leftmost() {
    let hay = chars("xxabxxab");
    assert_eq!(find_literal_from(&hay, &chars("ab"), 0), Some(2));
    assert_eq!(find_literal_from(&hay, &chars("ab"), 2), Some(2));
    assert_eq!(find_literal_from(&hay, &chars("ab"), 3), Some(6));
    assert_eq!(find_literal_from(&hay, &chars("ab"), 7), None);
    assert_eq!(find_literal_from(&hay, &chars("zz"), 0), None);
    assert_eq!(find_literal_from(&hay, &chars("xxabxxabx"), 0), None);
    assert_eq!(find_literal_from(&hay, &chars(""), 8), Some(8));
    assert_eq!(find_literal_from(&hay, &chars(""), 9), None);
}

#[test]
fn contains_is_case_sensitive() {
    assert!(contains("<Clan>Serral", "Serral"));
    assert!(contains("Serral", "err"));
    assert!(!contains("Serral", "serral"));
    assert!(!contains("Serral", "Serrall"));
    assert!(contains("Serral", ""));
    assert!(contains("", ""));
    assert!(!contains("", "a"));
    assert!(contains_chars("Maru", &chars("ru")));
    assert!(!contains_chars("Maru", &chars("ur")));
}

#[test]
fn contains_counts_characters_not_bytes() {
    assert!(contains("日本語のプレイヤー", "プレイ"));
    assert!(!contains("日本語", "本日"));
}

#[test]
fn split_once_at_first_delimiter() {
    assert_eq!(
        split_once("clan<sp/>name", "<sp/>"),
        Some(("clan".to_string(), "name".to_string()))
    );
    assert_eq!(
        split_once("a<sp/>b<sp/>c", "<sp/>"),
        Some(("a".to_string(), "b<sp/>c".to_string()))
    );
    assert_eq!(split_once("<sp/>name", "<sp/>"), Some((String::new(), "name".to_string())));
    assert_eq!(split_once("clan<sp/>", "<sp/>"), Some(("clan".to_string(), String::new())));
    assert_eq!(split_once("no separator", "<sp/>"), None);
    assert_eq!(split_once("", "<sp/>"), None);
}

#[test]
fn split_once_agrees_with_std() {
    for s in ["a=b", "=", "a==b", "abc", "", "é=ü=ö"] {
        let expected = s.split_once("=").map(|(a, b)| (a.to_string(), b.to_string()));
        assert_eq!(split_once(s, "="), expected);
    }
}

#[test]
fn remove_literal_removes_every_occurrence() {
    assert_eq!(remove_literal("&lt;Clan&gt;", "&gt;"), "&lt;Clan");
    assert_eq!(remove_literal("&lt;Clan", "&lt;"), "Clan");
    assert_eq!(remove_literal("aXbXc", "X"), "abc");
    assert_eq!(remove_literal("ZZZ", "Z"), "");
    assert_eq!(remove_literal("abc", "X"), "abc");
    assert_eq!(remove_literal("", "X"), "");
    assert_eq!(remove_literal("abc", ""), "abc");
}

#[test]
fn remove_literal_does_not_rescan() {
    assert_eq!(remove_literal("aaa", "aa"), "a");
    assert_eq!(remove_literal("abababa", "aba"), "b");
    assert_eq!(remove_literal("abababa", "aba"), "abababa".replace("aba", ""));
    assert_eq!(remove_literal("&&gt;gt;", "&gt;"), "&gt;");
}

#[test]
fn remove_literal_agrees_with_std() {
    for s in ["&gt;&gt;x", "x&gt;", "&g&gt;t;", "plain", "ünï&gt;cödé"] {
        assert_eq!(remove_literal(s, "&gt;"), s.replace("&gt;", ""));
    }
}

#[test]
fn decimal_notation() {
    assert_eq!(to_decimal(0), "0");
    assert_eq!(to_decimal(7), "7");
    assert_eq!(to_decimal(10), "10");
    assert_eq!(to_decimal(1234567890), "1234567890");
    assert_eq!(to_decimal(u128::MAX), u128::MAX.to_string());
}

#[test]
fn zero_padded_notation() {
    assert_eq!(to_zero_padded(7, 2), "07");
    assert_eq!(to_zero_padded(12, 2), "12");
    assert_eq!(to_zero_padded(123, 2), "123");
    assert_eq!(to_zero_padded(0, 4), "0000");
    assert_eq!(to_zero_padded(5, 0), "5");
}
