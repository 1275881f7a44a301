use pcgd_sync::text::{
    byte_len, chars_of, decimal_text, digit, ends_with, join, replace_char, same_text,
    strip_ends, text_of_range,
};

#[test]
fn decimal_text_of_numbers() {
    assert_eq!(decimal_text(0), "0");
    assert_eq!(decimal_text(7), "7");
    assert_eq!(decimal_text(10), "10");
    assert_eq!(decimal_text(11), "11");
    assert_eq!(decimal_text(1234567890), "1234567890");
    assert_eq!(decimal_text(usize::MAX), usize::MAX.to_string());
    assert_eq!(digit(0), '0');
    assert_eq!(digit(9), '9');
}

#[test]
fn join_puts_the_separator_between() {
    let parts = vec!["a".to_string(), "bc".to_string(), "".to_string(), "d".to_string()];
    assert_eq!(join(&parts, ","), "a,bc,,d");
    assert_eq!(join(&parts, ""), "abcd");
    assert_eq!(join(&vec!["one".to_string()], ", "), "one");
    assert_eq!(join(&Vec::new(), ","), "");
}

#[test]
fn replace_char_replaces_every_occurrence() {
    assert_eq!(replace_char("a b  c", ' ', '_'), "a_b__c");
    assert_eq!(replace_char("Khơ-me", '-', '_'), "Khơ_me");
    assert_eq!(replace_char("", ' ', '_'), "");
    assert_eq!(replace_char("abc", 'x', 'y'), "abc");
}

#[test]
fn ends_with_compares_characters() {
    assert!(ends_with("Số phiếu 12 đã tồn tại.", " đã tồn tại."));
    assert!(!ends_with("Số phiếu 12 đã tồn tại", " đã tồn tại."));
    assert!(ends_with("abc", ""));
    assert!(ends_with("", ""));
    assert!(!ends_with("", "a"));
    assert!(!ends_with("bc", "abc"));
    assert!(ends_with("abc", "abc"));
}

#[test]
fn strip_ends_drops_first_and_last() {
    assert_eq!(strip_ends("\"HH123\""), "HH123");
    assert_eq!(strip_ends("null"), "ul");
    assert_eq!(strip_ends("ab"), "");
    assert_eq!(strip_ends("a"), "");
    assert_eq!(strip_ends(""), "");
    assert_eq!(strip_ends("\"hộ\""), "hộ");
}

#[test]
fn text_functions_agree_with_the_standard_library() {
    let samples = ["", " ", "-", "a b-c", "Khơ-me", "  --  ", "đã tồn tại.", "x", "tuổi", "5 tuổi"];
    for text in samples {
        assert_eq!(replace_char(text, ' ', '_'), text.replace(" ", "_"));
        assert_eq!(replace_char(text, '-', '_'), text.replace("-", "_"));
        for suffix in samples {
            assert_eq!(ends_with(text, suffix), text.ends_with(suffix), "{:?} {:?}", text, suffix);
        }
        assert_eq!(byte_len(text), text.len());
        assert_eq!(chars_of(text), text.chars().collect::<Vec<char>>());
    }
    for n in [0, 1, 9, 10, 11, 99, 100, 101, 65535, 4294967295] {
        assert_eq!(decimal_text(n), n.to_string());
    }
    let parts: Vec<String> = samples.iter().map(|s| s.to_string()).collect();
    assert_eq!(join(&parts, ","), parts.join(","));
    assert_eq!(join(&parts[..1].to_vec(), ","), parts[..1].join(","));
}

#[test]
fn characters_and_bytes() {
    assert_eq!(chars_of("hộ"), vec!['h', 'ộ']);
    assert_eq!(text_of_range(&vec!['h', 'ộ'], 0, 2), "hộ");
    assert_eq!(text_of_range(&vec!['a', 'b', 'c', 'd'], 1, 3), "bc");
    assert_eq!(text_of_range(&vec!['a', 'b'], 2, 2), "");
    assert_eq!(byte_len("hộ"), 4);
    assert_eq!(byte_len(""), 0);
    assert!(same_text("hộ", "hộ"));
    assert!(!same_text("hộ", "ho"));
}
