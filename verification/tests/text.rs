use benilla::text::{chars_of, comes_first, join, push_decimal, push_hex_byte, push_signed, sort_lines};

#[test]
fn numbers_are_written_in_decimal() {
    for n in [0u64, 7, 10, 99, 100, 4_294_967_296, u64::MAX] {
        let mut text = String::from("n=");
        push_decimal(&mut text, n);
        assert_eq!(text, format!("n={n}"));
    }
    for n in [0i32, -1, 42, i32::MIN, i32::MAX] {
        let mut text = String::new();
        push_signed(&mut text, n);
        assert_eq!(text, format!("{n}"));
    }
}

#[test]
fn bytes_are_written_in_hexadecimal() {
    for n in [0u64, 5, 15, 16, 255, 4096] {
        let mut text = String::new();
        push_hex_byte(&mut text, n);
        assert_eq!(text, format!("{n:#04x}"));
    }
}

#[test]
fn lines_are_sorted_like_the_standard_strings() {
    let lines: Vec<String> =
        ["b", "", "ab", "a", "Ä", "B", "ab", "a!"].iter().map(|l| l.to_string()).collect();
    let mut expected = lines.clone();
    expected.sort();
    assert_eq!(sort_lines(lines), expected);
    assert!(comes_first("a", "ab") && !comes_first("ab", "a") && comes_first("a", "a"));
}

#[test]
fn lines_are_joined() {
    let lines = vec!["a".to_string(), "b".to_string(), "c".to_string()];
    assert_eq!(join(&lines, "+"), "a+b+c");
    assert_eq!(join(&lines[..1].to_vec(), "+"), "a");
    assert_eq!(join(&Vec::new(), "+"), "");
    assert_eq!(chars_of("añ"), vec!['a', 'ñ']);
}
