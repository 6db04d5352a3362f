use porkbun::text::{chars_of, read_digit, same_text, split_chars, text_of, write_digit};

fn pieces(text: &str, sep: char) -> Vec<String> {
    split_chars(&chars_of(text), sep).iter().map(|p| text_of(p)).collect()
}

#[test]
fn same_text_compares_letter_for_letter() {
    assert!(same_text("", ""));
    assert!(same_text("example.com", "example.com"));
    assert!(!same_text("example.com", "Example.com"));
    assert!(!same_text("example.com", "example.co"));
    assert!(!same_text("example.com", "www.example.com"));
    assert!(same_text("grüße", "grüße"));
    assert!(!same_text("grüße", "grusse"));
}

#[test]
fn chars_and_text_are_inverse() {
    for text in ["", "a", "1.2.3.4", "grüße €"] {
        let chars = chars_of(text);
        assert_eq!(chars, text.chars().collect::<Vec<char>>());
        assert_eq!(text_of(&chars), text);
    }
}

#[test]
fn split_keeps_empty_pieces() {
    assert_eq!(pieces("", '.'), vec![""]);
    assert_eq!(pieces("abc", '.'), vec!["abc"]);
    assert_eq!(pieces("a.b.c", '.'), vec!["a", "b", "c"]);
    assert_eq!(pieces(".a.", '.'), vec!["", "a", ""]);
    assert_eq!(pieces("..", '.'), vec!["", "", ""]);
    assert_eq!(pieces("1::2", ':'), vec!["1", "", "2"]);
}

#[test]
fn digits_are_read_and_written() {
    for d in 0u8..10 {
        let c = write_digit(d);
        assert_eq!(c, char::from(b'0' + d));
        assert_eq!(read_digit(c), Some(d));
    }
    for c in ['a', '/', ':', ' ', '٣'] {
        assert_eq!(read_digit(c), None);
    }
}
