use subzero::keys::{key_to_bytes, KeyCode, KeyEvent, KeyModifiers};
use subzero::text::{
    i64_to_string, parse_i64, str_contains, str_eq_ignore_ascii_case, str_lt, str_starts_with,
    u64_to_string,
};

#[test]
fn concat_and_contains() {
    assert_eq!(subzero::text::concat("DB", ".SCHEMA"), "DB.SCHEMA");
    assert!(str_contains("orders_2024", "ers_2"));
    assert!(!str_contains("orders", "users"));
    assert!(str_contains("anything", ""));
    assert!(str_starts_with("SELECT 1", "SELECT"));
    assert!(!str_starts_with("SEL", "SELECT"));
}

#[test]
fn ignore_ascii_case_equality() {
    assert!(str_eq_ignore_ascii_case("View", "VIEW"));
    assert!(!str_eq_ignore_ascii_case("VIEWS", "VIEW"));
}

#[test]
fn decimal_text() {
    assert_eq!(u64_to_string(0), "0");
    assert_eq!(u64_to_string(18446744073709551615), "18446744073709551615");
    assert_eq!(i64_to_string(-42), "-42");
    assert_eq!(i64_to_string(i64::MIN), "-9223372036854775808");
}

#[test]
fn integers_parse_like_std() {
    assert_eq!(parse_i64("123"), Some(123));
    assert_eq!(parse_i64("-7"), Some(-7));
    assert_eq!(parse_i64("+7"), Some(7));
    assert_eq!(parse_i64(""), None);
    assert_eq!(parse_i64("12a"), None);
    assert_eq!(parse_i64("9223372036854775808"), None);
    assert_eq!(parse_i64("-9223372036854775808"), Some(i64::MIN));
}

#[test]
fn strings_order_by_characters() {
    assert!(str_lt("abc", "abd"));
    assert!(str_lt("ab", "abc"));
    assert!(!str_lt("abc", "abc"));
    assert!(str_lt("B", "a"));
}

fn bytes(code: KeyCode, modifiers: KeyModifiers) -> Vec<u8> {
    key_to_bytes(KeyEvent::new(code, modifiers)).as_slice().to_vec()
}

#[test]
fn plain_keys_send_their_bytes() {
    assert_eq!(bytes(KeyCode::Char('a'), KeyModifiers::none()), vec![b'a']);
    assert_eq!(bytes(KeyCode::Char('é'), KeyModifiers::none()), "é".as_bytes().to_vec());
    assert_eq!(bytes(KeyCode::Enter, KeyModifiers::none()), vec![0x0d]);
    assert_eq!(bytes(KeyCode::Esc, KeyModifiers::none()), vec![0x1b]);
    assert_eq!(bytes(KeyCode::Backspace, KeyModifiers::none()), vec![0x7f]);
    assert_eq!(bytes(KeyCode::Tab, KeyModifiers::none()), vec![0x09]);
    assert_eq!(bytes(KeyCode::BackTab, KeyModifiers::none()), b"\x1b[Z".to_vec());
}

#[test]
fn control_and_alt_chars() {
    assert_eq!(bytes(KeyCode::Char('c'), KeyModifiers::control_only()), vec![3]);
    assert_eq!(bytes(KeyCode::Char('C'), KeyModifiers::control_only()), vec![3]);
    assert_eq!(bytes(KeyCode::Char('x'), KeyModifiers::alt_only()), vec![0x1b, b'x']);
    let ctrl_alt = KeyModifiers { shift: false, control: true, alt: true, other: false };
    assert_eq!(bytes(KeyCode::Char('a'), ctrl_alt), vec![0x1b, 1]);
}

#[test]
fn arrows_with_modifiers() {
    assert_eq!(bytes(KeyCode::Up, KeyModifiers::none()), b"\x1b[A".to_vec());
    assert_eq!(bytes(KeyCode::Left, KeyModifiers::control_only()), b"\x1b[1;5D".to_vec());
    assert_eq!(bytes(KeyCode::Right, KeyModifiers::shift_only()), b"\x1b[1;2C".to_vec());
}

#[test]
fn navigation_and_function_keys() {
    assert_eq!(bytes(KeyCode::Home, KeyModifiers::none()), b"\x1b[H".to_vec());
    assert_eq!(bytes(KeyCode::End, KeyModifiers::none()), b"\x1b[F".to_vec());
    assert_eq!(bytes(KeyCode::PageUp, KeyModifiers::none()), b"\x1b[5~".to_vec());
    assert_eq!(bytes(KeyCode::Delete, KeyModifiers::none()), b"\x1b[3~".to_vec());
    assert_eq!(bytes(KeyCode::F(1), KeyModifiers::none()), b"\x1bOP".to_vec());
    assert_eq!(bytes(KeyCode::F(12), KeyModifiers::none()), b"\x1b[24~".to_vec());
    assert!(bytes(KeyCode::F(13), KeyModifiers::none()).is_empty());
    assert!(bytes(KeyCode::Null, KeyModifiers::none()).is_empty());
}
