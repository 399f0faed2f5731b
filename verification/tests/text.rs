use memobot::cmd_schema::Ping;
use memobot::text::{chars_of, contains, equal, push_decimal, strip_prefix};

fn decimal_of(n: u64) -> String {
    let mut out = String::new();
    push_decimal(&mut out, n);
    out
}

#[test]
fn numbers_are_written_in_decimal() {
    assert_eq!(decimal_of(0), "0");
    assert_eq!(decimal_of(7), "7");
    assert_eq!(decimal_of(10), "10");
    assert_eq!(decimal_of(25565), "25565");
    assert_eq!(decimal_of(1000000), "1000000");
    assert_eq!(decimal_of(u64::MAX), "18446744073709551615");
    for n in [9u64, 99, 100, 101, 4096, 65535, 1 << 40] {
        assert_eq!(decimal_of(n), n.to_string());
    }
}

#[test]
fn digits_are_appended_to_what_is_there() {
    let mut out = String::from("port ");
    push_decimal(&mut out, 6500);
    assert_eq!(out, "port 6500");
}

#[test]
fn contains_finds_a_needle_anywhere() {
    assert!(contains("offline", "offline"));
    assert!(contains("the server is offline now", "offline"));
    assert!(contains("offlin offline", "offline"));
    assert!(contains("ooooffline", "offline"));
    assert!(contains("anything", ""));
    assert!(contains("", ""));
    assert!(!contains("", "offline"));
    assert!(!contains("offlin", "offline"));
    assert!(!contains("off-line", "offline"));
    assert!(!contains("Offline", "offline"));
    assert!(contains("§4● offline ●", "offline"));
    assert!(contains("日本語のテキスト", "のテ"));
    assert!(!contains("日本語のテキスト", "テの"));
}

#[test]
fn strip_prefix_keeps_what_follows() {
    assert_eq!(strip_prefix("Bearer abc", "Bearer "), Some("abc"));
    assert_eq!(strip_prefix("Bearer ", "Bearer "), Some(""));
    assert_eq!(strip_prefix("Bearer", "Bearer "), None);
    assert_eq!(strip_prefix("bearer abc", "Bearer "), None);
    assert_eq!(strip_prefix("abc", ""), Some("abc"));
    assert_eq!(strip_prefix("", "x"), None);
    assert_eq!(strip_prefix("ключ-значение", "ключ-"), Some("значение"));
}

#[test]
fn equal_compares_every_character() {
    assert!(equal("", ""));
    assert!(equal("production", "production"));
    assert!(!equal("production", "productioN"));
    assert!(!equal("production", "productio"));
    assert!(!equal("a", ""));
}

#[test]
fn chars_come_out_in_order() {
    assert_eq!(chars_of("a§b"), vec!['a', '§', 'b']);
    assert!(chars_of("").is_empty());
}

#[test]
fn the_ping_command_is_named() {
    assert_eq!(Ping::name(), "ping");
    assert_eq!(Ping::description(), "Responds back with pong");
}
