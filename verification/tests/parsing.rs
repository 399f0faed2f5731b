use memobot::env_vars::{list, list_parsed, Lookup, ReadVarError};
use memobot::id::Id;
use memobot::text::{
    is_whitespace, parse_u16, parse_u64, parse_usize, split_list, trim, trim_matches,
};
use memobot::util::tracing::init;

fn list_of(content: &str) -> Lookup {
    Lookup::Found(String::from(content))
}

#[test]
fn white_space_is_what_unicode_says() {
    for code in 0..=0x3100u32 {
        if let Some(c) = char::from_u32(code) {
            assert_eq!(is_whitespace(c), c.is_whitespace(), "U+{code:04X}");
        }
    }
    assert!(!is_whitespace('\u{FEFF}'));
    assert!(!is_whitespace('\u{200B}'));
    assert!(!is_whitespace('\u{10FFFF}'));
}

#[test]
fn trim_drops_white_space_at_both_ends() {
    for text in [
        "",
        " ",
        "  a  ",
        "\t\n a b \r\n",
        "a",
        "\u{3000}wide\u{2003}",
        " \u{A0} x \u{85}",
        "no-space",
        " inner  space kept ",
    ] {
        assert_eq!(trim(text), text.trim(), "{text:?}");
    }
}

#[test]
fn trim_matches_drops_one_character_at_both_ends() {
    assert_eq!(trim_matches("\"info\"", '"'), "info");
    assert_eq!(trim_matches("\"\"\"a\"b\"\"", '"'), "a\"b");
    assert_eq!(trim_matches("\"\"", '"'), "");
    assert_eq!(trim_matches("info", '"'), "info");
    assert_eq!(trim_matches(" \"info\"", '"'), " \"info");
    assert_eq!(trim_matches("xxaxx", 'x'), "a");
}

#[test]
fn the_log_filter_defaults_to_info() {
    assert_eq!(init(None), "info");
    assert_eq!(init(Some("debug")), "debug");
    assert_eq!(init(Some("  \"memobot=trace,info\" \n")), "memobot=trace,info");
    assert_eq!(init(Some("\" warn \"")), " warn ");
    assert_eq!(init(Some("")), "");
}

#[test]
fn a_list_is_split_at_its_commas() {
    assert_eq!(split_list("a,b,c"), vec!["a", "b", "c"]);
    assert_eq!(split_list(" a , b ,c "), vec!["a", "b", "c"]);
    assert_eq!(split_list("a"), vec!["a"]);
    assert_eq!(split_list("a,"), vec!["a", ""]);
    assert_eq!(split_list(","), vec!["", ""]);
    assert_eq!(split_list(",a,,b"), vec!["", "a", "", "b"]);
    assert_eq!(split_list(" "), vec![""]);
    assert!(split_list("").is_empty());
    for text in ["x, y ,z", ",,", " 1 ,\t2\n", "ключ , значение", "a b, c d"] {
        let expected: Vec<String> = text.split(',').map(str::trim).map(String::from).collect();
        assert_eq!(split_list(text), expected, "{text:?}");
    }
}

#[test]
fn a_variable_reads_as_a_list() {
    assert_eq!(list("KEY", list_of("1, 2,3")), Ok(vec![String::from("1"), String::from("2"), String::from("3")]));
    assert_eq!(list("KEY", list_of("")), Ok(Vec::new()));
    assert_eq!(list("KEY", Lookup::NotPresent), Ok(Vec::new()));
    assert_eq!(list("KEY", Lookup::Failed), Err(ReadVarError("KEY")));
}

#[test]
fn a_list_is_parsed_field_by_field() {
    assert_eq!(list_parsed("KEY", list_of("1, 2,3"), parse_u16), Ok(vec![1, 2, 3]));
    assert_eq!(list_parsed("KEY", list_of("1, two,3"), parse_u16), Err(ReadVarError("KEY")));
    assert_eq!(list_parsed("KEY", list_of("1,,3"), parse_u16), Err(ReadVarError("KEY")));
    assert_eq!(list_parsed("KEY", list_of(""), parse_u16), Ok(Vec::new()));
    assert_eq!(list_parsed("KEY", Lookup::NotPresent, parse_u16), Ok(Vec::new()));
    assert_eq!(list_parsed("KEY", Lookup::Failed, parse_u16), Err(ReadVarError("KEY")));
}

#[test]
fn numbers_are_parsed_as_the_standard_library_does() {
    for text in [
        "0",
        "7",
        "007",
        "+5",
        "+",
        "-5",
        "",
        " 5",
        "5 ",
        "12a",
        "1_000",
        "65535",
        "65536",
        "4294967295",
        "4294967296",
        "18446744073709551615",
        "18446744073709551616",
        "99999999999999999999999",
        "+18446744073709551615",
        "++1",
        "٣",
        "0x10",
    ] {
        assert_eq!(parse_u64(text), text.parse::<u64>().ok(), "{text:?}");
        assert_eq!(parse_u16(text), text.parse::<u16>().ok(), "{text:?}");
        assert_eq!(parse_usize(text), text.parse::<usize>().ok(), "{text:?}");
    }
}

#[test]
fn identifiers_are_parsed_and_never_zero() {
    assert_eq!(Id::from_str("123").map(|id| id.get()), Some(123));
    assert_eq!(Id::from_str("+9").map(|id| id.get()), Some(9));
    assert_eq!(Id::from_str("18446744073709551615").map(|id| id.get()), Some(u64::MAX));
    assert_eq!(Id::from_str("0"), None);
    assert_eq!(Id::from_str("000"), None);
    assert_eq!(Id::from_str(""), None);
    assert_eq!(Id::from_str("18446744073709551616"), None);
    assert_eq!(Id::from_str("12 "), None);
}
