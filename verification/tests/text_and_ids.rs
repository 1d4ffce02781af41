use rbx_studio_mcp::ids::CallId;
use rbx_studio_mcp::text::{
    escape_squotes, join_with, last_token_str, parse_i32, parse_u32, split_str, str_contains,
    str_eq, trim_str, u64_to_dec,
};

#[test]
fn decimal_rendering() {
    assert_eq!(u64_to_dec(0), "0");
    assert_eq!(u64_to_dec(7), "7");
    assert_eq!(u64_to_dec(44755), "44755");
    assert_eq!(u64_to_dec(18446744073709551615), "18446744073709551615");
}

#[test]
fn trimming() {
    assert_eq!(trim_str("  true,false \r\n"), "true,false");
    assert_eq!(trim_str("solid"), "solid");
    assert_eq!(trim_str("   \t "), "");
    assert_eq!(trim_str(""), "");
}

#[test]
fn substring_search() {
    assert!(str_contains("a true story", "true"));
    assert!(!str_contains("a false story", "true"));
    assert!(str_contains("anything", ""));
    assert!(!str_contains("short", "very long needle"));
}

#[test]
fn splitting() {
    let parts = split_str("true,false,true,false", ',');
    assert_eq!(parts, vec!["true", "false", "true", "false"]);
    assert_eq!(split_str("", ','), vec![""]);
    assert_eq!(split_str("a,,b", ','), vec!["a", "", "b"]);
    assert_eq!(split_str("trailing,", ','), vec!["trailing", ""]);
}

#[test]
fn last_tokens() {
    assert_eq!(last_token_str("  TCP    0.0.0.0:44755  LISTENING  4321  "), "4321");
    assert_eq!(last_token_str("lonely"), "lonely");
    assert_eq!(last_token_str("   "), "");
    assert_eq!(last_token_str(""), "");
}

#[test]
fn unsigned_parsing() {
    assert_eq!(parse_u32("0"), Some(0));
    assert_eq!(parse_u32("44755"), Some(44755));
    assert_eq!(parse_u32("4294967295"), Some(u32::MAX));
    assert_eq!(parse_u32("4294967296"), None);
    assert_eq!(parse_u32("99999999999999999999"), None);
    assert_eq!(parse_u32(""), None);
    assert_eq!(parse_u32("12a"), None);
    assert_eq!(parse_u32("-5"), None);
    assert_eq!(parse_u32("0000000123"), Some(123));
}

#[test]
fn signed_parsing() {
    assert_eq!(parse_i32("12345"), Some(12345));
    assert_eq!(parse_i32("-12345"), Some(-12345));
    assert_eq!(parse_i32("+7"), Some(7));
    assert_eq!(parse_i32("2147483647"), Some(i32::MAX));
    assert_eq!(parse_i32("2147483648"), None);
    assert_eq!(parse_i32("-2147483648"), Some(i32::MIN));
    assert_eq!(parse_i32("-2147483649"), None);
    assert_eq!(parse_i32("-"), None);
    assert_eq!(parse_i32(""), None);
    assert_eq!(parse_i32("1 2"), None);
}

#[test]
fn quote_escaping() {
    assert_eq!(escape_squotes("no quotes"), "no quotes");
    assert_eq!(escape_squotes("it's"), "it\\'s");
    assert_eq!(escape_squotes("''"), "\\'\\'");
}

#[test]
fn joining() {
    let parts: Vec<String> = vec!["a".to_string(), "b".to_string(), "c".to_string()];
    assert_eq!(join_with(&parts, ", "), "a, b, c");
    let one: Vec<String> = vec!["only".to_string()];
    assert_eq!(join_with(&one, ", "), "only");
    let none: Vec<String> = Vec::new();
    assert_eq!(join_with(&none, ", "), "");
}

#[test]
fn string_equality() {
    assert!(str_eq("ToServer", "ToServer"));
    assert!(!str_eq("ToServer", "ToClient"));
    assert!(!str_eq("a", "ab"));
}

#[test]
fn uuid_rendering() {
    assert_eq!(
        CallId::nil().to_uuid_string(),
        "00000000-0000-0000-0000-000000000000"
    );
    let id = CallId { bits: 0x0123_4567_89ab_cdef_0123_4567_89ab_cdef };
    assert_eq!(id.to_uuid_string(), "01234567-89ab-cdef-0123-456789abcdef");
    let id2 = CallId { bits: u128::MAX };
    assert_eq!(id2.to_uuid_string(), "ffffffff-ffff-ffff-ffff-ffffffffffff");
}
