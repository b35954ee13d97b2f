use elefren::entities::account::{string_or_bool, BoolOrString, MetadataField};
use elefren::errors::MastodonError;
use elefren::json::{find_field, JsonField, JsonMember};
use elefren::text::{char_is_space, chars_of, clone_opt, clone_texts, starts_with, str_eq, trim, trim_range};

#[test]
fn test_trim_agrees_with_std() {
    let samples = [
        "",
        " ",
        "a",
        " a",
        "a ",
        "  a b  ",
        "\t\r\n x \u{b}\u{c}",
        "\u{85}\u{a0}\u{1680}a\u{2000}\u{200a}\u{2028}\u{2029}\u{202f}\u{205f}\u{3000}",
        "\u{200b}a\u{200b}",
        "\u{feff} a",
        "é  ü ",
        " \u{1f600} ",
    ];
    for s in samples {
        assert_eq!(trim(s), s.trim(), "on {:?}", s);
    }
    for n in 0u32..0x3100 {
        if let Some(c) = char::from_u32(n) {
            assert_eq!(char_is_space(c), c.is_whitespace(), "on {:x}", n);
        }
    }
}

#[test]
fn test_text_helpers() {
    assert_eq!(chars_of("aé\u{1f600}"), vec!['a', 'é', '\u{1f600}']);
    assert_eq!(trim_range(&chars_of("  ab ")), (2, 4));
    assert_eq!(trim_range(&chars_of("   ")), (3, 3));
    assert!(starts_with(&chars_of("event: x"), &chars_of("event:")));
    assert!(!starts_with(&chars_of("event"), &chars_of("event:")));
    assert!(starts_with(&chars_of("x"), &chars_of("")));
    assert!(str_eq("", ""));
    assert!(str_eq("é", "é"));
    assert!(!str_eq("a", "b"));
    assert!(!str_eq("a", "ab"));
    assert_eq!(clone_opt(&Some("a".to_string())), Some("a".to_string()));
    assert_eq!(clone_opt(&None), None);
    assert_eq!(clone_texts(&vec!["a".to_string(), "b".to_string()]), vec!["a", "b"]);
}

#[test]
fn test_find_field() {
    let member = |key: &str, value: JsonField| JsonMember { key: key.to_string(), value };
    let members = vec![
        member("a", JsonField::Null),
        member("b", JsonField::Text("x".to_string())),
        member("b", JsonField::Other),
    ];
    assert!(matches!(find_field(&members, "a"), Some(JsonField::Null)));
    assert!(matches!(find_field(&members, "b"), Some(JsonField::Text(_))));
    assert!(find_field(&members, "c").is_none());
}

#[test]
fn test_string_or_bool() {
    assert_eq!(string_or_bool(BoolOrString::Bool(true)).expect("error"), true);
    assert_eq!(string_or_bool(BoolOrString::Bool(false)).expect("error"), false);
    assert_eq!(string_or_bool(BoolOrString::Str("true".to_string())).expect("error"), true);
    assert_eq!(string_or_bool(BoolOrString::Str("false".to_string())).expect("error"), false);
    assert!(matches!(
        string_or_bool(BoolOrString::Str("True".to_string())),
        Err(MastodonError::Other(_))
    ));
    assert!(string_or_bool(BoolOrString::Str("".to_string())).is_err());
    assert_eq!(
        MetadataField::new("n", "v"),
        MetadataField { name: "n".to_string(), value: "v".to_string() }
    );
}
