use agents_relay::clock::{Moment, FIRST_SECOND, LAST_SECOND};
use agents_relay::decimal::{
    decimal_text, parse_signed, parse_unsigned, signed_decimal_text, NumberError,
};
use agents_relay::detect::is_vscode;
use agents_relay::failure::Failure;
use agents_relay::json::{empty_object, parse_json, Json, JsonObject};
use agents_relay::paths::{join_path, relay_path, relay_path_at_home};
use agents_relay::sql::workspace_pattern;
use agents_relay::text::{
    after_prefix, begins_with, can_split, chars_of, cut_suffixes, find, finishes_with, fit, glue3,
    head_of, includes, is_space_char, join_texts, same, single_spaced, size_of, slice_bytes,
    split_text, trimmed,
};

#[test]
fn same_texts_are_told_from_others() {
    assert!(same("", ""));
    assert!(same("naïve", "naïve"));
    assert!(!same("a", "b"));
    assert!(!same("a", "ab"));
}

#[test]
fn white_space_is_that_of_unicode() {
    for n in 0..0x11_0000u32 {
        if let Some(c) = char::from_u32(n) {
            assert_eq!(is_space_char(c), c.is_whitespace(), "{n:x}");
        }
    }
}

#[test]
fn trimming_takes_both_ends() {
    for s in ["", " ", "\u{3000}a b\n", "a", "\t\r\n", "  x"] {
        assert_eq!(trimmed(s), s.trim());
    }
}

#[test]
fn parts_are_found() {
    assert_eq!(find(&chars_of("abcabc"), &chars_of("bc")), Some(1));
    assert_eq!(find(&chars_of("aé→b"), &chars_of("b")), Some(3));
    assert_eq!(find(&chars_of("abc"), &chars_of("")), Some(0));
    assert_eq!(find(&chars_of("abc"), &chars_of("abcd")), None);
    assert!(includes("file://x", "://"));
    assert!(!includes("file:/x", "://"));
    assert!(begins_with("abc", "ab") && !begins_with("abc", "b"));
    assert!(finishes_with("abc", "bc") && !finishes_with("abc", "b"));
    assert_eq!(after_prefix("file:///a", "file://").as_deref(), Some("/a"));
    assert_eq!(after_prefix("/a", "file://"), None);
}

#[test]
fn suffixes_are_cut_off_as_often_as_they_stand_there() {
    assert_eq!(cut_suffixes("a.x.x", ".x"), "a");
    assert_eq!(cut_suffixes("a.x.y", ".x"), "a.x.y");
    assert_eq!(cut_suffixes("a", ""), "a");
}

#[test]
fn texts_come_apart_and_together() {
    assert_eq!(split_text("a-b--c", '-'), vec!["a", "b", "", "c"]);
    assert_eq!(split_text("", '-'), vec![""]);
    assert_eq!(join_texts(&split_text("a-b--c", '-'), "-"), "a-b--c");
    assert_eq!(join_texts(&vec![], ", "), "");
    assert_eq!(glue3("a", "b", "c"), "abc");
    assert_eq!(single_spaced("  a \n b\t\tc "), "a b c");
    assert_eq!(head_of("äöü", 2), "äö");
    assert_eq!(head_of("äöü", 3), "äöü");
}

#[test]
fn bytes_are_counted_and_cut() {
    assert_eq!(size_of("aé→😀"), 1 + 2 + 3 + 4);
    assert_eq!(fit("aé→😀", 5), "aé");
    assert_eq!(fit("aé→😀", 6), "aé→");
    assert_eq!(fit("é", 1), "");
    assert_eq!(fit("é", 0), "");
    assert!(can_split("aé", 1) && !can_split("aé", 2) && can_split("aé", 3));
    assert!(!can_split("aé", 4));
    assert_eq!(slice_bytes("aé→b", 1, 6), "é→");
    assert_eq!(slice_bytes("aé→b", 3, 3), "");
}

#[test]
fn numbers_are_written_in_decimal() {
    assert_eq!(decimal_text(0), "0");
    assert_eq!(decimal_text(u64::MAX), u64::MAX.to_string());
    assert_eq!(signed_decimal_text(i64::MIN), i64::MIN.to_string());
    assert_eq!(signed_decimal_text(-7), "-7");
    assert_eq!(signed_decimal_text(70), "70");
}

#[test]
fn numbers_are_read_as_the_standard_library_reads_them() {
    for s in ["", "+", "-", "+1", "-1", "007", "65535", "65536", "99999999999999999999", "1x", "x", " 1"] {
        assert_eq!(parse_unsigned(s, u16::MAX as u64).ok(), s.parse::<u16>().ok().map(u64::from), "{s}");
        assert_eq!(parse_signed(s), s.parse::<i64>().ok(), "{s}");
    }
    assert_eq!(parse_signed(&i64::MIN.to_string()), Some(i64::MIN));
    assert_eq!(parse_signed("-9223372036854775809"), None);
    assert_eq!(parse_unsigned("", 9), Err(NumberError::Empty));
    assert_eq!(parse_unsigned("+", 9), Err(NumberError::InvalidDigit));
    assert_eq!(parse_unsigned("1a", 99), Err(NumberError::InvalidDigit));
    assert_eq!(parse_unsigned("100", 99), Err(NumberError::TooLarge));
}

#[test]
fn a_written_number_is_read_again() {
    for n in [0u64, 9, 10, 54322, u64::MAX] {
        assert_eq!(parse_unsigned(&decimal_text(n), u64::MAX), Ok(n));
    }
}

#[test]
fn json_is_read_and_written() {
    let v = parse_json(r#"{"a": [1, null, true, "x"], "b": {"c": "d"}}"#).unwrap();
    assert_eq!(v.to_text(), r#"{"a":[1,null,true,"x"],"b":{"c":"d"}}"#);
    assert_eq!(v.get("b").unwrap().text_at("c"), Some("d"));
    assert!(parse_json("{").is_none());
    let mut o = JsonObject::new();
    o.put_text("k", "v");
    assert_eq!(Json::Object(o).to_pretty_text(), "{\n  \"k\": \"v\"\n}");
    assert_eq!(empty_object().to_text(), "{}");
}

#[test]
fn a_plain_value_survives_being_written() {
    let v = parse_json(r#"{"n": [-3, 9007199254740993], "t": "\u0007\"→"}"#).unwrap();
    assert_eq!(parse_json(&v.to_text()), Some(v.copy()));
    assert_eq!(parse_json(&v.to_pretty_text()), Some(v));
}

#[test]
fn no_key_of_an_object_is_special() {
    for key in ["$serde_json::private::RawValue", "$serde_json::private::Number"] {
        let mut o = JsonObject::new();
        o.put_text(key, "[1]");
        let v = Json::Object(o);
        assert_eq!(parse_json(&v.to_text()), Some(v.copy()));
        assert_eq!(parse_json(&v.to_pretty_text()), Some(v));
    }
}

#[test]
fn nesting_is_read_to_a_limit() {
    let deep = |n: usize| format!("{}{}", "[".repeat(n), "]".repeat(n));
    assert!(parse_json(&deep(127)).is_some());
    assert!(parse_json(&deep(128)).is_none());
}

#[test]
fn of_two_members_the_later_counts() {
    let mut o = JsonObject::new();
    o.put_text("k", "first");
    o.put_text("k", "second");
    assert_eq!(o.get("k").and_then(|v| v.as_text()), Some("second"));
    assert_eq!(Json::Object(o).to_text(), r#"{"k":"second"}"#);
    assert_eq!(parse_json(r#"{"k":1,"k":"x"}"#).unwrap().text_at("k"), Some("x"));
}

#[test]
fn numbers_are_read_as_whole_numbers() {
    let v = parse_json(r#"[3, 3.0, -2.9, 1e300, -1e300, 18446744073709551615, "3", null]"#).unwrap();
    let expected = [
        Some(3), Some(3), Some(-2), Some(i64::MAX), Some(i64::MIN), Some(i64::MAX), None, None,
    ];
    match v {
        Json::Array(items) => {
            for (item, want) in items.iter().zip(expected) {
                assert_eq!(item.as_integer(), want, "{item:?}");
            }
        }
        _ => panic!("not an array"),
    }
    assert_eq!(Json::integer(-5).to_text(), "-5");
    assert_eq!(Json::integer(-5).as_integer(), Some(-5));
    assert_eq!(Json::count(7).as_integer(), Some(7));
    assert_eq!(Json::count(u64::MAX).to_text(), "18446744073709551615");
}

#[test]
fn flags_are_booleans_or_the_word() {
    let v = parse_json(r#"{"a": true, "b": "true", "c": "yes", "d": 1, "e": false}"#).unwrap();
    assert_eq!(v.flag_at("a"), Some(true));
    assert_eq!(v.flag_at("b"), Some(true));
    assert_eq!(v.flag_at("c"), Some(false));
    assert_eq!(v.flag_at("d"), Some(false));
    assert_eq!(v.flag_at("e"), Some(false));
    assert_eq!(v.flag_at("f"), None);
}

#[test]
fn moments_are_written_in_three_ways() {
    let stamp = Moment { secs: 1_431_648_000, nanos: 0 }.write();
    assert_eq!(stamp.iso, "2015-05-15T00:00:00+00:00");
    assert_eq!(stamp.date, "2015-05-15");
    assert_eq!(stamp.time, "00:00:00");
    let stamp = Moment { secs: -1, nanos: 5_000_000 }.write();
    assert_eq!(stamp.iso, "1969-12-31T23:59:59.005+00:00");
    assert_eq!(stamp.date, "1969-12-31");
    assert_eq!(stamp.time, "23:59:59");
    let stamp = Moment { secs: 86_400 * 3 + 3_600 * 7 + 60 * 5 + 9, nanos: 1 }.write();
    assert_eq!(stamp.time, "07:05:09");
}

#[test]
fn the_calendar_has_two_ends() {
    let first = Moment { secs: FIRST_SECOND, nanos: 0 };
    let last = Moment { secs: LAST_SECOND, nanos: 999_999_999 };
    assert_eq!(first.write().date, "-262143-01-01");
    assert_eq!(last.write().date, "+262142-12-31");
    assert!(first.is_on_calendar() && last.is_on_calendar());
    assert!(!Moment { secs: FIRST_SECOND - 1, nanos: 0 }.is_on_calendar());
    assert!(!Moment { secs: LAST_SECOND + 1, nanos: 0 }.is_on_calendar());
    assert!(!Moment { secs: 0, nanos: 1_000_000_000 }.is_on_calendar());
    assert_eq!(first.date_before(0).as_deref(), Some("-262143-01-01"));
    assert_eq!(first.date_before(1), None);
    assert_eq!(
        Moment { secs: FIRST_SECOND + 86_400, nanos: 0 }.date_before(1).as_deref(),
        Some("-262143-01-01")
    );
    assert_eq!(last.date_before(u32::MAX), None);
    assert!(chrono::DateTime::from_timestamp(FIRST_SECOND - 1, 0).is_none());
    assert!(chrono::DateTime::from_timestamp(LAST_SECOND + 1, 0).is_none());
}

#[test]
fn days_are_counted_back() {
    let at = Moment { secs: 1_709_251_200, nanos: 7 };
    assert_eq!(at.write().date, "2024-03-01");
    assert_eq!(at.date_before(1).as_deref(), Some("2024-02-29"));
    assert_eq!(at.date_before(30).as_deref(), Some("2024-01-31"));
}

#[test]
fn the_clock_runs() {
    let now = Moment::now();
    assert!(now.is_on_calendar());
    assert!(now.secs > 1_700_000_000);
    assert_eq!(now.write().date.len(), 10);
}

#[test]
fn paths_are_joined_as_the_system_joins_them() {
    for (base, leaf) in [("/a", "b"), ("/a/", "b"), ("", "b"), (".", "b"), ("/a", "/b"), ("/a", "")] {
        let joined = std::path::Path::new(base).join(leaf);
        assert_eq!(join_path(base, leaf), joined.to_string_lossy(), "{base} {leaf}");
    }
    assert_eq!(relay_path(Some("/home/u"), "x.db"), "/home/u/.agents-relay/x.db");
    assert_eq!(relay_path(None, "x.db"), "./.agents-relay/x.db");
}

#[test]
fn files_lie_below_the_home_directory() {
    let home = dirs::home_dir().map(|p| p.to_string_lossy().into_owned());
    assert_eq!(relay_path_at_home("x"), relay_path(home.as_deref(), "x"));
}

#[test]
fn failures_carry_their_message() {
    assert_eq!(Failure::new("x").message, "x");
    assert_eq!(Failure::about("a", "b", "c").message, "abc");
}

#[test]
fn other_tools_are_not_taken_for_the_editor() {
    for n in ["code", "code .", "code-server", "my-vscode-fork", "codium"] {
        assert!(is_vscode(n), "{n}");
    }
    for n in ["recode", "xcode", "encode", "codex", "codium-x", ""] {
        assert!(!is_vscode(n), "{n}");
    }
}

#[test]
fn special_characters_of_a_workspace_stand_for_themselves() {
    assert_eq!(workspace_pattern("/a/b"), "/a/b%");
    assert_eq!(workspace_pattern("/a_b/50%\\x"), "/a\\_b/50\\%\\\\x%");
    assert_eq!(workspace_pattern(""), "%");
}
