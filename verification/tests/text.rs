//! Texts, numbers, JSON, levels and sorted lists.
use flutz_app::bounded::push_bounded;
use flutz_app::json::{escape_json, json_option_string, json_string, json_string_array};
use flutz_app::json::{json_u8_array, JsonObject};
use flutz_app::level::Level;
use flutz_app::parse::{parse_signed, parse_switch, parse_unsigned};
use flutz_app::sorted::{sorted_distinct_u32, sorted_distinct_u64, stable_order};
use flutz_app::text::{decimal_text, eq_ignoring_ascii_case, hex_text, is_text_before, join};
use flutz_app::text::{is_space, push_signed_decimal, to_ascii_lower, trim, trim_leading};
use flutz_app::text::trim_trailing;
use flutz_app::text_map::TextMap;
use std::collections::VecDeque;

fn level(value: f32) -> Level {
    Level { bits: value.to_bits() }
}

#[test]
fn numbers_are_written_in_decimal() {
    assert_eq!(decimal_text(0), "0");
    assert_eq!(decimal_text(1_234_567), "1234567");
    assert_eq!(decimal_text(u128::MAX), u128::MAX.to_string());
    let mut text = String::from("x");
    push_signed_decimal(&mut text, i64::MIN);
    assert_eq!(text, format!("x{}", i64::MIN));
}

#[test]
fn numbers_are_written_in_hex() {
    assert_eq!(hex_text(0, 16), "0000000000000000");
    assert_eq!(hex_text(0xdead_beef, 4), "deadbeef");
    assert_eq!(hex_text(u64::MAX, 16), "ffffffffffffffff");
}

#[test]
fn numbers_read_back() {
    for n in [0u64, 9, 10, 4_294_967_296, u64::MAX] {
        assert_eq!(parse_unsigned(decimal_text(n as u128).as_str(), u64::MAX), Some(n));
    }
    assert_eq!(parse_unsigned("256", 255), None);
    assert_eq!(parse_unsigned("", 255), None);
    assert_eq!(parse_unsigned("1x", 255), None);
    assert_eq!(parse_signed("-42"), Some(-42));
    assert_eq!(parse_signed("9223372036854775808"), None);
}

#[test]
fn switches_are_read() {
    assert_eq!(parse_switch("1"), Some(true));
    assert_eq!(parse_switch("no"), Some(false));
    assert_eq!(parse_switch("maybe"), None);
}

#[test]
fn json_strings_are_escaped() {
    assert_eq!(escape_json("a\"b\\c\n\t\r\u{1}"), "a\\\"b\\\\c\\n\\t\\r\\u0001");
    assert_eq!(escape_json("\u{85}é"), "\\u0085é");
    assert_eq!(json_string("hi"), "\"hi\"");
    assert_eq!(json_option_string(&None), "null");
    assert_eq!(json_option_string(&Some("x".to_owned())), "\"x\"");
    assert_eq!(json_string_array(&["a".to_owned(), "b".to_owned()]), "[\"a\",\"b\"]");
    assert_eq!(json_u8_array(&[1, 255]), "[1,255]");
}

#[test]
fn json_objects_keep_their_order() {
    let mut object = JsonObject::new();
    object.string("a", "x\"");
    object.number("b", 7);
    object.signed("c", -7);
    object.boolean("d", true);
    object.optional_number("e", None);
    object.optional_string("f", &Some("y".to_owned()));
    object.raw("g", "[]");
    assert_eq!(
        object.finish(),
        "{\"a\":\"x\\\"\",\"b\":7,\"c\":-7,\"d\":true,\"f\":\"y\",\"g\":[]}"
    );
}

#[test]
fn ascii_letters_lose_their_case() {
    assert_eq!(to_ascii_lower("ÄBC-dat"), "Äbc-dat");
    assert!(eq_ignoring_ascii_case("WAV", "wav"));
    assert!(!eq_ignoring_ascii_case("wav", "wave"));
}

#[test]
fn marks_are_trimmed_at_the_ends() {
    assert_eq!(trim_leading("..fwav.", '.'), "fwav.");
    assert_eq!(trim_trailing("song...", '.'), "song");
    assert_eq!(trim_trailing("...", '.'), "");
}

#[test]
fn texts_are_ordered_as_the_standard_library_orders_them() {
    let words = ["", "a", "ab", "b", "Z", "é", "zz"];
    for left in words {
        for right in words {
            assert_eq!(is_text_before(left, right), left < right);
        }
    }
    assert_eq!(join(&["a".to_owned(), "b".to_owned(), "c".to_owned()], "; "), "a; b; c");
}

#[test]
fn text_maps_keep_their_keys_in_order() {
    let mut map: TextMap<u32> = TextMap::new();
    map.insert("beta".to_owned(), 2);
    map.insert("alpha".to_owned(), 1);
    map.insert("beta".to_owned(), 3);
    assert_eq!(map.len(), 2);
    assert_eq!(map.get("beta"), Some(&3));
    assert_eq!(map.get("gamma"), None);
    let keys: Vec<&str> = map.entries.iter().map(|entry| entry.0.as_str()).collect();
    assert_eq!(keys, ["alpha", "beta"]);
    if let Some(value) = map.get_mut("alpha") {
        *value = 9;
    }
    assert_eq!(map.get("alpha"), Some(&9));
}

#[test]
fn lists_are_sorted_without_repetitions() {
    assert_eq!(sorted_distinct_u32(&[3, 1, 3, 2, 1]), [1, 2, 3]);
    assert_eq!(sorted_distinct_u64(&[]), Vec::<u64>::new());
    assert_eq!(stable_order(&[5, 1, 5, 0]), [3, 1, 0, 2]);
}

#[test]
fn bounded_logs_keep_the_newest() {
    let mut log: VecDeque<u32> = VecDeque::new();
    for n in 0..10 {
        push_bounded(&mut log, n, 3);
    }
    assert_eq!(log, [7, 8, 9]);
}

#[test]
fn levels_compare_as_numbers() {
    assert!(level(0.0).same(level(-0.0)));
    assert!(!level(f32::NAN).same(level(f32::NAN)));
    assert!(level(0.5).same(level(0.5)));
    assert!(!level(0.5).same(level(0.25)));
    assert!(level(f32::MIN_POSITIVE).bits > 0 && !level(f32::MIN_POSITIVE).is_above_epsilon());
    assert!(level(0.001).is_above_epsilon());
    assert!(!level(f32::EPSILON).is_above_epsilon());
    assert!(!level(-1.0).is_above_epsilon());
}

#[test]
fn levels_are_clamped_to_the_unit_range() {
    for value in [-3.5f32, -0.0, 0.0, 0.25, 1.0, 1.5, f32::INFINITY, f32::NEG_INFINITY] {
        let clamped = f32::from_bits(level(value).clamped_to_unit().bits);
        assert_eq!(clamped.to_bits(), value.clamp(0.0, 1.0).to_bits());
    }
    assert!(f32::from_bits(level(f32::NAN).clamped_to_unit().bits).is_nan());
}

#[test]
fn white_space_is_that_of_unicode() {
    for c in '\0'..=char::MAX {
        assert_eq!(is_space(c), c.is_whitespace(), "{c:?}");
    }
    for text in ["", " ", " \t\u{3000}", "a", " a b\u{85}", "\u{2003}\u{e9} ", "\u{200b}x"] {
        assert_eq!(trim(text), text.trim());
    }
}
