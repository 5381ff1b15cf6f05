use amnezia_xray_admin::decimal::{i64_text, parse_i64, parse_max, u64_text};
use amnezia_xray_admin::display::{call, format_bytes, pad, rule, short_id};
use amnezia_xray_admin::order::{comes_before, insert_sorted};
use amnezia_xray_admin::text::{
    byte_len, contains, first_word_of, fit, join, lines_of, replace_char, split_on, strip_prefix,
    strip_suffix, trim, trim_of, words_of,
};

#[test]
fn bytes_are_shown_in_the_largest_unit() {
    assert_eq!(format_bytes(0), "0 B");
    assert_eq!(format_bytes(1023), "1023 B");
    assert_eq!(format_bytes(1024), "1.0 KB");
    assert_eq!(format_bytes(1536), "1.5 KB");
    assert_eq!(format_bytes(1024 * 1024), "1.0 MB");
    assert_eq!(format_bytes(5 * 1024 * 1024 * 1024), "5.0 GB");
    assert_eq!(format_bytes(1024 * 1024 * 1024 * 1024), "1024.0 GB");
}

#[test]
fn a_tenth_is_rounded_as_floating_point_is() {
    for n in [1075u64, 1126, 1177, 1280, 1331, 99999, 123456789, 987654321012] {
        let (unit, name) = if n >= 1 << 30 {
            ((1u64 << 30) as f64, "GB")
        } else if n >= 1 << 20 {
            ((1u64 << 20) as f64, "MB")
        } else {
            (1024.0, "KB")
        };
        assert_eq!(format_bytes(n), format!("{:.1} {}", n as f64 / unit, name));
    }
}

#[test]
fn texts_are_padded_by_characters() {
    assert_eq!(pad("é", 3), "é  ");
    assert_eq!(pad("long", 2), "long");
    assert_eq!(rule(3), "---");
}

#[test]
fn ids_are_cut_to_eight() {
    assert_eq!(short_id("0123456789"), "01234567");
    assert_eq!(short_id("012"), "012");
    assert_eq!(call("", "0123456789"), "01234567");
    assert_eq!(call("alice", "0123456789"), "alice");
}

#[test]
fn numbers_are_written_and_read() {
    assert_eq!(u64_text(u64::MAX), "18446744073709551615");
    assert_eq!(i64_text(i64::MIN), "-9223372036854775808");
    assert_eq!(parse_max("18446744073709551615", u64::MAX), Some(u64::MAX));
    assert_eq!(parse_max("65536", 65535), None);
    assert_eq!(parse_max("+7", 65535), Some(7));
    assert_eq!(parse_max("", 65535), None);
    assert_eq!(parse_max("-1", 65535), None);
    assert_eq!(parse_i64("-9223372036854775808"), Some(i64::MIN));
    assert_eq!(parse_i64("9223372036854775808"), None);
    assert_eq!(parse_i64("+5"), Some(5));
    assert_eq!(parse_i64("-"), None);
}

#[test]
fn texts_are_ordered_by_their_characters() {
    assert!(comes_before("10.0.0.1", "9.0.0.1"));
    assert!(comes_before("a", "aa"));
    assert!(!comes_before("b", "a"));
    let mut v = Vec::new();
    for s in ["b", "a", "c", "a"] {
        insert_sorted(&mut v, s);
    }
    assert_eq!(v, vec!["a", "a", "b", "c"]);
}

#[test]
fn trimming_knows_every_space() {
    assert_eq!(trim("\u{2003} a b\u{a0}\n"), "a b");
    assert_eq!(trim_of(",,a,", ','), "a");
}

#[test]
fn texts_are_split_and_joined() {
    assert_eq!(split_on("a>>>b>>>", ">>>"), vec!["a", "b", ""]);
    assert_eq!(lines_of("a\r\nb\n\nc"), vec!["a", "b", "", "c"]);
    assert_eq!(lines_of("a\n"), vec!["a"]);
    assert_eq!(words_of("  a\tb "), vec!["a", "b"]);
    assert_eq!(first_word_of(" a b"), Some("a".to_string()));
    assert_eq!(first_word_of(" "), None);
    assert_eq!(join(&vec!["a".to_string(), "b".to_string()], ", "), "a, b");
    assert_eq!(replace_char("a'b", '\'', "_"), "a_b");
}

#[test]
fn affixes_are_stripped_once() {
    assert_eq!(strip_prefix("aab", "a"), Some("ab".to_string()));
    assert_eq!(strip_prefix("b", "a"), None);
    assert_eq!(strip_suffix("x@vpn", "@vpn"), Some("x".to_string()));
    assert_eq!(strip_suffix("vpn", "@vpn"), None);
    assert!(contains("abc", "bc"));
    assert!(!contains("abc", "cb"));
}

#[test]
fn texts_are_cut_between_characters() {
    assert_eq!(byte_len("aé"), 3);
    assert_eq!(fit("aé", 2), "a");
    assert_eq!(fit("aé", 3), "aé");
    assert_eq!(fit("aé", 0), "");
}
