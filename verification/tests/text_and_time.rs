use drizzle::text::{char_is_whitespace, is_blank, join_strs, text_eq};
use drizzle::time_format::{
    hour_of_day_text, timestamp_label, MAX_UTC_TIMESTAMP, MIN_UTC_TIMESTAMP,
};
use drizzle::ui::labels::{precipitation_unit, temperature_unit, wind_speed_unit};

#[test]
fn joining() {
    assert_eq!(join_strs(&["a", "bc", "d"], ","), "a,bc,d");
    assert_eq!(join_strs(&["only"], ", "), "only");
    assert_eq!(join_strs(&[], ","), "");
}

#[test]
fn comparing_texts() {
    assert!(text_eq("", ""));
    assert!(text_eq("héllo", "héllo"));
    assert!(!text_eq("hello", "hell"));
    assert!(!text_eq("abc", "abd"));
}

#[test]
fn blank_texts_match_trim() {
    let samples = [
        "", " ", "\t\n\r", "\u{a0}", "\u{85}", "\u{1680}", "\u{2000}\u{200a}", "\u{2028}\u{2029}",
        "\u{202f}\u{205f}\u{3000}", "\u{b}\u{c}", "a", " a ", "\u{200b}", "\u{180e}", "\u{feff}",
        "x\u{3000}",
    ];
    for s in samples {
        assert_eq!(is_blank(s), s.trim().is_empty(), "{:?}", s);
    }
    for c in (0u32..0x3100).filter_map(char::from_u32) {
        let s = c.to_string();
        assert_eq!(is_blank(&s), s.trim().is_empty(), "{:?}", c);
    }
}

#[test]
fn timestamps_within_chronos_range() {
    assert_eq!(hour_of_day_text(0), "12am");
    assert_eq!(hour_of_day_text(13 * 3600 + 59 * 60), " 1pm");
    assert_eq!(hour_of_day_text(-3600), "11pm");
    assert!(chrono::DateTime::from_timestamp_secs(MIN_UTC_TIMESTAMP).is_some());
    assert!(chrono::DateTime::from_timestamp_secs(MIN_UTC_TIMESTAMP - 1).is_none());
    assert!(chrono::DateTime::from_timestamp_secs(MAX_UTC_TIMESTAMP).is_some());
    assert!(chrono::DateTime::from_timestamp_secs(MAX_UTC_TIMESTAMP + 1).is_none());
}

#[test]
fn timestamp_labels() {
    assert_eq!(timestamp_label(0, "%a %d/%m"), "Thu 01/01");
    assert_eq!(timestamp_label(1_700_000_000, "%H:%M"), "22:13");
    assert_eq!(timestamp_label(1_700_000_000, "Sunrise %H:%M"), "Sunrise 22:13");
    assert_eq!(timestamp_label(1_700_000_000, "Sunset %H:%M"), "Sunset 22:13");
    assert_eq!(timestamp_label(i64::MAX, "%H:%M"), "Invalid Timestamp");
    assert_eq!(timestamp_label(MAX_UTC_TIMESTAMP + 1, "%a %d/%m"), "Invalid Timestamp");
    assert_eq!(timestamp_label(MIN_UTC_TIMESTAMP, "%H:%M"), "00:00");
}

#[test]
fn unit_labels() {
    assert_eq!(temperature_unit(true), "℃");
    assert_eq!(temperature_unit(false), "℉");
    assert_eq!(precipitation_unit(true), "mm");
    assert_eq!(precipitation_unit(false), "in");
    assert_eq!(wind_speed_unit(true), "km/h");
    assert_eq!(wind_speed_unit(false), "mph");
}

#[test]
fn whitespace_matches_std_everywhere() {
    for c in (0u32..=0x10FFFF).filter_map(char::from_u32) {
        assert_eq!(char_is_whitespace(c), c.is_whitespace(), "{:?}", c);
    }
}

#[test]
fn hour_texts_follow_the_twelve_hour_clock() {
    let mut secs: i64 = -3 * 86400;
    while secs < 3 * 86400 {
        let hour = secs.rem_euclid(86400) / 3600;
        let twelve = if hour % 12 == 0 { 12 } else { hour % 12 };
        let expected = format!("{:>2}{}", twelve, if hour < 12 { "am" } else { "pm" });
        assert_eq!(hour_of_day_text(secs), expected, "{}", secs);
        let minute = secs.rem_euclid(3600) / 60;
        assert_eq!(timestamp_label(secs, "%H:%M"), format!("{:02}:{:02}", hour, minute));
        assert_eq!(
            timestamp_label(secs, "Sunset %H:%M"),
            format!("Sunset {:02}:{:02}", hour, minute)
        );
        secs += 997;
    }
}
