use chrono::{DateTime, Locale};
use tabline::clock::{clock_string, CLOCK_FORMAT, FIRST_SECOND, LAST_SECOND};
use tabline::load::{load_color, split_load};
use tabline::style::{Palette, PaletteColor};
use tabline::text::{decimal_string, left_more_string, right_more_string};

fn palette() -> Palette {
    Palette {
        green: PaletteColor::EightBit(1),
        white: PaletteColor::EightBit(2),
        blue: PaletteColor::EightBit(3),
        cyan: PaletteColor::EightBit(4),
        yellow: PaletteColor::EightBit(5),
        magenta: PaletteColor::EightBit(6),
        red: PaletteColor::Rgb(7, 8, 9),
    }
}

#[test]
fn numbers_are_written_in_base_ten() {
    assert_eq!(decimal_string(0), "0");
    assert_eq!(decimal_string(7), "7");
    assert_eq!(decimal_string(10), "10");
    assert_eq!(decimal_string(255), "255");
    assert_eq!(decimal_string(9999), "9999");
    assert_eq!(decimal_string(1234567890), "1234567890");
    assert_eq!(decimal_string(usize::MAX), usize::MAX.to_string());
    for n in 0..2000 {
        assert_eq!(decimal_string(n), n.to_string());
    }
}

#[test]
fn indicators_are_worded_with_their_count() {
    assert_eq!(left_more_string(1), " ← +1 ");
    assert_eq!(left_more_string(42), " ← +42 ");
    assert_eq!(left_more_string(9999), " ← +9999 ");
    assert_eq!(left_more_string(10000), " ← +many ");
    assert_eq!(left_more_string(usize::MAX), " ← +many ");
    assert_eq!(right_more_string(1), " +1 → ");
    assert_eq!(right_more_string(42), " +42 → ");
    assert_eq!(right_more_string(9999), " +9999 → ");
    assert_eq!(right_more_string(10000), " +many → ");
}

#[test]
fn clock_shows_hong_kong_time_in_japanese() {
    assert_eq!(clock_string(0), Some(" 08:00:00 木曜日 ".to_string()));
    // 2024-02-29 23:59:59 UTC is the first of March, a Friday, in Hong Kong
    assert_eq!(clock_string(1709251199), Some(" 07:59:59 金曜日 ".to_string()));
    let direct = DateTime::from_timestamp(1709251199, 0)
        .unwrap()
        .with_timezone(&chrono_tz::Asia::Hong_Kong)
        .format_localized(" %H:%M:%S %A ", Locale::ja_JP)
        .to_string();
    assert_eq!(clock_string(1709251199), Some(direct));
}

#[test]
fn clock_shows_every_moment_that_can_be_held() {
    // a second before 1970 began, it was nearly eight in Hong Kong
    assert_eq!(clock_string(-1), Some(" 07:59:59 木曜日 ".to_string()));
    assert!(clock_string(253_402_300_800).is_some());
    for seconds in [FIRST_SECOND, FIRST_SECOND + 1, LAST_SECOND - 1, LAST_SECOND] {
        let direct = DateTime::from_timestamp(seconds, 0)
            .unwrap()
            .with_timezone(&chrono_tz::Asia::Hong_Kong)
            .format_localized(CLOCK_FORMAT, Locale::ja_JP)
            .to_string();
        assert_eq!(clock_string(seconds), Some(direct));
    }
    assert_eq!(CLOCK_FORMAT, " %H:%M:%S %A ");
}

#[test]
fn clock_shows_nothing_beyond_what_can_be_held() {
    assert_eq!(clock_string(FIRST_SECOND - 1), None);
    assert_eq!(clock_string(i64::MIN), None);
    assert_eq!(clock_string(LAST_SECOND + 1), None);
    assert_eq!(clock_string(i64::MAX), None);
    assert!(DateTime::from_timestamp(FIRST_SECOND - 1, 0).is_none());
    assert!(DateTime::from_timestamp(LAST_SECOND + 1, 0).is_none());
}

#[test]
fn load_report_is_split_at_single_blanks() {
    assert_eq!(
        split_load("0.20 0.18 0.12 1/80 11206\n"),
        Some(("0.20".to_string(), "0.18".to_string(), "0.12".to_string()))
    );
    assert_eq!(
        split_load("1 2 3"),
        Some(("1".to_string(), "2".to_string(), "3".to_string()))
    );
    assert_eq!(split_load("1 2 "), Some(("1".to_string(), "2".to_string(), String::new())));
    assert_eq!(split_load("  "), Some((String::new(), String::new(), String::new())));
    assert_eq!(
        split_load("a  b"),
        Some(("a".to_string(), String::new(), "b".to_string()))
    );
    assert_eq!(
        split_load("é ü 日本"),
        Some(("é".to_string(), "ü".to_string(), "日本".to_string()))
    );
}

#[test]
fn load_report_with_fewer_than_three_fields_gives_nothing() {
    assert_eq!(split_load(""), None);
    assert_eq!(split_load("0.20"), None);
    assert_eq!(split_load("0.20 0.18"), None);
    assert_eq!(split_load(" "), None);
}

#[test]
fn load_is_coloured_by_seven_tiers() {
    let p = palette();
    assert_eq!(load_color(0, &p), p.green);
    assert_eq!(load_color(24, &p), p.green);
    assert_eq!(load_color(25, &p), p.white);
    assert_eq!(load_color(49, &p), p.white);
    assert_eq!(load_color(50, &p), p.blue);
    assert_eq!(load_color(74, &p), p.blue);
    assert_eq!(load_color(75, &p), p.cyan);
    assert_eq!(load_color(99, &p), p.cyan);
    assert_eq!(load_color(100, &p), p.yellow);
    assert_eq!(load_color(199, &p), p.yellow);
    assert_eq!(load_color(200, &p), p.magenta);
    assert_eq!(load_color(399, &p), p.magenta);
    assert_eq!(load_color(400, &p), p.red);
    assert_eq!(load_color(u32::MAX, &p), p.red);
}
