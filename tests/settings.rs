use autoscroll::pixels::indicator_pixels;
use autoscroll::settings::{color_or_default, Settings, DEFAULT_COLOR0, DEFAULT_COLOR1};
use autoscroll::text::{parse_color, parse_flag, parse_i32};

#[test]
fn color_with_prefix() {
    assert_eq!(parse_color("0xFFCED46A"), Some(0xFFCED46A));
    assert_eq!(parse_color("0Xff07553b"), Some(0xff07553b));
    assert_eq!(parse_color("  ffced46a\t"), Some(0xFFCED46A));
    assert_eq!(parse_color("0x0x12"), Some(0x12));
    assert_eq!(parse_color("+1f"), Some(0x1f));
    assert_eq!(parse_color("0xFFFFFFFF"), Some(u32::MAX));
}

#[test]
fn color_rejects_bad_text() {
    assert_eq!(parse_color(""), None);
    assert_eq!(parse_color("0x"), None);
    assert_eq!(parse_color("+"), None);
    assert_eq!(parse_color("zz"), None);
    assert_eq!(parse_color("0x100000000"), None);
    assert_eq!(parse_color("-1"), None);
    assert_eq!(parse_color("12 34"), None);
}

#[test]
fn color_falls_back_to_default() {
    assert_eq!(color_or_default(Some("not a colour"), DEFAULT_COLOR1), 0xFFCED46A);
    assert_eq!(color_or_default(None, DEFAULT_COLOR0), 0xff07553b);
    assert_eq!(color_or_default(Some("0x00ff00ff"), DEFAULT_COLOR0), 0x00ff00ff);
}

#[test]
fn integers() {
    assert_eq!(parse_i32("15"), Some(15));
    assert_eq!(parse_i32("-5"), Some(-5));
    assert_eq!(parse_i32("+7"), Some(7));
    assert_eq!(parse_i32("2147483647"), Some(i32::MAX));
    assert_eq!(parse_i32("-2147483648"), Some(i32::MIN));
    assert_eq!(parse_i32("2147483648"), None);
    assert_eq!(parse_i32(""), None);
    assert_eq!(parse_i32("-"), None);
    assert_eq!(parse_i32("1a"), None);
    assert_eq!(parse_i32(" 1"), None);
}

#[test]
fn flags() {
    assert_eq!(parse_flag("true"), Some(true));
    assert_eq!(parse_flag("false"), Some(false));
    assert_eq!(parse_flag("True"), None);
    assert_eq!(parse_flag("1"), None);
}

#[test]
fn fields_fall_back_one_by_one() {
    let s = Settings::from_fields(Some("20"), Some("-3"), Some(0), Some("true"), Some("oops"), Some("0x11223344"));
    assert_eq!(s.scroll.radius, 20);
    assert_eq!(s.scroll.max_scroll_power, 50);
    assert_eq!(s.scroll.friction_milli, 15000);
    assert!(s.show_notif);
    assert_eq!(s.color0, DEFAULT_COLOR0);
    assert_eq!(s.color1, 0x11223344);
}

#[test]
fn defaults() {
    let s = Settings::defaults();
    assert_eq!(s.scroll.radius, 15);
    assert_eq!(s.scroll.max_scroll_power, 50);
    assert_eq!(s.scroll.friction_milli, 15000);
    assert!(!s.show_notif);
    assert_eq!(s.color0, 0xff07553b);
    assert_eq!(s.color1, 0xFFCED46A);
}

#[test]
fn settings_from_loaded_file() {
    let conf = ini::Ini::load_from_str(
        "[autoscroller]\nradius = 20\nmax_scroll_power = 30\nshow_notif = true\ncolor0 = 0x10203040\n",
    )
    .unwrap();
    let s = Settings::from_ini(&conf, Some(2000));
    assert_eq!(s.scroll.radius, 20);
    assert_eq!(s.scroll.max_scroll_power, 30);
    assert_eq!(s.scroll.friction_milli, 2000);
    assert!(s.show_notif);
    assert_eq!(s.color0, 0x10203040);
    assert_eq!(s.color1, DEFAULT_COLOR1);
}

#[test]
fn settings_from_other_section_use_defaults() {
    let conf = ini::Ini::load_from_str("[other]\nradius = 20\n").unwrap();
    let s = Settings::from_ini(&conf, None);
    assert_eq!(s.scroll.radius, 15);
}

#[test]
fn indicator_picture() {
    let (a, b) = (1u32, 2u32);
    let p = indicator_pixels(9, 9, a, b);
    assert_eq!(p.len(), 81);
    let at = |x: usize, y: usize| p[y * 9 + x];
    assert_eq!(at(0, 0), a);
    assert_eq!(at(1, 4), a);
    assert_eq!(at(8, 8), a);
    assert_eq!(at(7, 3), a);
    assert_eq!(at(4, 4), a);
    assert_eq!(at(4, 2), a);
    assert_eq!(at(6, 4), a);
    assert_eq!(at(3, 3), a);
    assert_eq!(at(2, 2), b);
    assert_eq!(at(6, 6), b);
    assert_eq!(at(2, 4), a);
    assert_eq!(at(5, 6), b);
}

#[test]
fn indicator_picture_empty() {
    assert!(indicator_pixels(0, 5, 1, 2).is_empty());
    assert_eq!(indicator_pixels(1, 1, 1, 2), vec![1]);
}
