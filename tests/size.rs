use lsd_meta::color::Elem;
use lsd_meta::size::Size;

fn shown(len: u64) -> (String, String) {
    let s = Size::from_len(len);
    (s.render_value(), s.render_unit())
}

#[test]
fn byte_tier_uses_b() {
    for len in [0u64, 1, 512, 1023] {
        assert_eq!(Size::from_len(len).render_unit(), "B");
    }
    assert_eq!(shown(0), ("0".to_string(), "B".to_string()));
    assert_eq!(shown(1023), ("1023".to_string(), "B".to_string()));
}

#[test]
fn kilo_tier_truncates_to_one_digit() {
    assert_eq!(shown(500000), ("488.2".to_string(), "KB".to_string()));
    assert_eq!(Size::from_len(1024 * 1024 - 1).render_unit(), "KB");
}

#[test]
fn exactly_one_kilobyte() {
    assert_eq!(shown(1024), ("1".to_string(), "KB".to_string()));
}

#[test]
fn zero_first_fraction_digit_is_dropped() {
    assert_eq!(shown(32 * 1024), ("32".to_string(), "KB".to_string()));
    assert_eq!(shown(32 * 1024 + 50), ("32".to_string(), "KB".to_string()));
    assert_eq!(shown(32 * 1024 + 102), ("32".to_string(), "KB".to_string()));
    assert_eq!(shown(32 * 1024 + 103), ("32.1".to_string(), "KB".to_string()));
}

#[test]
fn fraction_is_truncated_not_rounded() {
    // 1023.999... kilobytes stays below 1024
    assert_eq!(shown(1024 * 1024 - 1), ("1023.9".to_string(), "KB".to_string()));
    assert_eq!(shown(1024 + 1023), ("1.9".to_string(), "KB".to_string()));
}

#[test]
fn larger_tiers() {
    assert_eq!(shown(1024 * 1024), ("1".to_string(), "MB".to_string()));
    assert_eq!(shown(1536 * 1024), ("1.5".to_string(), "MB".to_string()));
    assert_eq!(shown(1024 * 1024 * 1024), ("1".to_string(), "GB".to_string()));
    assert_eq!(shown(5 * 1024 * 1024 * 1024 / 2), ("2.5".to_string(), "GB".to_string()));
    assert_eq!(shown(1024u64.pow(4)), ("1".to_string(), "TB".to_string()));
    assert_eq!(shown(1024u64.pow(4) * 2048), ("2048".to_string(), "TB".to_string()));
}

#[test]
fn largest_length() {
    assert_eq!(shown(u64::MAX), ("16777215.9".to_string(), "TB".to_string()));
}

#[test]
fn tier_colors() {
    assert_eq!(Size::from_len(10).render(4, 2).elem, Elem::FileSmall);
    assert_eq!(Size::from_len(1024 * 1024 - 1).render(6, 2).elem, Elem::FileSmall);
    assert_eq!(Size::from_len(1024 * 1024).render(4, 2).elem, Elem::FileMedium);
    assert_eq!(Size::from_len(1024 * 1024 * 1024 - 1).render(6, 2).elem, Elem::FileMedium);
    assert_eq!(Size::from_len(1024 * 1024 * 1024).render(4, 2).elem, Elem::FileLarge);
    assert_eq!(Size::from_len(1024u64.pow(4)).render(4, 2).elem, Elem::FileLarge);
}

#[test]
fn value_right_aligned_unit_left_aligned() {
    let r = Size::from_len(1024).render(6, 3);
    assert_eq!(r.text, "     1 KB ");
    let r = Size::from_len(7).render(4, 2);
    assert_eq!(r.text, "   7 B ");
    let r = Size::from_len(500000).render(5, 2);
    assert_eq!(r.text, "488.2 KB");
}

#[test]
fn size_render_twice_is_identical() {
    let s = Size::from_len(500000);
    let a = s.render(7, 3);
    let b = s.render(7, 3);
    assert_eq!(a.text, b.text);
    assert_eq!(a.elem, b.elem);
}
