use helix_ios::style::{diff_modifiers, Color, Modifier, SgrModifiers, TermColor, TermUnderline, UnderlineStyle};

fn m(bold: bool, dim: bool, slow: bool, rapid: bool) -> Modifier {
    let mut x = Modifier::empty();
    x.bold = bold;
    x.dim = dim;
    x.slow_blink = slow;
    x.rapid_blink = rapid;
    x
}

#[test]
fn equal_modifiers_need_no_code() {
    let a = m(true, false, true, false);
    assert!(diff_modifiers(a, a).is_empty());
    assert_eq!(diff_modifiers(a, a), SgrModifiers::none());
}

#[test]
fn dropping_bold_keeps_dim() {
    let d = diff_modifiers(m(true, true, false, false), m(false, true, false, false));
    let mut expected = SgrModifiers::none();
    expected.intensity_normal = true;
    expected.intensity_dim = true;
    assert_eq!(d, expected);
}

#[test]
fn dropping_dim_while_bold_stays_only_normalises() {
    // One of the inputs on which the terminal loses bold as well.
    let d = diff_modifiers(m(true, true, false, false), m(true, false, false, false));
    let mut expected = SgrModifiers::none();
    expected.intensity_normal = true;
    assert_eq!(d, expected);
}

#[test]
fn every_flag_on_and_off() {
    let all = Modifier {
        bold: true,
        dim: false,
        italic: true,
        slow_blink: false,
        rapid_blink: true,
        reversed: true,
        hidden: true,
        crossed_out: true,
    };
    let on = diff_modifiers(Modifier::empty(), all);
    assert!(on.intensity_bold && on.italic && on.blink_rapid && on.reverse && on.invisible && on.strike_through);
    assert!(!on.intensity_normal && !on.no_italic && !on.blink_none && !on.no_reverse);
    let off = diff_modifiers(all, Modifier::empty());
    assert!(off.intensity_normal && off.no_italic && off.blink_none && off.no_reverse && off.no_invisible && off.no_strike_through);
    assert!(!off.intensity_dim && !off.intensity_bold);
}

#[test]
fn switching_blink_speed() {
    let d = diff_modifiers(m(false, false, true, false), m(false, false, false, true));
    assert!(d.blink_none && d.blink_rapid && !d.blink_slow);
}

#[test]
fn modifier_bits_match_the_terminal_flags() {
    let mut all = SgrModifiers::none();
    assert_eq!(all.bits(), 0);
    all.intensity_normal = true;
    assert_eq!(all.bits(), 1 << 2);
    all.no_strike_through = true;
    assert_eq!(all.bits(), (1 << 2) | (1 << 21));
    let mut every = SgrModifiers::none();
    every.intensity_normal = true;
    every.intensity_dim = true;
    every.intensity_bold = true;
    every.blink_none = true;
    every.blink_slow = true;
    every.blink_rapid = true;
    every.italic = true;
    every.no_italic = true;
    every.reverse = true;
    every.no_reverse = true;
    every.invisible = true;
    every.no_invisible = true;
    every.strike_through = true;
    every.no_strike_through = true;
    assert_eq!(every.bits(), 0b11_1111_1111_1000_0001_1100);
}

#[test]
fn difference_keeps_flags_the_other_lacks() {
    let a = m(true, true, false, false);
    let b = m(true, false, false, true);
    assert_eq!(a.difference(&b), m(false, true, false, false));
}

#[test]
fn color_conversion() {
    assert_eq!(Color::Reset.to_term(), TermColor::Reset);
    assert_eq!(Color::Black.to_term(), TermColor::Indexed(0));
    assert_eq!(Color::Cyan.to_term(), TermColor::Indexed(6));
    assert_eq!(Color::LightGray.to_term(), TermColor::Indexed(7));
    assert_eq!(Color::Gray.to_term(), TermColor::Indexed(8));
    assert_eq!(Color::LightCyan.to_term(), TermColor::Indexed(14));
    assert_eq!(Color::White.to_term(), TermColor::Indexed(15));
    assert_eq!(Color::Rgb(1, 2, 3).to_term(), TermColor::Rgb(1, 2, 3));
    assert_eq!(Color::Indexed(200).to_term(), TermColor::Indexed(200));
}

#[test]
fn underline_conversion() {
    assert_eq!(UnderlineStyle::Reset.to_term(), TermUnderline::NoUnderline);
    assert_eq!(UnderlineStyle::Line.to_term(), TermUnderline::Single);
    assert_eq!(UnderlineStyle::Curl.to_term(), TermUnderline::Curly);
    assert_eq!(UnderlineStyle::DoubleLine.to_term(), TermUnderline::Double);
}
