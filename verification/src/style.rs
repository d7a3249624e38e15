//! Cell styles as the editor describes them, and the terminal's Select
//! Graphic Rendition codes they are sent as.
use vstd::prelude::*;

verus! {

/// A cell color as the editor's themes name it.
#[derive(Clone, Copy, Debug, PartialEq, Eq, Structural)]
pub enum Color {
    Reset,
    Black,
    Red,
    Green,
    Yellow,
    Blue,
    Magenta,
    Cyan,
    Gray,
    LightRed,
    LightGreen,
    LightYellow,
    LightBlue,
    LightMagenta,
    LightCyan,
    LightGray,
    White,
    Rgb(u8, u8, u8),
    Indexed(u8),
}

/// A color as the terminal receives it: the default color, an entry of the
/// 256-color palette, or an opaque true color.
#[derive(Clone, Copy, Debug, PartialEq, Eq, Structural)]
pub enum TermColor {
    Reset,
    Indexed(u8),
    Rgb(u8, u8, u8),
}

/// The underline style of a cell as the editor describes it.
#[derive(Clone, Copy, Debug, PartialEq, Eq, Structural)]
pub enum UnderlineStyle {
    Reset,
    Line,
    Curl,
    Dotted,
    Dashed,
    DoubleLine,
}

/// An underline style as the terminal receives it.
#[derive(Clone, Copy, Debug, PartialEq, Eq, Structural)]
pub enum TermUnderline {
    NoUnderline,
    Single,
    Double,
    Curly,
    Dotted,
    Dashed,
}

/// The text modifiers of a cell, one flag each.
#[derive(Clone, Copy, Debug, PartialEq, Eq, Structural)]
pub struct Modifier {
    pub bold: bool,
    pub dim: bool,
    pub italic: bool,
    pub slow_blink: bool,
    pub rapid_blink: bool,
    pub reversed: bool,
    pub hidden: bool,
    pub crossed_out: bool,
}

/// The SGR modifier codes that a style change may send, one flag each. Each
/// flag stands for the terminal's code of the same name: `intensity_normal` is
/// SGR 22, `intensity_dim` SGR 2, `intensity_bold` SGR 1, `blink_none` SGR 25,
/// `blink_slow` SGR 5, `blink_rapid` SGR 6, `italic` SGR 3, `no_italic` SGR 23,
/// `reverse` SGR 7, `no_reverse` SGR 27, `invisible` SGR 8, `no_invisible`
/// SGR 28, `strike_through` SGR 9 and `no_strike_through` SGR 29.
#[derive(Clone, Copy, Debug, PartialEq, Eq, Structural)]
pub struct SgrModifiers {
    pub intensity_normal: bool,
    pub intensity_dim: bool,
    pub intensity_bold: bool,
    pub blink_none: bool,
    pub blink_slow: bool,
    pub blink_rapid: bool,
    pub italic: bool,
    pub no_italic: bool,
    pub reverse: bool,
    pub no_reverse: bool,
    pub invisible: bool,
    pub no_invisible: bool,
    pub strike_through: bool,
    pub no_strike_through: bool,
}

impl Modifier {
    /// The modifier set with no flag.
    pub open spec fn spec_empty() -> Modifier {
        Modifier {
            bold: false,
            dim: false,
            italic: false,
            slow_blink: false,
            rapid_blink: false,
            reversed: false,
            hidden: false,
            crossed_out: false,
        }
    }

    /// Returns the modifier set with no flag.
    pub fn empty() -> (m: Modifier)
        ensures
            m == Modifier::spec_empty(),
    {
        Modifier {
            bold: false,
            dim: false,
            italic: false,
            slow_blink: false,
            rapid_blink: false,
            reversed: false,
            hidden: false,
            crossed_out: false,
        }
    }

    /// The flags of `self` that `other` lacks.
    pub open spec fn spec_difference(self, other: Modifier) -> Modifier {
        Modifier {
            bold: self.bold && !other.bold,
            dim: self.dim && !other.dim,
            italic: self.italic && !other.italic,
            slow_blink: self.slow_blink && !other.slow_blink,
            rapid_blink: self.rapid_blink && !other.rapid_blink,
            reversed: self.reversed && !other.reversed,
            hidden: self.hidden && !other.hidden,
            crossed_out: self.crossed_out && !other.crossed_out,
        }
    }

    /// Returns the flags of `self` that `other` lacks.
    pub fn difference(&self, other: &Modifier) -> (d: Modifier)
        ensures
            d == self.spec_difference(*other),
    {
        Modifier {
            bold: self.bold && !other.bold,
            dim: self.dim && !other.dim,
            italic: self.italic && !other.italic,
            slow_blink: self.slow_blink && !other.slow_blink,
            rapid_blink: self.rapid_blink && !other.rapid_blink,
            reversed: self.reversed && !other.reversed,
            hidden: self.hidden && !other.hidden,
            crossed_out: self.crossed_out && !other.crossed_out,
        }
    }
}

/// `bit` when `set` holds, else 0.
#[verifier::opaque]
pub open spec fn flag_value(set: bool, bit: int) -> int {
    if set {
        bit
    } else {
        0
    }
}

impl SgrModifiers {
    /// The set with no code.
    pub open spec fn spec_none() -> SgrModifiers {
        SgrModifiers {
            intensity_normal: false,
            intensity_dim: false,
            intensity_bold: false,
            blink_none: false,
            blink_slow: false,
            blink_rapid: false,
            italic: false,
            no_italic: false,
            reverse: false,
            no_reverse: false,
            invisible: false,
            no_invisible: false,
            strike_through: false,
            no_strike_through: false,
        }
    }

    /// Returns the set with no code.
    pub fn none() -> (m: SgrModifiers)
        ensures
            m == SgrModifiers::spec_none(),
    {
        SgrModifiers {
            intensity_normal: false,
            intensity_dim: false,
            intensity_bold: false,
            blink_none: false,
            blink_slow: false,
            blink_rapid: false,
            italic: false,
            no_italic: false,
            reverse: false,
            no_reverse: false,
            invisible: false,
            no_invisible: false,
            strike_through: false,
            no_strike_through: false,
        }
    }

    /// Whether no code is in the set.
    pub open spec fn spec_is_empty(self) -> bool {
        self == SgrModifiers::spec_none()
    }

    /// Returns whether no code is in the set.
    pub fn is_empty(&self) -> (b: bool)
        ensures
            b == self.spec_is_empty(),
    {
        !(self.intensity_normal || self.intensity_dim || self.intensity_bold || self.blink_none
            || self.blink_slow || self.blink_rapid || self.italic || self.no_italic || self.reverse
            || self.no_reverse || self.invisible || self.no_invisible || self.strike_through
            || self.no_strike_through)
    }

    /// The terminal's bit for each code, as the flag set that carries the codes
    /// to the terminal numbers them.
    pub open spec fn spec_bits(self) -> int {
        flag_value(self.intensity_normal, 0x4) + flag_value(self.intensity_dim, 0x8)
            + flag_value(self.intensity_bold, 0x10) + flag_value(self.blink_none, 0x800)
            + flag_value(self.blink_slow, 0x1000) + flag_value(self.blink_rapid, 0x2000)
            + flag_value(self.italic, 0x4000) + flag_value(self.no_italic, 0x8000)
            + flag_value(self.reverse, 0x10000) + flag_value(self.no_reverse, 0x20000)
            + flag_value(self.invisible, 0x40000) + flag_value(self.no_invisible, 0x80000)
            + flag_value(self.strike_through, 0x100000) + flag_value(self.no_strike_through, 0x200000)
    }

    /// Returns the terminal's bit pattern for this set of codes.
    pub fn bits(&self) -> (b: u32)
        ensures
            b as int == self.spec_bits(),
    {
        let low = flag_bit(self.intensity_normal, 0x4) + flag_bit(self.intensity_dim, 0x8)
            + flag_bit(self.intensity_bold, 0x10) + flag_bit(self.blink_none, 0x800)
            + flag_bit(self.blink_slow, 0x1000) + flag_bit(self.blink_rapid, 0x2000)
            + flag_bit(self.italic, 0x4000);
        let high = flag_bit(self.no_italic, 0x8000) + flag_bit(self.reverse, 0x10000)
            + flag_bit(self.no_reverse, 0x20000) + flag_bit(self.invisible, 0x40000)
            + flag_bit(self.no_invisible, 0x80000) + flag_bit(self.strike_through, 0x100000)
            + flag_bit(self.no_strike_through, 0x200000);
        low + high
    }
}

/// Each code on its own is sent as the terminal's flag of the same SGR code,
/// one bit each: intensity normal (SGR 22) bit 2, dim (SGR 2) bit 3, bold
/// (SGR 1) bit 4, blink off (SGR 25) bit 11, slow blink (SGR 5) bit 12, rapid
/// blink (SGR 6) bit 13, italic (SGR 3) bit 14, italic off (SGR 23) bit 15,
/// reverse (SGR 7) bit 16, reverse off (SGR 27) bit 17, invisible (SGR 8) bit
/// 18, invisible off (SGR 28) bit 19, strike-through (SGR 9) bit 20 and
/// strike-through off (SGR 29) bit 21. The empty set sends no bit.
pub proof fn lemma_single_code_bits()
    ensures
        SgrModifiers::spec_none().spec_bits() == 0,
        (SgrModifiers { intensity_normal: true, ..SgrModifiers::spec_none() }).spec_bits() == 0x4,
        (SgrModifiers { intensity_dim: true, ..SgrModifiers::spec_none() }).spec_bits() == 0x8,
        (SgrModifiers { intensity_bold: true, ..SgrModifiers::spec_none() }).spec_bits() == 0x10,
        (SgrModifiers { blink_none: true, ..SgrModifiers::spec_none() }).spec_bits() == 0x800,
        (SgrModifiers { blink_slow: true, ..SgrModifiers::spec_none() }).spec_bits() == 0x1000,
        (SgrModifiers { blink_rapid: true, ..SgrModifiers::spec_none() }).spec_bits() == 0x2000,
        (SgrModifiers { italic: true, ..SgrModifiers::spec_none() }).spec_bits() == 0x4000,
        (SgrModifiers { no_italic: true, ..SgrModifiers::spec_none() }).spec_bits() == 0x8000,
        (SgrModifiers { reverse: true, ..SgrModifiers::spec_none() }).spec_bits() == 0x10000,
        (SgrModifiers { no_reverse: true, ..SgrModifiers::spec_none() }).spec_bits() == 0x20000,
        (SgrModifiers { invisible: true, ..SgrModifiers::spec_none() }).spec_bits() == 0x40000,
        (SgrModifiers { no_invisible: true, ..SgrModifiers::spec_none() }).spec_bits() == 0x80000,
        (SgrModifiers { strike_through: true, ..SgrModifiers::spec_none() }).spec_bits() == 0x100000,
        (SgrModifiers { no_strike_through: true, ..SgrModifiers::spec_none() }).spec_bits() == 0x200000,
{
    reveal(flag_value);
}

/// Returns `bit` when `set` holds, else 0.
fn flag_bit(set: bool, bit: u32) -> (r: u32)
    ensures
        r as int == flag_value(set, bit as int),
        r <= bit,
{
    reveal(flag_value);
    if set {
        bit
    } else {
        0
    }
}

/// The codes that take a terminal rendering the modifiers `from` to one
/// rendering `to`: for each flag that `to` drops, the code that switches it
/// off (dropping bold switches to normal intensity and back to dim when `to`
/// is dim; dropping either blink stops blinking); for each flag that `to`
/// adds, the code that switches it on.
pub open spec fn spec_diff_modifiers(from: Modifier, to: Modifier) -> SgrModifiers {
    let removed = from.spec_difference(to);
    let added = to.spec_difference(from);
    SgrModifiers {
        intensity_normal: removed.bold || removed.dim,
        intensity_dim: (removed.bold && to.dim) || added.dim,
        intensity_bold: added.bold,
        blink_none: removed.slow_blink || removed.rapid_blink,
        blink_slow: added.slow_blink,
        blink_rapid: added.rapid_blink,
        italic: added.italic,
        no_italic: removed.italic,
        reverse: added.reversed,
        no_reverse: removed.reversed,
        invisible: added.hidden,
        no_invisible: removed.hidden,
        strike_through: added.crossed_out,
        no_strike_through: removed.crossed_out,
    }
}

/// Returns the codes that take a terminal rendering `from` to `to`.
pub fn diff_modifiers(from: Modifier, to: Modifier) -> (modifiers: SgrModifiers)
    ensures
        modifiers == spec_diff_modifiers(from, to),
{
    let mut modifiers = SgrModifiers::none();

    let removed = from.difference(&to);
    if removed.reversed {
        modifiers.no_reverse = true;
    }
    if removed.bold {
        modifiers.intensity_normal = true;
        if to.dim {
            modifiers.intensity_dim = true;
        }
    }
    if removed.dim {
        modifiers.intensity_normal = true;
    }
    if removed.italic {
        modifiers.no_italic = true;
    }
    if removed.crossed_out {
        modifiers.no_strike_through = true;
    }
    if removed.hidden {
        modifiers.no_invisible = true;
    }
    if removed.slow_blink || removed.rapid_blink {
        modifiers.blink_none = true;
    }

    let added = to.difference(&from);
    if added.reversed {
        modifiers.reverse = true;
    }
    if added.bold {
        modifiers.intensity_bold = true;
    }
    if added.dim {
        modifiers.intensity_dim = true;
    }
    if added.italic {
        modifiers.italic = true;
    }
    if added.crossed_out {
        modifiers.strike_through = true;
    }
    if added.hidden {
        modifiers.invisible = true;
    }
    if added.slow_blink {
        modifiers.blink_slow = true;
    }
    if added.rapid_blink {
        modifiers.blink_rapid = true;
    }

    modifiers
}

/// The modifiers a terminal renders after receiving the codes `m` while
/// rendering `state`. Codes take effect in the order in which they are sent:
/// normal intensity, dim, bold, blink off, slow blink, rapid blink, italic,
/// italic off, reverse, reverse off, invisible, invisible off, strike-through,
/// strike-through off. Normal intensity clears both bold and dim; blink off
/// clears both blink flags; every other code sets or clears its own flag.
pub open spec fn apply_sgr_modifiers(state: Modifier, m: SgrModifiers) -> Modifier {
    Modifier {
        bold: if m.intensity_bold {
            true
        } else if m.intensity_normal {
            false
        } else {
            state.bold
        },
        dim: if m.intensity_dim {
            true
        } else if m.intensity_normal {
            false
        } else {
            state.dim
        },
        slow_blink: if m.blink_slow {
            true
        } else if m.blink_none {
            false
        } else {
            state.slow_blink
        },
        rapid_blink: if m.blink_rapid {
            true
        } else if m.blink_none {
            false
        } else {
            state.rapid_blink
        },
        italic: if m.no_italic {
            false
        } else if m.italic {
            true
        } else {
            state.italic
        },
        reversed: if m.no_reverse {
            false
        } else if m.reverse {
            true
        } else {
            state.reversed
        },
        hidden: if m.no_invisible {
            false
        } else if m.invisible {
            true
        } else {
            state.hidden
        },
        crossed_out: if m.no_strike_through {
            false
        } else if m.strike_through {
            true
        } else {
            state.crossed_out
        },
    }
}

/// The changes of style whose codes cannot be told apart by a terminal: dim
/// dropped while bold stays (normal intensity also ends bold), and one blink
/// dropped while the other stays (blink off ends both).
pub open spec fn shared_code_conflict(from: Modifier, to: Modifier) -> bool {
    ||| from.dim && !to.dim && from.bold && to.bold
    ||| from.slow_blink && !to.slow_blink && from.rapid_blink && to.rapid_blink
    ||| from.rapid_blink && !to.rapid_blink && from.slow_blink && to.slow_blink
}

/// A terminal rendering `from` renders `to` after receiving the codes of
/// `diff_modifiers(from, to)`, except where one code ends two flags and only
/// one of them is dropped.
pub proof fn lemma_diff_modifiers_reaches_target(from: Modifier, to: Modifier)
    requires
        !shared_code_conflict(from, to),
    ensures
        apply_sgr_modifiers(from, spec_diff_modifiers(from, to)) == to,
{
}

/// A style change never sends a code together with its opposite.
pub proof fn lemma_diff_modifiers_consistent(from: Modifier, to: Modifier)
    ensures
        ({
            let m = spec_diff_modifiers(from, to);
            &&& !(m.italic && m.no_italic)
            &&& !(m.reverse && m.no_reverse)
            &&& !(m.invisible && m.no_invisible)
            &&& !(m.strike_through && m.no_strike_through)
        }),
{
}

/// No codes are sent between equal styles, and some code is sent between
/// different ones.
pub proof fn lemma_diff_modifiers_empty_iff_equal(from: Modifier, to: Modifier)
    ensures
        spec_diff_modifiers(from, to).spec_is_empty() <==> from == to,
{
}

/// The terminal color that an editor color is sent as: the eight basic colors
/// are palette entries 0 to 7, `Gray` is bright black (8), the light colors are
/// the bright entries 9 to 14, `LightGray` is the basic white (7), `White` the
/// bright white (15); indexed and RGB colors are sent as they are.
pub open spec fn spec_term_color(c: Color) -> TermColor {
    match c {
        Color::Reset => TermColor::Reset,
        Color::Black => TermColor::Indexed(0),
        Color::Red => TermColor::Indexed(1),
        Color::Green => TermColor::Indexed(2),
        Color::Yellow => TermColor::Indexed(3),
        Color::Blue => TermColor::Indexed(4),
        Color::Magenta => TermColor::Indexed(5),
        Color::Cyan => TermColor::Indexed(6),
        Color::LightGray => TermColor::Indexed(7),
        Color::Gray => TermColor::Indexed(8),
        Color::LightRed => TermColor::Indexed(9),
        Color::LightGreen => TermColor::Indexed(10),
        Color::LightYellow => TermColor::Indexed(11),
        Color::LightBlue => TermColor::Indexed(12),
        Color::LightMagenta => TermColor::Indexed(13),
        Color::LightCyan => TermColor::Indexed(14),
        Color::White => TermColor::Indexed(15),
        Color::Rgb(r, g, b) => TermColor::Rgb(r, g, b),
        Color::Indexed(i) => TermColor::Indexed(i),
    }
}

/// Each named color is sent exactly as its entry of the ANSI palette would be:
/// black, red, green, yellow, blue, magenta and cyan are entries 0 to 6,
/// light gray (the basic white) is 7, gray (bright black) is 8, the light
/// colors are the bright entries 9 to 14 and white is 15. A palette entry is
/// sent as itself, and the default color is sent as the default.
pub proof fn lemma_named_colors_are_palette_entries(i: u8)
    ensures
        spec_term_color(Color::Black) == spec_term_color(Color::Indexed(0)),
        spec_term_color(Color::Red) == spec_term_color(Color::Indexed(1)),
        spec_term_color(Color::Green) == spec_term_color(Color::Indexed(2)),
        spec_term_color(Color::Yellow) == spec_term_color(Color::Indexed(3)),
        spec_term_color(Color::Blue) == spec_term_color(Color::Indexed(4)),
        spec_term_color(Color::Magenta) == spec_term_color(Color::Indexed(5)),
        spec_term_color(Color::Cyan) == spec_term_color(Color::Indexed(6)),
        spec_term_color(Color::LightGray) == spec_term_color(Color::Indexed(7)),
        spec_term_color(Color::Gray) == spec_term_color(Color::Indexed(8)),
        spec_term_color(Color::LightRed) == spec_term_color(Color::Indexed(9)),
        spec_term_color(Color::LightGreen) == spec_term_color(Color::Indexed(10)),
        spec_term_color(Color::LightYellow) == spec_term_color(Color::Indexed(11)),
        spec_term_color(Color::LightBlue) == spec_term_color(Color::Indexed(12)),
        spec_term_color(Color::LightMagenta) == spec_term_color(Color::Indexed(13)),
        spec_term_color(Color::LightCyan) == spec_term_color(Color::Indexed(14)),
        spec_term_color(Color::White) == spec_term_color(Color::Indexed(15)),
        spec_term_color(Color::Indexed(i)) == TermColor::Indexed(i),
        spec_term_color(Color::Reset) == TermColor::Reset,
{
}

impl Color {
    /// Returns the terminal color this color is sent as.
    pub fn to_term(&self) -> (t: TermColor)
        ensures
            t == spec_term_color(*self),
    {
        match self {
            Color::Reset => TermColor::Reset,
            Color::Black => TermColor::Indexed(0),
            Color::Red => TermColor::Indexed(1),
            Color::Green => TermColor::Indexed(2),
            Color::Yellow => TermColor::Indexed(3),
            Color::Blue => TermColor::Indexed(4),
            Color::Magenta => TermColor::Indexed(5),
            Color::Cyan => TermColor::Indexed(6),
            Color::LightGray => TermColor::Indexed(7),
            Color::Gray => TermColor::Indexed(8),
            Color::LightRed => TermColor::Indexed(9),
            Color::LightGreen => TermColor::Indexed(10),
            Color::LightYellow => TermColor::Indexed(11),
            Color::LightBlue => TermColor::Indexed(12),
            Color::LightMagenta => TermColor::Indexed(13),
            Color::LightCyan => TermColor::Indexed(14),
            Color::White => TermColor::Indexed(15),
            Color::Rgb(r, g, b) => TermColor::Rgb(*r, *g, *b),
            Color::Indexed(i) => TermColor::Indexed(*i),
        }
    }
}

/// The terminal underline that an editor underline style is sent as.
pub open spec fn spec_term_underline(u: UnderlineStyle) -> TermUnderline {
    match u {
        UnderlineStyle::Reset => TermUnderline::NoUnderline,
        UnderlineStyle::Line => TermUnderline::Single,
        UnderlineStyle::Curl => TermUnderline::Curly,
        UnderlineStyle::Dotted => TermUnderline::Dotted,
        UnderlineStyle::Dashed => TermUnderline::Dashed,
        UnderlineStyle::DoubleLine => TermUnderline::Double,
    }
}

impl UnderlineStyle {
    /// Returns the terminal underline this style is sent as.
    pub fn to_term(&self) -> (t: TermUnderline)
        ensures
            t == spec_term_underline(*self),
    {
        match self {
            UnderlineStyle::Reset => TermUnderline::NoUnderline,
            UnderlineStyle::Line => TermUnderline::Single,
            UnderlineStyle::Curl => TermUnderline::Curly,
            UnderlineStyle::Dotted => TermUnderline::Dotted,
            UnderlineStyle::Dashed => TermUnderline::Dashed,
            UnderlineStyle::DoubleLine => TermUnderline::Double,
        }
    }
}

} // verus!
