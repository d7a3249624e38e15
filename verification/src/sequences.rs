//! The control sequences the terminal backend sends, formatted by the
//! terminal library. Each sequence starts with the control sequence
//! introducer `ESC [`.
use vstd::prelude::*;
use termina::escape::csi::{
    Csi, Cursor, DecPrivateMode, DecPrivateModeCode as C, Edit, EraseInDisplay, Mode, Sgr,
};
use termina::style::{ColorSpec, CursorStyle, RgbColor, Underline};
use termina::OneBased;
use crate::style::{TermColor, TermUnderline};
use crate::text::decimal;

verus! {

/// The escape byte.
pub const ESC: u8 = 0x1b;

/// The DEC private modes the backend switches.
#[derive(Clone, Copy, Debug, PartialEq, Eq, Structural)]
pub enum DecMode {
    /// Mode 25: the cursor is shown.
    ShowCursor,
    /// Mode 1000: mouse button press and release reports.
    MouseTracking,
    /// Mode 1002: mouse button and drag reports.
    ButtonEventMouse,
    /// Mode 1003: mouse motion reports.
    AnyEventMouse,
    /// Mode 1004: focus in and focus out reports.
    FocusTracking,
    /// Mode 1006: SGR-encoded mouse coordinates.
    SgrMouse,
    /// Mode 1015: RXVT-encoded mouse coordinates.
    RxvtMouse,
    /// Mode 1049: the cleared alternate screen.
    ClearAndEnableAlternateScreen,
    /// Mode 2004: bracketed paste.
    BracketedPaste,
    /// Mode 2026: synchronized output.
    SynchronizedOutput,
}

/// The number of a DEC private mode.
pub open spec fn dec_mode_code(mode: DecMode) -> nat {
    match mode {
        DecMode::ShowCursor => 25,
        DecMode::MouseTracking => 1000,
        DecMode::ButtonEventMouse => 1002,
        DecMode::AnyEventMouse => 1003,
        DecMode::FocusTracking => 1004,
        DecMode::SgrMouse => 1006,
        DecMode::RxvtMouse => 1015,
        DecMode::ClearAndEnableAlternateScreen => 1049,
        DecMode::BracketedPaste => 2004,
        DecMode::SynchronizedOutput => 2026,
    }
}

/// The cursor shapes the backend selects.
#[derive(Clone, Copy, Debug, PartialEq, Eq, Structural)]
pub enum CursorShape {
    /// The terminal's configured shape.
    Default,
    /// A steady block.
    SteadyBlock,
    /// A steady underline.
    SteadyUnderline,
    /// A steady vertical bar.
    SteadyBar,
}

/// The number of a cursor shape in the cursor-style sequence.
pub open spec fn cursor_shape_code(shape: CursorShape) -> nat {
    match shape {
        CursorShape::Default => 0,
        CursorShape::SteadyBlock => 2,
        CursorShape::SteadyUnderline => 4,
        CursorShape::SteadyBar => 6,
    }
}

/// `payload` behind the control sequence introducer `ESC [`.
pub open spec fn csi(payload: Seq<u8>) -> Seq<u8> {
    seq![ESC, 0x5b] + payload
}

/// `ESC [ ? <mode> h` sets a mode; `ESC [ ? <mode> l` resets it.
pub open spec fn dec_mode_text(mode: DecMode, set: bool) -> Seq<u8> {
    csi(seq![0x3fu8] + decimal(dec_mode_code(mode)) + seq![if set { 0x68u8 } else { 0x6cu8 }])
}

/// `ESC [ <shape> SP q` selects a cursor shape.
pub open spec fn cursor_shape_text(shape: CursorShape) -> Seq<u8> {
    csi(decimal(cursor_shape_code(shape)) + seq![0x20u8, 0x71u8])
}

/// `ESC [ <line> ; <column> H` moves the cursor; the numbers sent count from 1,
/// `line` and `col` from 0.
pub open spec fn cursor_position_text(line: u16, col: u16) -> Seq<u8> {
    csi(decimal(line as nat + 1) + seq![0x3bu8] + decimal(col as nat + 1) + seq![0x48u8])
}

/// `ESC [ 2 J` erases the whole display.
pub open spec fn erase_display_text() -> Seq<u8> {
    csi(seq![0x32u8, 0x4au8])
}

/// `ESC [ m` resets every graphic rendition.
pub open spec fn sgr_reset_text() -> Seq<u8> {
    csi(seq![0x6du8])
}

/// Sets the underline color: `ESC [ 59 m` for the default color,
/// `ESC [ 58:5:<index> m` for a palette entry, `ESC [ 58:2::<r>:<g>:<b> m` for a
/// true color.
pub open spec fn underline_color_text(color: TermColor) -> Seq<u8> {
    let params = match color {
        TermColor::Reset => seq![0x35u8, 0x39u8],
        TermColor::Indexed(i) => seq![0x35u8, 0x38u8, 0x3au8, 0x35u8, 0x3au8] + decimal(i as nat),
        TermColor::Rgb(r, g, b) => seq![0x35u8, 0x38u8, 0x3au8, 0x32u8, 0x3au8, 0x3au8] + decimal(
            r as nat,
        ) + seq![0x3au8] + decimal(g as nat) + seq![0x3au8] + decimal(b as nat),
    };
    csi(params + seq![0x6du8])
}

/// Sets the underline style: `24` none, `4` single, `21` double, `4:3` curly,
/// `4:4` dotted, `4:5` dashed, each as `ESC [ <params> m`.
pub open spec fn underline_style_text(style: TermUnderline) -> Seq<u8> {
    let params = match style {
        TermUnderline::NoUnderline => seq![0x32u8, 0x34u8],
        TermUnderline::Single => seq![0x34u8],
        TermUnderline::Double => seq![0x32u8, 0x31u8],
        TermUnderline::Curly => seq![0x34u8, 0x3au8, 0x33u8],
        TermUnderline::Dotted => seq![0x34u8, 0x3au8, 0x34u8],
        TermUnderline::Dashed => seq![0x34u8, 0x3au8, 0x35u8],
    };
    csi(params + seq![0x6du8])
}

/// The bytes the terminal library writes for one grouped graphic-rendition
/// update with the given foreground, background and modifier bits, no
/// underline color and its default parameter budget per sequence.
pub uninterp spec fn sgr_attributes_text(
    foreground: Option<TermColor>,
    background: Option<TermColor>,
    modifier_bits: u32,
) -> Seq<u8>;

/// Formats `termina::escape::csi::Csi::Mode` holding a set (`set`) or reset
/// of the DEC private mode `mode`, through termina's `Display` for `Csi`.
/// Claimed, as termina's source writes it: `ESC [ ?`, the mode's number in
/// decimal, then `h` or `l`.
#[verifier::external_body]
pub(crate) fn dec_mode_sequence(mode: DecMode, set: bool) -> (out: Vec<u8>)
    ensures
        out@ == dec_mode_text(mode, set),
{
    let code = match mode {
        DecMode::ShowCursor => C::ShowCursor, DecMode::MouseTracking => C::MouseTracking,
        DecMode::ButtonEventMouse => C::ButtonEventMouse, DecMode::AnyEventMouse => C::AnyEventMouse,
        DecMode::FocusTracking => C::FocusTracking, DecMode::SgrMouse => C::SGRMouse,
        DecMode::RxvtMouse => C::RXVTMouse, DecMode::BracketedPaste => C::BracketedPaste,
        DecMode::ClearAndEnableAlternateScreen => C::ClearAndEnableAlternateScreen,
        DecMode::SynchronizedOutput => C::SynchronizedOutput,
    };
    let mode = DecPrivateMode::Code(code);
    let change = if set { Mode::SetDecPrivateMode(mode) } else { Mode::ResetDecPrivateMode(mode) };
    Csi::Mode(change).to_string().into_bytes()
}

/// Formats `Csi::Cursor(Cursor::CursorStyle(..))` through termina's
/// `Display`. Claimed, as termina's source writes it: `ESC [`, the style's
/// number in decimal, then ` q`.
#[verifier::external_body]
pub(crate) fn cursor_shape_sequence(shape: CursorShape) -> (out: Vec<u8>)
    ensures
        out@ == cursor_shape_text(shape),
{
    let style = match shape {
        CursorShape::Default => CursorStyle::Default,
        CursorShape::SteadyBlock => CursorStyle::SteadyBlock,
        CursorShape::SteadyUnderline => CursorStyle::SteadyUnderline,
        CursorShape::SteadyBar => CursorStyle::SteadyBar,
    };
    Csi::Cursor(Cursor::CursorStyle(style)).to_string().into_bytes()
}

/// Formats `Csi::Cursor(Cursor::Position { line, col })` through termina's
/// `Display`, after `OneBased::from_zero_based` on each coordinate (which
/// panics on `u16::MAX`, hence the `requires`). Claimed, as termina's source
/// writes it: `ESC [`, `line + 1`, `;`, `col + 1` in decimal, then `H`.
#[verifier::external_body]
pub(crate) fn cursor_position_sequence(line: u16, col: u16) -> (out: Vec<u8>)
    requires
        line < u16::MAX,
        col < u16::MAX,
    ensures
        out@ == cursor_position_text(line, col),
{
    let line = OneBased::from_zero_based(line);
    let col = OneBased::from_zero_based(col);
    Csi::Cursor(Cursor::Position { line, col }).to_string().into_bytes()
}

/// Formats `Csi::Edit(Edit::EraseInDisplay(EraseInDisplay::EraseDisplay))`
/// through termina's `Display`. Claimed: `ESC [ 2 J`.
#[verifier::external_body]
pub(crate) fn erase_display_sequence() -> (out: Vec<u8>)
    ensures
        out@ == erase_display_text(),
{
    Csi::Edit(Edit::EraseInDisplay(EraseInDisplay::EraseDisplay)).to_string().into_bytes()
}

/// Formats `Csi::Sgr(Sgr::Reset)` through termina's `Display`. Claimed:
/// `ESC [ m` (termina leaves out the default parameter 0).
#[verifier::external_body]
pub(crate) fn sgr_reset_sequence() -> (out: Vec<u8>)
    ensures
        out@ == sgr_reset_text(),
{
    Csi::Sgr(Sgr::Reset).to_string().into_bytes()
}

/// Formats `Csi::Sgr(Sgr::UnderlineColor(..))` through termina's `Display`,
/// with the color as `ColorSpec::Reset`, `ColorSpec::PaletteIndex` or an
/// opaque `RgbColor`. Claimed, as termina's source writes it: `ESC [`, then
/// `59`, `58:5:<index>` or `58:2::<r>:<g>:<b>`, then `m`.
#[verifier::external_body]
pub(crate) fn underline_color_sequence(color: TermColor) -> (out: Vec<u8>)
    ensures
        out@ == underline_color_text(color),
{
    let spec = match color {
        TermColor::Reset => ColorSpec::Reset,
        TermColor::Indexed(i) => ColorSpec::PaletteIndex(i),
        TermColor::Rgb(r, g, b) => ColorSpec::from(RgbColor::new(r, g, b)),
    };
    Csi::Sgr(Sgr::UnderlineColor(spec)).to_string().into_bytes()
}

/// Formats `Csi::Sgr(Sgr::Underline(..))` through termina's `Display`.
/// Claimed, as termina's source writes it: `ESC [`, then `24`, `4`, `21`,
/// `4:3`, `4:4` or `4:5`, then `m`.
#[verifier::external_body]
pub(crate) fn underline_style_sequence(style: TermUnderline) -> (out: Vec<u8>)
    ensures
        out@ == underline_style_text(style),
{
    let underline = match style {
        TermUnderline::NoUnderline => Underline::None,
        TermUnderline::Single => Underline::Single,
        TermUnderline::Double => Underline::Double,
        TermUnderline::Curly => Underline::Curly,
        TermUnderline::Dotted => Underline::Dotted,
        TermUnderline::Dashed => Underline::Dashed,
    };
    Csi::Sgr(Sgr::Underline(underline)).to_string().into_bytes()
}

/// Formats `Csi::Sgr(Sgr::Attributes(..))` through termina's `Display`, the
/// attributes being termina's defaults with the given foreground and
/// background colors and `SgrModifiers::from_bits_retain(modifier_bits)`.
/// Termina orders the parameters and splits them over several sequences when
/// they exceed its budget; the bytes are only named (`sgr_attributes_text`):
/// the same arguments give the same bytes, and nothing more is claimed.
#[verifier::external_body]
pub(crate) fn sgr_attributes_sequence(
    foreground: Option<TermColor>,
    background: Option<TermColor>,
    modifier_bits: u32,
) -> (out: Vec<u8>)
    ensures
        out@ == sgr_attributes_text(foreground, background, modifier_bits),
{
    let spec = |c: TermColor| match c {
        TermColor::Reset => ColorSpec::Reset,
        TermColor::Indexed(i) => ColorSpec::PaletteIndex(i),
        TermColor::Rgb(r, g, b) => ColorSpec::from(RgbColor::new(r, g, b)),
    };
    let mut attributes = termina::escape::csi::SgrAttributes::default();
    attributes.foreground = foreground.map(spec);
    attributes.background = background.map(spec);
    attributes.modifiers = termina::escape::csi::SgrModifiers::from_bits_retain(modifier_bits);
    Csi::Sgr(Sgr::Attributes(attributes)).to_string().into_bytes()
}

} // verus!
