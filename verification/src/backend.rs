//! The terminal backend that writes ANSI escape sequences for a host terminal
//! emulator reached through a pipe. The backend collects the bytes it writes;
//! whoever owns the pipe takes them with [`PipeBackend::take_output`] and
//! flushes them.
use vstd::prelude::*;
use vstd::utf8::encode_utf8;
use crate::sequences::{
    cursor_position_sequence, cursor_position_text, cursor_shape_sequence, cursor_shape_text,
    dec_mode_sequence, dec_mode_text, erase_display_sequence, erase_display_text,
    sgr_attributes_sequence, sgr_attributes_text, sgr_reset_sequence, sgr_reset_text,
    underline_color_sequence, underline_color_text, underline_style_sequence,
    underline_style_text, CursorShape, DecMode,
};
use crate::style::{
    diff_modifiers, spec_diff_modifiers, spec_term_color, spec_term_underline, Color, Modifier,
    SgrModifiers, TermColor, UnderlineStyle,
};

verus! {

/// How the editor negotiates the kitty keyboard protocol.
#[derive(Clone, Copy, Debug, PartialEq, Eq, Structural)]
pub enum KittyKeyboardProtocol {
    Auto,
    Disabled,
    Enabled,
}

/// The terminal settings the editor hands to its backend.
#[derive(Clone, Copy, Debug, PartialEq, Eq, Structural)]
pub struct Config {
    pub enable_mouse_capture: bool,
    pub force_enable_extended_underlines: bool,
    pub kitty_keyboard_protocol: KittyKeyboardProtocol,
}

/// The cursor shapes the editor asks for.
#[derive(Clone, Copy, Debug, PartialEq, Eq, Structural)]
pub enum CursorKind {
    Block,
    Bar,
    Underline,
    Hidden,
}

/// A rectangle of cells.
#[derive(Clone, Copy, Debug, PartialEq, Eq, Structural)]
pub struct Rect {
    pub x: u16,
    pub y: u16,
    pub width: u16,
    pub height: u16,
}

/// The light or dark theme a terminal reports.
#[derive(Clone, Copy, Debug, PartialEq, Eq, Structural)]
pub enum ThemeMode {
    Light,
    Dark,
}

/// One cell of the editor's screen buffer.
#[derive(Debug)]
pub struct Cell {
    pub symbol: String,
    pub fg: Color,
    pub bg: Color,
    pub underline_color: Color,
    pub underline_style: UnderlineStyle,
    pub modifier: Modifier,
}

/// What the backend holds: the bytes written and not yet taken, the current
/// configuration, and whether synchronized output is switched on.
pub struct BackendView {
    pub written: Seq<u8>,
    pub config: Config,
    pub synchronized: bool,
}

/// A terminal backend writing to a pipe.
pub struct PipeBackend {
    output: Vec<u8>,
    config: Config,
    is_synchronized_output_set: bool,
}

impl View for PipeBackend {
    type V = BackendView;

    closed spec fn view(&self) -> BackendView {
        BackendView {
            written: self.output@,
            config: self.config,
            synchronized: self.is_synchronized_output_set,
        }
    }
}

/// The state after writing `bytes`.
pub open spec fn wrote(v: BackendView, bytes: Seq<u8>) -> BackendView {
    BackendView { written: v.written + bytes, ..v }
}

/// Switches on mouse button, drag and motion reports in RXVT and SGR
/// coordinates, in this order: modes 1000, 1002, 1003, 1015, 1006.
pub open spec fn mouse_capture_on_text() -> Seq<u8> {
    dec_mode_text(DecMode::MouseTracking, true) + dec_mode_text(DecMode::ButtonEventMouse, true)
        + dec_mode_text(DecMode::AnyEventMouse, true) + dec_mode_text(DecMode::RxvtMouse, true)
        + dec_mode_text(DecMode::SgrMouse, true)
}

/// Switches the same five mouse modes off, in the same order.
pub open spec fn mouse_capture_off_text() -> Seq<u8> {
    dec_mode_text(DecMode::MouseTracking, false) + dec_mode_text(DecMode::ButtonEventMouse, false)
        + dec_mode_text(DecMode::AnyEventMouse, false) + dec_mode_text(DecMode::RxvtMouse, false)
        + dec_mode_text(DecMode::SgrMouse, false)
}

/// Takes the terminal: the cleared alternate screen, bracketed paste, focus
/// reports, then erases the display.
pub open spec fn claim_text() -> Seq<u8> {
    dec_mode_text(DecMode::ClearAndEnableAlternateScreen, true) + dec_mode_text(
        DecMode::BracketedPaste,
        true,
    ) + dec_mode_text(DecMode::FocusTracking, true) + erase_display_text()
}

/// Gives the terminal back: the default cursor shape, then bracketed paste,
/// focus reports and the alternate screen switched off.
pub open spec fn restore_text() -> Seq<u8> {
    cursor_shape_text(CursorShape::Default) + dec_mode_text(DecMode::BracketedPaste, false)
        + dec_mode_text(DecMode::FocusTracking, false) + dec_mode_text(
        DecMode::ClearAndEnableAlternateScreen,
        false,
    )
}

/// Writes the mouse-capture switch-on when the configuration asks for mouse
/// capture.
pub open spec fn spec_enable_mouse_capture(v: BackendView) -> BackendView {
    if v.config.enable_mouse_capture {
        wrote(v, mouse_capture_on_text())
    } else {
        v
    }
}

/// Writes the mouse-capture switch-off when the configuration asks for mouse
/// capture.
pub open spec fn spec_disable_mouse_capture(v: BackendView) -> BackendView {
    if v.config.enable_mouse_capture {
        wrote(v, mouse_capture_off_text())
    } else {
        v
    }
}

/// Switches synchronized output on unless it is on already.
pub open spec fn spec_start_synchronized_render(v: BackendView) -> BackendView {
    if !v.synchronized {
        BackendView {
            synchronized: true,
            ..wrote(v, dec_mode_text(DecMode::SynchronizedOutput, true))
        }
    } else {
        v
    }
}

/// Switches synchronized output off unless it is off already.
pub open spec fn spec_end_synchronized_render(v: BackendView) -> BackendView {
    if v.synchronized {
        BackendView {
            synchronized: false,
            ..wrote(v, dec_mode_text(DecMode::SynchronizedOutput, false))
        }
    } else {
        v
    }
}

/// Takes the terminal, then switches mouse capture on as configured.
pub open spec fn spec_claim(v: BackendView) -> BackendView {
    spec_enable_mouse_capture(wrote(v, claim_text()))
}

/// Installs `config`. When it changes whether mouse capture is wanted and now
/// wants it, the switch-on is written. When it stops wanting it nothing is
/// written: the switch-off is written only when the configuration in force
/// wants mouse capture, and by then it is the new one.
pub open spec fn spec_reconfigure(v: BackendView, config: Config) -> BackendView {
    let installed = BackendView { config, ..v };
    if config.enable_mouse_capture != v.config.enable_mouse_capture {
        if config.enable_mouse_capture {
            spec_enable_mouse_capture(installed)
        } else {
            spec_disable_mouse_capture(installed)
        }
    } else {
        installed
    }
}

/// Switches mouse capture off as configured, then gives the terminal back.
pub open spec fn spec_restore(v: BackendView) -> BackendView {
    wrote(spec_disable_mouse_capture(v), restore_text())
}

/// What the backend last sent to the terminal while drawing: the colors,
/// underline and modifiers in force, and the last cell written.
#[derive(Clone, Copy, Debug)]
pub struct Pen {
    pub fg: Color,
    pub bg: Color,
    pub underline_color: Color,
    pub underline_style: UnderlineStyle,
    pub modifier: Modifier,
    pub last_pos: Option<(u16, u16)>,
}

/// The pen at the start of every draw: default colors, no underline, no
/// modifier, no cell written yet.
pub open spec fn initial_pen() -> Pen {
    Pen {
        fg: Color::Reset,
        bg: Color::Reset,
        underline_color: Color::Reset,
        underline_style: UnderlineStyle::Reset,
        modifier: Modifier::spec_empty(),
        last_pos: None,
    }
}

/// Whether the cell at (`x`, `y`) is the one right after the last cell
/// written, on the same line, so that the terminal's cursor is already there.
pub open spec fn follows_last(pen: Pen, x: u16, y: u16) -> bool {
    match pen.last_pos {
        Some(p) => x as int == p.0 as int + 1 && y == p.1,
        None => false,
    }
}

/// The foreground sent for `cell`: its color when it differs from the pen's.
pub open spec fn fg_change(pen: Pen, cell: Cell) -> Option<TermColor> {
    if cell.fg != pen.fg {
        Some(spec_term_color(cell.fg))
    } else {
        None
    }
}

/// The background sent for `cell`: its color when it differs from the pen's.
pub open spec fn bg_change(pen: Pen, cell: Cell) -> Option<TermColor> {
    if cell.bg != pen.bg {
        Some(spec_term_color(cell.bg))
    } else {
        None
    }
}

/// The modifier codes sent for `cell`: the difference from the pen's
/// modifiers when they differ.
pub open spec fn modifier_change(pen: Pen, cell: Cell) -> SgrModifiers {
    if cell.modifier != pen.modifier {
        spec_diff_modifiers(pen.modifier, cell.modifier)
    } else {
        SgrModifiers::spec_none()
    }
}

/// The cursor move written before a cell: none when the cell follows the
/// last one, else a move to it.
pub open spec fn move_text(pen: Pen, x: u16, y: u16) -> Seq<u8> {
    if follows_last(pen, x, y) {
        Seq::empty()
    } else {
        cursor_position_text(y, x)
    }
}

/// The underline color written before a cell: its own when it differs from
/// the pen's.
pub open spec fn underline_color_change_text(pen: Pen, cell: Cell) -> Seq<u8> {
    if cell.underline_color != pen.underline_color {
        underline_color_text(spec_term_color(cell.underline_color))
    } else {
        Seq::empty()
    }
}

/// The underline style written before a cell: its own when it differs from
/// the pen's.
pub open spec fn underline_style_change_text(pen: Pen, cell: Cell) -> Seq<u8> {
    if cell.underline_style != pen.underline_style {
        underline_style_text(spec_term_underline(cell.underline_style))
    } else {
        Seq::empty()
    }
}

/// The grouped graphic-rendition update written before a cell: one carrying
/// the changed foreground, background and modifier codes when any of them
/// changes.
pub open spec fn attributes_change_text(pen: Pen, cell: Cell) -> Seq<u8> {
    let fg = fg_change(pen, cell);
    let bg = bg_change(pen, cell);
    let mods = modifier_change(pen, cell);
    if fg is Some || bg is Some || !mods.spec_is_empty() {
        sgr_attributes_text(fg, bg, mods.spec_bits() as u32)
    } else {
        Seq::empty()
    }
}

/// The bytes written for one cell: a cursor move unless the cell follows the
/// last one; the underline color and then the underline style where they
/// change; one grouped graphic-rendition update where the foreground,
/// background or modifiers change; then the cell's symbol in UTF-8.
pub open spec fn cell_text(pen: Pen, x: u16, y: u16, cell: Cell) -> Seq<u8> {
    move_text(pen, x, y) + cell_body_text(pen, cell)
}

/// The bytes written for a cell after any cursor move: its style changes,
/// then its symbol.
pub open spec fn cell_body_text(pen: Pen, cell: Cell) -> Seq<u8> {
    underline_color_change_text(pen, cell) + underline_style_change_text(pen, cell)
        + attributes_change_text(pen, cell) + encode_utf8(cell.symbol@)
}

/// The pen after writing `cell` at (`x`, `y`).
pub open spec fn pen_after(x: u16, y: u16, cell: Cell) -> Pen {
    Pen {
        fg: cell.fg,
        bg: cell.bg,
        underline_color: cell.underline_color,
        underline_style: cell.underline_style,
        modifier: cell.modifier,
        last_pos: Some((x, y)),
    }
}

/// The bytes written for `cells`, in order, starting from `pen`.
pub open spec fn cells_text(pen: Pen, cells: Seq<(u16, u16, Cell)>) -> Seq<u8>
    decreases cells.len(),
{
    if cells.len() == 0 {
        Seq::empty()
    } else {
        let (x, y, cell) = cells[0];
        cell_text(pen, x, y, cell) + cells_text(pen_after(x, y, cell), cells.drop_first())
    }
}

/// Whether `cells` can be drawn from `pen`: every cell the cursor moves to
/// lies before the last column and line number (the one-based position would
/// not fit), and no cell follows one in the last column (the next column
/// would not fit).
pub open spec fn drawable(pen: Pen, cells: Seq<(u16, u16, Cell)>) -> bool
    decreases cells.len(),
{
    if cells.len() == 0 {
        true
    } else {
        let (x, y, cell) = cells[0];
        &&& (follows_last(pen, x, y) || (x < u16::MAX && y < u16::MAX))
        &&& (pen.last_pos matches Some(p) ==> p.0 < u16::MAX)
        &&& drawable(pen_after(x, y, cell), cells.drop_first())
    }
}

/// Draws `cells` inside a synchronized update: synchronized output on (unless
/// on already), the cells, a graphic-rendition reset, synchronized output off.
pub open spec fn spec_draw(v: BackendView, cells: Seq<(u16, u16, Cell)>) -> BackendView {
    let started = spec_start_synchronized_render(v);
    spec_end_synchronized_render(
        wrote(started, cells_text(initial_pen(), cells) + sgr_reset_text()),
    )
}

/// The cursor shape shown for a cursor kind.
pub open spec fn spec_cursor_shape(kind: CursorKind) -> CursorShape {
    match kind {
        CursorKind::Block => CursorShape::SteadyBlock,
        CursorKind::Bar => CursorShape::SteadyBar,
        _ => CursorShape::SteadyUnderline,
    }
}

/// Returns the pen after writing `cell` at (`x`, `y`).
fn pen_after_exec(x: u16, y: u16, cell: &Cell) -> (pen: Pen)
    ensures
        pen == pen_after(x, y, *cell),
{
    Pen {
        fg: cell.fg,
        bg: cell.bg,
        underline_color: cell.underline_color,
        underline_style: cell.underline_style,
        modifier: cell.modifier,
        last_pos: Some((x, y)),
    }
}

/// Starting a synchronized update twice writes no more than starting it once.
pub proof fn lemma_start_synchronized_render_idempotent(v: BackendView)
    ensures
        spec_start_synchronized_render(spec_start_synchronized_render(v))
            == spec_start_synchronized_render(v),
{
}

/// Ending a synchronized update twice writes no more than ending it once.
pub proof fn lemma_end_synchronized_render_idempotent(v: BackendView)
    ensures
        spec_end_synchronized_render(spec_end_synchronized_render(v))
            == spec_end_synchronized_render(v),
{
}

/// Every draw leaves synchronized output off and the configuration as it
/// was, and its bytes are the cells between a graphic-rendition reset and the
/// synchronized-output switch-off, preceded by the switch-on unless an update
/// was already running.
pub proof fn lemma_draw_is_one_synchronized_update(v: BackendView, cells: Seq<(u16, u16, Cell)>)
    ensures
        !spec_draw(v, cells).synchronized,
        spec_draw(v, cells).config == v.config,
        spec_draw(v, cells).written == v.written + (if v.synchronized {
            Seq::empty()
        } else {
            dec_mode_text(DecMode::SynchronizedOutput, true)
        }) + cells_text(initial_pen(), cells) + sgr_reset_text() + dec_mode_text(
            DecMode::SynchronizedOutput,
            false,
        ),
{
    let prefix = if v.synchronized {
        Seq::empty()
    } else {
        dec_mode_text(DecMode::SynchronizedOutput, true)
    };
    assert(spec_start_synchronized_render(v).written =~= v.written + prefix);
    assert(spec_draw(v, cells).written =~= v.written + prefix + cells_text(initial_pen(), cells)
        + sgr_reset_text() + dec_mode_text(DecMode::SynchronizedOutput, false));
}

/// Claiming the terminal switches mouse reports on exactly when restoring it
/// switches them off: both follow the configuration in force.
pub proof fn lemma_claim_and_restore_pair_mouse_capture(v: BackendView)
    ensures
        spec_claim(v).written == v.written + claim_text() + (if v.config.enable_mouse_capture {
            mouse_capture_on_text()
        } else {
            Seq::empty()
        }),
        spec_restore(v).written == v.written + (if v.config.enable_mouse_capture {
            mouse_capture_off_text()
        } else {
            Seq::empty()
        }) + restore_text(),
        spec_claim(v).config == v.config && spec_restore(v).config == v.config,
        spec_claim(v).synchronized == v.synchronized,
        spec_restore(v).synchronized == v.synchronized,
{
    if v.config.enable_mouse_capture {
    } else {
        assert(spec_claim(v).written =~= v.written + claim_text() + Seq::<u8>::empty());
        assert(spec_restore(v).written =~= v.written + Seq::<u8>::empty() + restore_text());
    }
}

/// A new configuration is always installed; the only bytes it causes are the
/// mouse-capture switch-on, written when the new configuration newly asks for
/// mouse capture.
pub proof fn lemma_reconfigure_writes_only_switch_on(v: BackendView, config: Config)
    ensures
        spec_reconfigure(v, config).config == config,
        spec_reconfigure(v, config).synchronized == v.synchronized,
        spec_reconfigure(v, config).written == v.written + (if config.enable_mouse_capture
            && !v.config.enable_mouse_capture {
            mouse_capture_on_text()
        } else {
            Seq::empty()
        }),
{
    if !(config.enable_mouse_capture && !v.config.enable_mouse_capture) {
        assert(spec_reconfigure(v, config).written =~= v.written + Seq::<u8>::empty());
    }
}

/// Whether every cell of `cells` lies right after the one before it, on the
/// same line.
pub open spec fn is_run(cells: Seq<(u16, u16, Cell)>) -> bool {
    forall|k: int|
        1 <= k < cells.len() ==> (#[trigger] cells[k]).0 as int == cells[k - 1].0 as int + 1
            && cells[k].1 == cells[k - 1].1
}

/// The bytes of `cells` drawn from `pen` without any cursor move.
pub open spec fn bodies_text(pen: Pen, cells: Seq<(u16, u16, Cell)>) -> Seq<u8>
    decreases cells.len(),
{
    if cells.len() == 0 {
        Seq::empty()
    } else {
        let (x, y, cell) = cells[0];
        cell_body_text(pen, cell) + bodies_text(pen_after(x, y, cell), cells.drop_first())
    }
}

proof fn lemma_run_after_first(pen: Pen, cells: Seq<(u16, u16, Cell)>)
    requires
        is_run(cells),
        cells.len() > 0 ==> follows_last(pen, cells[0].0, cells[0].1),
    ensures
        cells_text(pen, cells) == bodies_text(pen, cells),
    decreases cells.len(),
{
    if cells.len() > 0 {
        let (x, y, cell) = cells[0];
        let rest = cells.drop_first();
        assert forall|k: int| 1 <= k < rest.len() implies (#[trigger] rest[k]).0 as int == rest[k
            - 1].0 as int + 1 && rest[k].1 == rest[k - 1].1 by {
            assert(rest[k] == cells[k + 1]);
            assert(rest[k - 1] == cells[k]);
        }
        if rest.len() > 0 {
            assert(rest[0] == cells[1]);
        }
        lemma_run_after_first(pen_after(x, y, cell), rest);
        assert(move_text(pen, x, y) =~= Seq::<u8>::empty());
        assert(cell_text(pen, x, y, cell) =~= cell_body_text(pen, cell));
    }
}

/// Drawing a run of cells — each right after the one before it on the same
/// line — moves the cursor once, to the first of them.
pub proof fn lemma_run_moves_cursor_once(cells: Seq<(u16, u16, Cell)>)
    requires
        is_run(cells),
        cells.len() > 0,
    ensures
        cells_text(initial_pen(), cells) == cursor_position_text(cells[0].1, cells[0].0)
            + bodies_text(initial_pen(), cells),
{
    let (x, y, cell) = cells[0];
    let rest = cells.drop_first();
    assert forall|k: int| 1 <= k < rest.len() implies (#[trigger] rest[k]).0 as int == rest[k
        - 1].0 as int + 1 && rest[k].1 == rest[k - 1].1 by {
        assert(rest[k] == cells[k + 1]);
        assert(rest[k - 1] == cells[k]);
    }
    if rest.len() > 0 {
        assert(rest[0] == cells[1]);
    }
    lemma_run_after_first(pen_after(x, y, cell), rest);
    assert(cells_text(initial_pen(), cells) =~= cursor_position_text(y, x) + (cell_body_text(
        initial_pen(),
        cell,
    ) + bodies_text(pen_after(x, y, cell), rest)));
}

/// Whether two cells look the same apart from their symbols.
pub open spec fn same_style(a: Cell, b: Cell) -> bool {
    &&& a.fg == b.fg
    &&& a.bg == b.bg
    &&& a.underline_color == b.underline_color
    &&& a.underline_style == b.underline_style
    &&& a.modifier == b.modifier
}

/// A cell styled like the cell written before it, right after it, is written
/// as its symbol alone.
pub proof fn lemma_unchanged_style_writes_symbol_only(x: u16, y: u16, prev: Cell, cell: Cell)
    requires
        same_style(prev, cell),
        x < u16::MAX,
    ensures
        cell_text(pen_after(x, y, prev), (x + 1) as u16, y, cell) == encode_utf8(cell.symbol@),
{
    let pen = pen_after(x, y, prev);
    assert(modifier_change(pen, cell) == SgrModifiers::spec_none());
    assert(move_text(pen, (x + 1) as u16, y) =~= Seq::<u8>::empty());
    assert(cell_body_text(pen, cell) =~= encode_utf8(cell.symbol@));
    assert(cell_text(pen, (x + 1) as u16, y, cell) =~= encode_utf8(cell.symbol@));
}

/// Returns whether `content` can be drawn: whether every cell the cursor has
/// to move to lies before the last column and line number, and no cell
/// follows one in the last column.
pub fn can_draw(content: &[(u16, u16, Cell)]) -> (ok: bool)
    ensures
        ok == drawable(initial_pen(), content@),
{
    let ghost mut pen = initial_pen();
    let mut last_pos: Option<(u16, u16)> = None;
    let mut i: usize = 0;
    proof {
        assert(content@.skip(0) =~= content@);
    }
    while i < content.len()
        invariant
            i <= content.len(),
            pen.last_pos == last_pos,
            drawable(initial_pen(), content@) == drawable(pen, content@.skip(i as int)),
        decreases content.len() - i,
    {
        let x = content[i].0;
        let y = content[i].1;
        proof {
            assert(content@.skip(i as int).drop_first() =~= content@.skip(i + 1));
            assert(content@.skip(i as int)[0] == content@[i as int]);
        }
        let follows = match last_pos {
            Some(p) => {
                if p.0 == u16::MAX {
                    return false;
                }
                x == p.0 + 1 && y == p.1
            },
            None => false,
        };
        if !follows && (x == u16::MAX || y == u16::MAX) {
            return false;
        }
        proof {
            pen = pen_after(x, y, content@[i as int].2);
        }
        last_pos = Some((x, y));
        i += 1;
    }
    true
}

impl PipeBackend {
    /// A backend with nothing written, the given configuration and
    /// synchronized output off.
    pub fn new(config: Config) -> (backend: PipeBackend)
        ensures
            backend@.written == Seq::<u8>::empty(),
            backend@.config == config,
            !backend@.synchronized,
    {
        PipeBackend { output: Vec::new(), config, is_synchronized_output_set: false }
    }

    /// Returns the configuration in force.
    pub fn config(&self) -> (config: Config)
        ensures
            config == self@.config,
    {
        self.config
    }

    /// Returns whether synchronized output is switched on.
    pub fn is_synchronized_output_set(&self) -> (on: bool)
        ensures
            on == self@.synchronized,
    {
        self.is_synchronized_output_set
    }

    /// Hands over the bytes written so far and forgets them.
    pub fn take_output(&mut self) -> (bytes: Vec<u8>)
        ensures
            bytes@ == old(self)@.written,
            final(self)@ == (BackendView { written: Seq::empty(), ..old(self)@ }),
    {
        let mut bytes: Vec<u8> = Vec::new();
        std::mem::swap(&mut bytes, &mut self.output);
        bytes
    }

    fn write_all(&mut self, mut bytes: Vec<u8>)
        ensures
            final(self)@ == wrote(old(self)@, bytes@),
    {
        self.output.append(&mut bytes);
    }

    fn write_slice(&mut self, bytes: &[u8])
        ensures
            final(self)@ == wrote(old(self)@, bytes@),
    {
        let mut i: usize = 0;
        while i < bytes.len()
            invariant
                i <= bytes.len(),
                self@ == wrote(old(self)@, bytes@.take(i as int)),
            decreases bytes.len() - i,
        {
            self.output.push(bytes[i]);
            proof {
                assert(bytes@.take(i + 1) =~= bytes@.take(i as int).push(bytes@[i as int]));
            }
            i += 1;
        }
        proof {
            assert(bytes@.take(i as int) =~= bytes@);
        }
    }

    /// Switches mouse reports on when the configuration asks for mouse
    /// capture.
    pub fn enable_mouse_capture(&mut self)
        ensures
            final(self)@ == spec_enable_mouse_capture(old(self)@),
    {
        if self.config.enable_mouse_capture {
            self.write_all(dec_mode_sequence(DecMode::MouseTracking, true));
            self.write_all(dec_mode_sequence(DecMode::ButtonEventMouse, true));
            self.write_all(dec_mode_sequence(DecMode::AnyEventMouse, true));
            self.write_all(dec_mode_sequence(DecMode::RxvtMouse, true));
            self.write_all(dec_mode_sequence(DecMode::SgrMouse, true));
            assert(self@.written =~= old(self)@.written + mouse_capture_on_text());
        }
    }

    /// Switches mouse reports off when the configuration asks for mouse
    /// capture.
    pub fn disable_mouse_capture(&mut self)
        ensures
            final(self)@ == spec_disable_mouse_capture(old(self)@),
    {
        if self.config.enable_mouse_capture {
            self.write_all(dec_mode_sequence(DecMode::MouseTracking, false));
            self.write_all(dec_mode_sequence(DecMode::ButtonEventMouse, false));
            self.write_all(dec_mode_sequence(DecMode::AnyEventMouse, false));
            self.write_all(dec_mode_sequence(DecMode::RxvtMouse, false));
            self.write_all(dec_mode_sequence(DecMode::SgrMouse, false));
            assert(self@.written =~= old(self)@.written + mouse_capture_off_text());
        }
    }

    /// Switches synchronized output on unless it is on already.
    pub fn start_synchronized_render(&mut self)
        ensures
            final(self)@ == spec_start_synchronized_render(old(self)@),
    {
        if !self.is_synchronized_output_set {
            self.write_all(dec_mode_sequence(DecMode::SynchronizedOutput, true));
            self.is_synchronized_output_set = true;
        }
    }

    /// Switches synchronized output off unless it is off already.
    pub fn end_synchronized_render(&mut self)
        ensures
            final(self)@ == spec_end_synchronized_render(old(self)@),
    {
        if self.is_synchronized_output_set {
            self.write_all(dec_mode_sequence(DecMode::SynchronizedOutput, false));
            self.is_synchronized_output_set = false;
        }
    }

    /// Takes the terminal: alternate screen, bracketed paste, focus reports,
    /// a cleared display and, as configured, mouse capture.
    pub fn claim(&mut self)
        ensures
            final(self)@ == spec_claim(old(self)@),
    {
        self.write_all(dec_mode_sequence(DecMode::ClearAndEnableAlternateScreen, true));
        self.write_all(dec_mode_sequence(DecMode::BracketedPaste, true));
        self.write_all(dec_mode_sequence(DecMode::FocusTracking, true));
        self.write_all(erase_display_sequence());
        assert(self@.written =~= old(self)@.written + claim_text());
        self.enable_mouse_capture();
    }

    /// Installs a new configuration and, when it newly asks for mouse capture,
    /// switches mouse reports on.
    pub fn reconfigure(&mut self, config: Config)
        ensures
            final(self)@ == spec_reconfigure(old(self)@, config),
    {
        let mut config = config;
        std::mem::swap(&mut self.config, &mut config);
        if self.config.enable_mouse_capture != config.enable_mouse_capture {
            if self.config.enable_mouse_capture {
                self.enable_mouse_capture();
            } else {
                self.disable_mouse_capture();
            }
        }
    }

    /// Gives the terminal back: mouse capture off as configured, the default
    /// cursor shape, bracketed paste, focus reports and the alternate screen
    /// off.
    pub fn restore(&mut self)
        ensures
            final(self)@ == spec_restore(old(self)@),
    {
        self.disable_mouse_capture();
        let ghost mid = self@;
        self.write_all(cursor_shape_sequence(CursorShape::Default));
        self.write_all(dec_mode_sequence(DecMode::BracketedPaste, false));
        self.write_all(dec_mode_sequence(DecMode::FocusTracking, false));
        self.write_all(dec_mode_sequence(DecMode::ClearAndEnableAlternateScreen, false));
        assert(self@.written =~= mid.written + restore_text());
    }

    fn write_move(&mut self, pen: Pen, x: u16, y: u16)
        requires
            follows_last(pen, x, y) || (x < u16::MAX && y < u16::MAX),
            pen.last_pos matches Some(p) ==> p.0 < u16::MAX,
        ensures
            final(self)@ == wrote(old(self)@, move_text(pen, x, y)),
    {
        let follows = match pen.last_pos {
            Some(p) => x == p.0 + 1 && y == p.1,
            None => false,
        };
        if !follows {
            self.write_all(cursor_position_sequence(y, x));
        } else {
            assert(self@.written =~= old(self)@.written + move_text(pen, x, y));
        }
    }

    fn write_underline(&mut self, pen: Pen, cell: &Cell)
        ensures
            final(self)@ == wrote(
                old(self)@,
                underline_color_change_text(pen, *cell) + underline_style_change_text(pen, *cell),
            ),
    {
        if cell.underline_color != pen.underline_color {
            self.write_all(underline_color_sequence(cell.underline_color.to_term()));
        }
        let ghost colored = self@;
        if cell.underline_style != pen.underline_style {
            self.write_all(underline_style_sequence(cell.underline_style.to_term()));
        }
        assert(self@.written =~= old(self)@.written + (underline_color_change_text(pen, *cell)
            + underline_style_change_text(pen, *cell)));
    }

    fn write_attributes(&mut self, pen: Pen, cell: &Cell)
        ensures
            final(self)@ == wrote(old(self)@, attributes_change_text(pen, *cell)),
    {
        let fg_attr: Option<TermColor> = if cell.fg != pen.fg {
            Some(cell.fg.to_term())
        } else {
            None
        };
        let bg_attr: Option<TermColor> = if cell.bg != pen.bg {
            Some(cell.bg.to_term())
        } else {
            None
        };
        let mods = if cell.modifier != pen.modifier {
            diff_modifiers(pen.modifier, cell.modifier)
        } else {
            SgrModifiers::none()
        };
        if fg_attr.is_some() || bg_attr.is_some() || !mods.is_empty() {
            self.write_all(sgr_attributes_sequence(fg_attr, bg_attr, mods.bits()));
        } else {
            assert(self@.written =~= old(self)@.written + attributes_change_text(pen, *cell));
        }
    }

    /// Writes one cell drawn with `pen` in force and returns the pen after it.
    fn draw_cell(&mut self, pen: Pen, x: u16, y: u16, cell: &Cell) -> (next: Pen)
        requires
            follows_last(pen, x, y) || (x < u16::MAX && y < u16::MAX),
            pen.last_pos matches Some(p) ==> p.0 < u16::MAX,
        ensures
            next == pen_after(x, y, *cell),
            final(self)@ == wrote(old(self)@, cell_text(pen, x, y, *cell)),
    {
        self.write_move(pen, x, y);
        self.write_underline(pen, cell);
        self.write_attributes(pen, cell);
        self.write_slice(cell.symbol.as_str().as_bytes());
        assert(self@.written =~= old(self)@.written + move_text(pen, x, y) + cell_body_text(
            pen,
            *cell,
        ));
        assert(self@.written =~= old(self)@.written + cell_text(pen, x, y, *cell));
        pen_after_exec(x, y, cell)
    }

    /// Draws `content` — cells with their column and line — inside a
    /// synchronized update, moving the cursor only where a cell does not
    /// follow the previous one and sending only the style that changes.
    pub fn draw(&mut self, content: &[(u16, u16, Cell)])
        requires
            drawable(initial_pen(), content@),
        ensures
            final(self)@ == spec_draw(old(self)@, content@),
    {
        self.start_synchronized_render();
        let ghost started = self@;

        let mut pen = Pen {
            fg: Color::Reset,
            bg: Color::Reset,
            underline_color: Color::Reset,
            underline_style: UnderlineStyle::Reset,
            modifier: Modifier::empty(),
            last_pos: None,
        };
        let mut i: usize = 0;
        proof {
            assert(content@.skip(0) =~= content@);
        }
        while i < content.len()
            invariant
                i <= content.len(),
                self@.config == started.config,
                self@.synchronized == started.synchronized,
                self@.written + cells_text(pen, content@.skip(i as int)) == started.written
                    + cells_text(initial_pen(), content@),
                drawable(pen, content@.skip(i as int)),
            decreases content.len() - i,
        {
            let item = &content[i];
            proof {
                assert(content@.skip(i as int).drop_first() =~= content@.skip(i + 1));
                assert(content@.skip(i as int)[0] == content@[i as int]);
            }
            let ghost before = self@.written;
            let ghost old_pen = pen;
            pen = self.draw_cell(pen, item.0, item.1, &item.2);
            proof {
                assert(before + cells_text(old_pen, content@.skip(i as int)) == before + (cell_text(
                    old_pen,
                    item.0,
                    item.1,
                    item.2,
                ) + cells_text(pen, content@.skip(i + 1))));
                assert(self@.written + cells_text(pen, content@.skip(i + 1)) =~= before
                    + cells_text(old_pen, content@.skip(i as int)));
            }
            i += 1;
        }
        proof {
            assert(content@.skip(i as int) =~= Seq::<(u16, u16, Cell)>::empty());
            assert(self@.written =~= started.written + cells_text(initial_pen(), content@));
        }
        self.write_all(sgr_reset_sequence());
        proof {
            assert(self@.written =~= started.written + (cells_text(initial_pen(), content@)
                + sgr_reset_text()));
        }
        self.end_synchronized_render();
    }

    /// Hides the cursor.
    pub fn hide_cursor(&mut self)
        ensures
            final(self)@ == wrote(old(self)@, dec_mode_text(DecMode::ShowCursor, false)),
    {
        self.write_all(dec_mode_sequence(DecMode::ShowCursor, false));
    }

    /// Shows the cursor in the steady shape of `kind`.
    pub fn show_cursor(&mut self, kind: CursorKind)
        requires
            kind != CursorKind::Hidden,
        ensures
            final(self)@ == wrote(
                old(self)@,
                dec_mode_text(DecMode::ShowCursor, true) + cursor_shape_text(
                    spec_cursor_shape(kind),
                ),
            ),
    {
        let style = match kind {
            CursorKind::Block => CursorShape::SteadyBlock,
            CursorKind::Bar => CursorShape::SteadyBar,
            _ => CursorShape::SteadyUnderline,
        };
        self.write_all(dec_mode_sequence(DecMode::ShowCursor, true));
        self.write_all(cursor_shape_sequence(style));
        assert(self@.written =~= old(self)@.written + (dec_mode_text(DecMode::ShowCursor, true)
            + cursor_shape_text(spec_cursor_shape(kind))));
    }

    /// Moves the cursor to column `x` and line `y`, both counted from 0.
    pub fn set_cursor(&mut self, x: u16, y: u16)
        requires
            x < u16::MAX,
            y < u16::MAX,
        ensures
            final(self)@ == wrote(old(self)@, cursor_position_text(y, x)),
    {
        self.write_all(cursor_position_sequence(y, x));
    }

    /// Starts a synchronized update (unless one is running) and erases the
    /// display.
    pub fn clear(&mut self)
        ensures
            final(self)@ == wrote(spec_start_synchronized_render(old(self)@), erase_display_text()),
    {
        self.start_synchronized_render();
        self.write_all(erase_display_sequence());
    }

    /// The terminal area: `cols` by `rows` cells, each taken modulo 65536, at
    /// the origin.
    pub fn size(cols: u32, rows: u32) -> (area: Rect)
        ensures
            area == (Rect { x: 0, y: 0, width: cols as u16, height: rows as u16 }),
    {
        Rect { x: 0, y: 0, width: cols as u16, height: rows as u16 }
    }

    /// The host terminal renders true color.
    pub fn supports_true_color(&self) -> (b: bool)
        ensures
            b,
    {
        true
    }

    /// The backend does not learn the terminal's theme.
    pub fn get_theme_mode(&self) -> (mode: Option<ThemeMode>)
        ensures
            mode is None,
    {
        None
    }
}

} // verus!
