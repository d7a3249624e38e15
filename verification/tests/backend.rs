use helix_ios::backend::{can_draw, Cell, Config, CursorKind, KittyKeyboardProtocol, PipeBackend, Rect};
use helix_ios::style::{Color, Modifier, UnderlineStyle};

fn config(mouse: bool) -> Config {
    Config {
        enable_mouse_capture: mouse,
        force_enable_extended_underlines: true,
        kitty_keyboard_protocol: KittyKeyboardProtocol::Disabled,
    }
}

fn cell(symbol: &str) -> Cell {
    Cell {
        symbol: symbol.to_string(),
        fg: Color::Reset,
        bg: Color::Reset,
        underline_color: Color::Reset,
        underline_style: UnderlineStyle::Reset,
        modifier: Modifier::empty(),
    }
}

fn drawn(content: &[(u16, u16, Cell)]) -> String {
    let mut backend = PipeBackend::new(config(true));
    backend.draw(content);
    String::from_utf8(backend.take_output()).unwrap()
}

const MOUSE_ON: &str = "\x1b[?1000h\x1b[?1002h\x1b[?1003h\x1b[?1015h\x1b[?1006h";
const MOUSE_OFF: &str = "\x1b[?1000l\x1b[?1002l\x1b[?1003l\x1b[?1015l\x1b[?1006l";

#[test]
fn new_backend_has_written_nothing() {
    let mut backend = PipeBackend::new(config(true));
    assert!(backend.take_output().is_empty());
    assert!(!backend.is_synchronized_output_set());
    assert_eq!(backend.config(), config(true));
}

#[test]
fn mouse_capture_follows_configuration() {
    let mut on = PipeBackend::new(config(true));
    on.enable_mouse_capture();
    assert_eq!(String::from_utf8(on.take_output()).unwrap(), MOUSE_ON);
    on.disable_mouse_capture();
    assert_eq!(String::from_utf8(on.take_output()).unwrap(), MOUSE_OFF);

    let mut off = PipeBackend::new(config(false));
    off.enable_mouse_capture();
    off.disable_mouse_capture();
    assert!(off.take_output().is_empty());
}

#[test]
fn synchronized_render_is_switched_once() {
    let mut backend = PipeBackend::new(config(false));
    backend.start_synchronized_render();
    backend.start_synchronized_render();
    assert!(backend.is_synchronized_output_set());
    assert_eq!(backend.take_output(), b"\x1b[?2026h".to_vec());
    backend.end_synchronized_render();
    backend.end_synchronized_render();
    assert!(!backend.is_synchronized_output_set());
    assert_eq!(backend.take_output(), b"\x1b[?2026l".to_vec());
}

#[test]
fn claim_and_restore_sequences() {
    let mut backend = PipeBackend::new(config(true));
    backend.claim();
    assert_eq!(
        String::from_utf8(backend.take_output()).unwrap(),
        format!("\x1b[?1049h\x1b[?2004h\x1b[?1004h\x1b[2J{MOUSE_ON}")
    );
    backend.restore();
    assert_eq!(
        String::from_utf8(backend.take_output()).unwrap(),
        format!("{MOUSE_OFF}\x1b[0 q\x1b[?2004l\x1b[?1004l\x1b[?1049l")
    );
}

#[test]
fn claim_and_restore_without_mouse_capture() {
    let mut backend = PipeBackend::new(config(false));
    backend.claim();
    backend.restore();
    assert_eq!(
        String::from_utf8(backend.take_output()).unwrap(),
        "\x1b[?1049h\x1b[?2004h\x1b[?1004h\x1b[2J\x1b[0 q\x1b[?2004l\x1b[?1004l\x1b[?1049l"
    );
}

#[test]
fn reconfigure_switches_mouse_on_but_not_off() {
    let mut backend = PipeBackend::new(config(false));
    backend.reconfigure(config(true));
    assert_eq!(String::from_utf8(backend.take_output()).unwrap(), MOUSE_ON);
    assert_eq!(backend.config(), config(true));
    backend.reconfigure(config(false));
    assert!(backend.take_output().is_empty());
    assert_eq!(backend.config(), config(false));
    backend.reconfigure(config(false));
    assert!(backend.take_output().is_empty());
}

#[test]
fn cursor_sequences() {
    let mut backend = PipeBackend::new(config(false));
    backend.hide_cursor();
    assert_eq!(backend.take_output(), b"\x1b[?25l".to_vec());
    backend.show_cursor(CursorKind::Block);
    assert_eq!(backend.take_output(), b"\x1b[?25h\x1b[2 q".to_vec());
    backend.show_cursor(CursorKind::Bar);
    assert_eq!(backend.take_output(), b"\x1b[?25h\x1b[6 q".to_vec());
    backend.show_cursor(CursorKind::Underline);
    assert_eq!(backend.take_output(), b"\x1b[?25h\x1b[4 q".to_vec());
    backend.set_cursor(4, 2);
    assert_eq!(backend.take_output(), b"\x1b[3;5H".to_vec());
    backend.set_cursor(65534, 0);
    assert_eq!(backend.take_output(), b"\x1b[1;65535H".to_vec());
}

#[test]
fn clear_starts_an_update_and_erases() {
    let mut backend = PipeBackend::new(config(false));
    backend.clear();
    assert_eq!(backend.take_output(), b"\x1b[?2026h\x1b[2J".to_vec());
    assert!(backend.is_synchronized_output_set());
    backend.draw(&[]);
    assert_eq!(backend.take_output(), b"\x1b[m\x1b[?2026l".to_vec());
    assert!(!backend.is_synchronized_output_set());
}

#[test]
fn drawing_nothing_is_an_empty_update() {
    assert_eq!(drawn(&[]), "\x1b[?2026h\x1b[m\x1b[?2026l");
}

#[test]
fn contiguous_cells_move_the_cursor_once() {
    let content = vec![(0, 0, cell("a")), (1, 0, cell("b")), (5, 2, cell("c")), (6, 2, cell("é"))];
    assert_eq!(
        drawn(&content),
        "\x1b[?2026h\x1b[1;1Hab\x1b[3;6Hcé\x1b[m\x1b[?2026l"
    );
}

#[test]
fn a_cell_below_the_previous_one_moves_the_cursor() {
    let content = vec![(3, 0, cell("a")), (4, 1, cell("b"))];
    assert_eq!(drawn(&content), "\x1b[?2026h\x1b[1;4Ha\x1b[2;5Hb\x1b[m\x1b[?2026l");
}

#[test]
fn only_changed_style_is_sent() {
    let mut red = cell("x");
    red.fg = Color::Red;
    red.modifier.bold = true;
    let mut red_again = cell("y");
    red_again.fg = Color::Red;
    red_again.modifier.bold = true;
    let mut plain = cell("z");
    plain.bg = Color::Rgb(1, 2, 3);
    let content = vec![(0, 0, red), (1, 0, red_again), (2, 0, plain)];
    assert_eq!(
        drawn(&content),
        "\x1b[?2026h\x1b[1;1H\x1b[31;1mxy\x1b[39;48;2;1;2;3;22mz\x1b[m\x1b[?2026l"
    );
}

#[test]
fn named_colors_follow_the_terminal_palette() {
    let mut gray = cell("g");
    gray.fg = Color::Gray;
    let mut light_gray = cell("l");
    light_gray.fg = Color::LightGray;
    let mut white = cell("w");
    white.fg = Color::White;
    let mut indexed = cell("i");
    indexed.fg = Color::Indexed(208);
    let content = vec![(0, 0, gray), (1, 0, light_gray), (2, 0, white), (3, 0, indexed)];
    assert_eq!(
        drawn(&content),
        "\x1b[?2026h\x1b[1;1H\x1b[90mg\x1b[37ml\x1b[97mw\x1b[38;5;208mi\x1b[m\x1b[?2026l"
    );
}

#[test]
fn underline_color_and_style_are_sent_separately() {
    let mut underlined = cell("u");
    underlined.underline_color = Color::Rgb(1, 2, 3);
    underlined.underline_style = UnderlineStyle::Curl;
    let mut indexed = cell("v");
    indexed.underline_color = Color::Indexed(9);
    indexed.underline_style = UnderlineStyle::DoubleLine;
    let mut plain = cell("w");
    plain.underline_style = UnderlineStyle::Line;
    let content = vec![(0, 0, underlined), (1, 0, indexed), (2, 0, plain)];
    assert_eq!(
        drawn(&content),
        "\x1b[?2026h\x1b[1;1H\x1b[58:2::1:2:3m\x1b[4:3mu\x1b[58:5:9m\x1b[21mv\x1b[59m\x1b[4mw\x1b[m\x1b[?2026l"
    );
}

#[test]
fn remaining_underline_styles() {
    let mut dotted = cell("a");
    dotted.underline_style = UnderlineStyle::Dotted;
    let mut dashed = cell("b");
    dashed.underline_style = UnderlineStyle::Dashed;
    let reset = cell("c");
    let content = vec![(0, 0, dotted), (1, 0, dashed), (2, 0, reset)];
    assert_eq!(
        drawn(&content),
        "\x1b[?2026h\x1b[1;1H\x1b[4:4ma\x1b[4:5mb\x1b[24mc\x1b[m\x1b[?2026l"
    );
}

#[test]
fn size_truncates_to_u16() {
    assert_eq!(PipeBackend::size(80, 24), Rect { x: 0, y: 0, width: 80, height: 24 });
    assert_eq!(PipeBackend::size(65536 + 10, 3), Rect { x: 0, y: 0, width: 10, height: 3 });
}

#[test]
fn capabilities() {
    let backend = PipeBackend::new(config(false));
    assert!(backend.supports_true_color());
    assert!(backend.get_theme_mode().is_none());
}

#[test]
fn drawable_positions() {
    assert!(can_draw(&[]));
    assert!(can_draw(&[(65534, 65534, cell("a"))]));
    assert!(!can_draw(&[(65535, 0, cell("a"))]));
    assert!(!can_draw(&[(0, 65535, cell("a"))]));
    // A cell that follows the previous one needs no cursor move.
    assert!(can_draw(&[(65534, 3, cell("a")), (65535, 3, cell("b"))]));
    // But nothing may follow a cell in the last column.
    assert!(!can_draw(&[(65534, 3, cell("a")), (65535, 3, cell("b")), (0, 4, cell("c"))]));
}

#[test]
fn a_cell_in_the_last_column_that_follows_is_drawn_without_a_move() {
    let content = vec![(65534, 3, cell("a")), (65535, 3, cell("b"))];
    assert_eq!(drawn(&content), "\x1b[?2026h\x1b[4;65535Hab\x1b[m\x1b[?2026l");
}
