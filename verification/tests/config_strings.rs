use bear_lib_terminal::geometry::Size;
use bear_lib_terminal::terminal::config::font::{
    bitmap, true_type, Align, Origin, RasterizationMode, ResizeFilter, ResizeMode,
};
use bear_lib_terminal::terminal::config::{
    escape_config_string, Cellsize, ConfigPart, Input, Log, LogLevel, LogMode, Output, Terminal,
    Window,
};

#[test]
fn escape_empty_string() {
    assert_eq!(escape_config_string(&"".to_string()), "''");
}

#[test]
fn escape_lone_quote() {
    assert_eq!(escape_config_string(&"'".to_string()), "''''");
}

#[test]
fn escape_embedded_quote() {
    assert_eq!(escape_config_string(&"asdf'asdf".to_string()), "'asdf''asdf'");
}

#[test]
fn escape_plain_text() {
    assert_eq!(escape_config_string(&"foobar".to_string()), "'foobar'");
}

#[test]
fn terminal_section() {
    assert_eq!(
        Terminal::new("utf8".to_string()).to_config_str(),
        "terminal.encoding='utf8';"
    );
}

#[test]
fn window_all_absent_is_empty() {
    assert_eq!(Window::empty().to_config_str(), "");
}

#[test]
fn window_single_field_keeps_placeholders() {
    assert_eq!(
        Window::empty().title("foobar".to_string()).to_config_str(),
        "window: , , title='foobar', , , ;"
    );
}

#[test]
fn window_size_and_title() {
    assert_eq!(
        Window::empty()
            .size(Size::new(80, 25))
            .title("foobar".to_string())
            .to_config_str(),
        "window: size=80x25, , title='foobar', , , ;"
    );
}

#[test]
fn window_cellsize_auto() {
    assert_eq!(
        Window::empty().cellsize(Cellsize::Auto).to_config_str(),
        "window: , cellsize=auto, , , , ;"
    );
}

#[test]
fn window_cellsize_sized() {
    assert_eq!(
        Window::empty().cellsize(Cellsize::Sized(Size::new(8, 16))).to_config_str(),
        "window: , cellsize=8x16, , , , ;"
    );
}

#[test]
fn window_flags_and_icon() {
    assert_eq!(
        Window::empty()
            .icon("app.ico".to_string())
            .resizeable(true)
            .fullscreen(false)
            .to_config_str(),
        "window: , , , icon='app.ico', resizeable=true, fullscreen=false;"
    );
}

#[test]
fn window_new_matches_builder() {
    let built = Window::empty().size(Size::new(80, 25)).resizeable(true);
    let direct = Window::new(Some(Size::new(80, 25)), None, None, None, Some(true), None);
    assert_eq!(built, direct);
    assert_eq!(built.to_config_str(), direct.to_config_str());
}

#[test]
fn input_all_absent_is_empty() {
    assert_eq!(Input::empty().to_config_str(), "");
}

#[test]
fn input_cursor_symbol_low_byte_hex() {
    assert_eq!(
        Input::empty().cursor_symbol('_').to_config_str(),
        "input: , , cursor-symbol=0x5f, ;"
    );
}

#[test]
fn input_cursor_symbol_beyond_one_byte_truncates() {
    assert_eq!(
        Input::empty().cursor_symbol('\u{E9}').to_config_str(),
        "input: , , cursor-symbol=0xe9, ;"
    );
    assert_eq!(
        Input::empty().cursor_symbol('\u{1F9}').to_config_str(),
        "input: , , cursor-symbol=0xf9, ;"
    );
}

#[test]
fn input_blink_rate_and_flags() {
    assert_eq!(
        Input::empty()
            .precise_mouse(false)
            .mouse_cursor(true)
            .cursor_blink_rate(500)
            .to_config_str(),
        "input: precise-mouse=false, mouse-cursor=true, , cursor-blink-rate=500;"
    );
}

#[test]
fn input_new_matches_builder() {
    assert_eq!(
        Input::new(Some(true), None, None, Some(250)).to_config_str(),
        Input::empty().precise_mouse(true).cursor_blink_rate(250).to_config_str()
    );
}

#[test]
fn output_all_absent_is_empty() {
    assert_eq!(Output::clean().to_config_str(), "");
}

#[test]
fn output_single_field_keeps_placeholder() {
    assert_eq!(Output::clean().vsync(true).to_config_str(), "output: , vsync=true;");
    assert_eq!(
        Output::clean().postformatting(false).to_config_str(),
        "output: postformatting=false, ;"
    );
    assert_eq!(
        Output::new(Some(true), Some(false)).to_config_str(),
        "output: postformatting=true, vsync=false;"
    );
}

#[test]
fn log_all_absent_is_empty() {
    assert_eq!(Log::empty().to_config_str(), "");
}

#[test]
fn log_full_section() {
    assert_eq!(
        Log::empty()
            .file("x.log".to_string())
            .level(LogLevel::Debug)
            .mode(LogMode::Append)
            .to_config_str(),
        "log: file='x.log', level=debug, mode=append;"
    );
}

#[test]
fn log_level_tokens() {
    let cases = [
        (LogLevel::Off, "none"),
        (LogLevel::Fatal, "fatal"),
        (LogLevel::Error, "error"),
        (LogLevel::Warning, "warning"),
        (LogLevel::Info, "info"),
        (LogLevel::Debug, "debug"),
        (LogLevel::Trace, "trace"),
    ];
    for (level, token) in cases {
        assert_eq!(
            Log::new(None, Some(level), None).to_config_str(),
            format!("log: , level={}, ;", token)
        );
    }
    assert_eq!(
        Log::new(None, None, Some(LogMode::Truncate)).to_config_str(),
        "log: , , mode=truncate;"
    );
}

#[test]
fn true_type_auto_width_size_shorthand() {
    assert_eq!(
        true_type(Origin::Root, "UbuntuMono-R.ttf".to_string(), Size::new(0, 12))
            .to_config_str(),
        "font: 'UbuntuMono-R.ttf', size=12;"
    );
}

#[test]
fn true_type_full_size_pair() {
    assert_eq!(
        true_type(Origin::Root, "UbuntuMono-R.ttf".to_string(), Size::new(8, 12))
            .to_config_str(),
        "font: 'UbuntuMono-R.ttf', size=8x12;"
    );
}

#[test]
fn true_type_attributes() {
    assert_eq!(
        true_type(Origin::Root, "a.ttf".to_string(), Size::new(0, 14))
            .size_reference('@')
            .mode(RasterizationMode::Lcd)
            .codepage("cp437".to_string())
            .align(Align::TopLeft)
            .spacing(Size::new(1, 1))
            .to_config_str(),
        "font: 'a.ttf', size=14, size-reference=0x40, mode=lcd, codepage='cp437', \
         align=top-left, spacing=1x1;"
    );
}

#[test]
fn bitmap_glyph_offset_origin() {
    assert_eq!(
        bitmap(Origin::Offset('^'), "circumflex.png".to_string()).to_config_str(),
        "0x5E: 'circumflex.png';"
    );
}

#[test]
fn bitmap_tileset_with_attributes() {
    assert_eq!(
        bitmap(Origin::Offset('\u{E000}'), "tileset.png".to_string())
            .size(Size::new(16, 16))
            .spacing(Size::new(2, 1))
            .to_config_str(),
        "0xE000: 'tileset.png', size=16x16, spacing=2x1;"
    );
}

#[test]
fn bitmap_all_attributes() {
    assert_eq!(
        bitmap(Origin::Root, "f.png".to_string())
            .size(Size::new(8, 8))
            .resize(Size::new(16, 16))
            .resize_filter(ResizeFilter::Nearest)
            .resize_mode(ResizeMode::Fit)
            .raw_size(Size::new(128, 64))
            .codepage("ascii".to_string())
            .align(Align::BottomRight)
            .spacing(Size::new(1, 2))
            .to_config_str(),
        "font: 'f.png', size=8x8, resize=16x16, resize-filter=nearest, resize-mode=fit, \
         raw-size=128x64, codepage='ascii', align=bottom-right, spacing=1x2;"
    );
}

#[test]
fn bitmap_path_with_quote_is_escaped() {
    assert_eq!(
        bitmap(Origin::Root, "o'clock.png".to_string()).to_config_str(),
        "font: 'o''clock.png';"
    );
}
