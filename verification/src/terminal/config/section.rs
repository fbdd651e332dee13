//! The library-configuration sections: `terminal`, `window`, `input`,
//! `output` and `log`.
//!
//! Every field is an optional override; absent fields serialize as an empty
//! placeholder between the separators and do not override the native
//! library's current setting. A section with every field absent serializes
//! to the empty string.

use vstd::prelude::*;
use crate::geometry::{Size, spec_size_str};
use crate::terminal::config::{ConfigPart, escape_config_string, spec_escape};
use crate::textfmt::{bool_str, i32_dec_str, spec_bool_str, spec_idec, spec_uhex_lower,
    u32_hex_lower_str};

verus! {

/// The `terminal` configuration section repr.
#[derive(Clone, Debug, Eq, PartialEq, Hash)]
pub struct Terminal {
    /// Encoding used for unibyte strings.
    ///
    /// Default: `"utf8"`.
    pub encoding: Option<String>,
}

/// The `window` configuration section repr.
///
/// `None` values will not override current ones.
#[derive(Clone, Debug, Eq, PartialEq, Hash)]
pub struct Window {
    /// Window size in cells.
    ///
    /// Default: `80x25`.
    pub size: Option<Size>,
    /// Size of all cells, in pixels.
    ///
    /// Default: [`Cellsize::Auto`].
    pub cellsize: Option<Cellsize>,
    /// The terminal window's title.
    ///
    /// Default: `"BearLibTerminal"`.
    pub title: Option<String>,
    /// The path of the icon used for the terminal window.
    ///
    /// Default: none.
    pub icon: Option<String>,
    /// Whether the terminal window should be resizeable.
    ///
    /// Default: `false`.
    pub resizeable: Option<bool>,
    /// Whether to enforce fullscreen mode.
    ///
    /// Default: `false`.
    pub fullscreen: Option<bool>,
}

/// The `input` configuration section repr.
///
/// `None` values will not override current ones.
#[derive(Clone, Debug, Eq, PartialEq, Hash)]
pub struct Input {
    /// Whether to generate a mouse-move event when the mouse moves from one
    /// pixel to another, as opposed to from one cell to another.
    ///
    /// Default: `false`.
    pub precise_mouse: Option<bool>,
    /// Whether to show the cursor.
    ///
    /// Default: `true`.
    pub mouse_cursor: Option<bool>,
    /// The cursor symbol to blink in the read-string function.
    ///
    /// Default: `'_'` a.k.a. `0x5F`.
    pub cursor_symbol: Option<char>,
    /// Amount of time in milliseconds to blink the cursor symbol for.
    ///
    /// Default: `500`.
    pub cursor_blink_rate: Option<i32>,
}

/// The `output` configuration section repr.
///
/// `None` values will not override current ones.
#[derive(Clone, Debug, Eq, PartialEq, Hash)]
pub struct Output {
    /// Whether to process special tags in the print function.
    ///
    /// Default: `true`.
    pub postformatting: Option<bool>,
    /// Toggle OpenGL VSync.
    ///
    /// Default: `true`.
    pub vsync: Option<bool>,
}

/// The `log` configuration section repr.
///
/// `None` values will not override current ones.
#[derive(Clone, Debug, Eq, PartialEq, Hash)]
pub struct Log {
    /// The file to write the log to.
    ///
    /// Default: `"bearlibterminal.log"`.
    pub file: Option<String>,
    /// The minimal log level to print at.
    ///
    /// Default: [`LogLevel::Error`].
    pub level: Option<LogLevel>,
    /// How to write to the log file if one already exists.
    ///
    /// Default: [`LogMode::Truncate`].
    pub mode: Option<LogMode>,
}

/// Possible cell size; `Auto` will make the size be selected based on the
/// font.
#[derive(Clone, Debug, Eq, PartialEq, Hash)]
pub enum Cellsize {
    Auto,
    Sized(Size),
}

/// Logging levels.
#[derive(Clone, Debug, Eq, PartialEq, Hash)]
pub enum LogLevel {
    /// Log nothing; serializes to the native library's `none` token.
    Off,
    Fatal,
    Error,
    Warning,
    Info,
    Debug,
    Trace,
}

/// Log writing mode.
#[derive(Clone, Debug, Eq, PartialEq, Hash)]
pub enum LogMode {
    /// Reset the log each time.
    Truncate,
    /// Continue writing at the end.
    Append,
}

/// The configuration token for a log level.
pub open spec fn spec_log_level_str(l: LogLevel) -> Seq<char> {
    match l {
        LogLevel::Off => "none"@,
        LogLevel::Fatal => "fatal"@,
        LogLevel::Error => "error"@,
        LogLevel::Warning => "warning"@,
        LogLevel::Info => "info"@,
        LogLevel::Debug => "debug"@,
        LogLevel::Trace => "trace"@,
    }
}

/// The configuration token for a log mode.
pub open spec fn spec_log_mode_str(m: LogMode) -> Seq<char> {
    match m {
        LogMode::Truncate => "truncate"@,
        LogMode::Append => "append"@,
    }
}

/// The `terminal` section's serialized form: its lone key when present,
/// the empty string otherwise.
pub open spec fn spec_terminal_config(t: Terminal) -> Seq<char> {
    match t.encoding {
        Some(e) => "terminal.encoding="@ + spec_escape(e@) + ";"@,
        None => Seq::<char>::empty(),
    }
}

/// The `size` placeholder of a `window` section.
pub open spec fn spec_window_size_part(v: Option<Size>) -> Seq<char> {
    match v {
        Some(s) => "size="@ + spec_size_str(s),
        None => Seq::<char>::empty(),
    }
}

/// The `cellsize` placeholder of a `window` section.
pub open spec fn spec_window_cellsize_part(v: Option<Cellsize>) -> Seq<char> {
    match v {
        Some(Cellsize::Sized(s)) => "cellsize="@ + spec_size_str(s),
        Some(Cellsize::Auto) => "cellsize=auto"@,
        None => Seq::<char>::empty(),
    }
}

/// A string-valued placeholder: `key=` followed by the escaped value.
pub open spec fn spec_str_part(key: Seq<char>, v: Option<String>) -> Seq<char> {
    match v {
        Some(s) => key + spec_escape(s@),
        None => Seq::<char>::empty(),
    }
}

/// A boolean placeholder: `key=true` or `key=false`.
pub open spec fn spec_bool_part(key: Seq<char>, v: Option<bool>) -> Seq<char> {
    match v {
        Some(b) => key + spec_bool_str(b),
        None => Seq::<char>::empty(),
    }
}

/// Whether a `window` section has any field present.
pub open spec fn spec_window_nonempty(w: Window) -> bool {
    w.size is Some || w.cellsize is Some || w.title is Some || w.icon is Some
        || w.resizeable is Some || w.fullscreen is Some
}

/// The `window` section's serialized form: the section header and all six
/// placeholders positionally, absent fields rendered empty; or the empty
/// string when every field is absent.
pub open spec fn spec_window_config(w: Window) -> Seq<char> {
    if spec_window_nonempty(w) {
        "window: "@ + spec_window_size_part(w.size) + ", "@ + spec_window_cellsize_part(
            w.cellsize,
        ) + ", "@ + spec_str_part("title="@, w.title) + ", "@ + spec_str_part("icon="@, w.icon)
            + ", "@ + spec_bool_part("resizeable="@, w.resizeable) + ", "@ + spec_bool_part(
            "fullscreen="@,
            w.fullscreen,
        ) + ";"@
    } else {
        Seq::<char>::empty()
    }
}

/// The `cursor-symbol` placeholder: the symbol's low byte in lower-case
/// hexadecimal with a `0x` prefix.
pub open spec fn spec_cursor_symbol_part(v: Option<char>) -> Seq<char> {
    match v {
        Some(c) => "cursor-symbol=0x"@ + spec_uhex_lower(((c as u32) % 256) as nat),
        None => Seq::<char>::empty(),
    }
}

/// The `cursor-blink-rate` placeholder.
pub open spec fn spec_blink_rate_part(v: Option<i32>) -> Seq<char> {
    match v {
        Some(n) => "cursor-blink-rate="@ + spec_idec(n as int),
        None => Seq::<char>::empty(),
    }
}

/// Whether an `input` section has any field present.
pub open spec fn spec_input_nonempty(i: Input) -> bool {
    i.precise_mouse is Some || i.mouse_cursor is Some || i.cursor_symbol is Some
        || i.cursor_blink_rate is Some
}

/// The `input` section's serialized form.
pub open spec fn spec_input_config(i: Input) -> Seq<char> {
    if spec_input_nonempty(i) {
        "input: "@ + spec_bool_part("precise-mouse="@, i.precise_mouse) + ", "@ + spec_bool_part(
            "mouse-cursor="@,
            i.mouse_cursor,
        ) + ", "@ + spec_cursor_symbol_part(i.cursor_symbol) + ", "@ + spec_blink_rate_part(
            i.cursor_blink_rate,
        ) + ";"@
    } else {
        Seq::<char>::empty()
    }
}

/// Whether an `output` section has any field present.
pub open spec fn spec_output_nonempty(o: Output) -> bool {
    o.postformatting is Some || o.vsync is Some
}

/// The `output` section's serialized form.
pub open spec fn spec_output_config(o: Output) -> Seq<char> {
    if spec_output_nonempty(o) {
        "output: "@ + spec_bool_part("postformatting="@, o.postformatting) + ", "@
            + spec_bool_part("vsync="@, o.vsync) + ";"@
    } else {
        Seq::<char>::empty()
    }
}

/// The `level` placeholder of a `log` section.
pub open spec fn spec_log_level_part(v: Option<LogLevel>) -> Seq<char> {
    match v {
        Some(l) => "level="@ + spec_log_level_str(l),
        None => Seq::<char>::empty(),
    }
}

/// The `mode` placeholder of a `log` section.
pub open spec fn spec_log_mode_part(v: Option<LogMode>) -> Seq<char> {
    match v {
        Some(m) => "mode="@ + spec_log_mode_str(m),
        None => Seq::<char>::empty(),
    }
}

/// Whether a `log` section has any field present.
pub open spec fn spec_log_nonempty(l: Log) -> bool {
    l.file is Some || l.level is Some || l.mode is Some
}

/// The `log` section's serialized form.
pub open spec fn spec_log_config(l: Log) -> Seq<char> {
    if spec_log_nonempty(l) {
        "log: "@ + spec_str_part("file="@, l.file) + ", "@ + spec_log_level_part(l.level) + ", "@
            + spec_log_mode_part(l.mode) + ";"@
    } else {
        Seq::<char>::empty()
    }
}

impl LogLevel {
    /// The token this level serializes to inside a `log` section.
    pub fn config_str(&self) -> (r: String)
        ensures
            r@ == spec_log_level_str(*self),
    {
        match self {
            LogLevel::Off => String::from_str("none"),
            LogLevel::Fatal => String::from_str("fatal"),
            LogLevel::Error => String::from_str("error"),
            LogLevel::Warning => String::from_str("warning"),
            LogLevel::Info => String::from_str("info"),
            LogLevel::Debug => String::from_str("debug"),
            LogLevel::Trace => String::from_str("trace"),
        }
    }
}

impl LogMode {
    /// The token this mode serializes to inside a `log` section.
    pub fn config_str(&self) -> (r: String)
        ensures
            r@ == spec_log_mode_str(*self),
    {
        match self {
            LogMode::Truncate => String::from_str("truncate"),
            LogMode::Append => String::from_str("append"),
        }
    }
}

impl Terminal {
    /// Construct a `terminal` section override with the specified encoding
    /// used for unibyte strings, which is better left at default, as the
    /// language uses UTF-8 for everything.
    ///
    /// Default: `"utf8"`.
    pub fn new(encoding: String) -> (r: Terminal)
        ensures
            r.encoding == Some(encoding),
    {
        Terminal { encoding: Some(encoding) }
    }
}

impl Window {
    /// Construct a `window` section override with everything equal to
    /// `None`.
    pub fn empty() -> (r: Window)
        ensures
            r.size is None,
            r.cellsize is None,
            r.title is None,
            r.icon is None,
            r.resizeable is None,
            r.fullscreen is None,
    {
        Window {
            size: None,
            cellsize: None,
            title: None,
            icon: None,
            resizeable: None,
            fullscreen: None,
        }
    }

    /// Construct a `window` section override from all its fields at once.
    pub fn new(
        size: Option<Size>,
        cellsize: Option<Cellsize>,
        title: Option<String>,
        icon: Option<String>,
        resizeable: Option<bool>,
        fullscreen: Option<bool>,
    ) -> (r: Window)
        ensures
            r == (Window { size, cellsize, title, icon, resizeable, fullscreen }),
    {
        Window { size, cellsize, title, icon, resizeable, fullscreen }
    }

    /// Window size in cells.
    ///
    /// Default: `80x25`.
    pub fn size(self, size: Size) -> (r: Self)
        ensures
            r == (Window { size: Some(size), ..self }),
    {
        Window { size: Some(size), ..self }
    }

    /// Size of all cells, in pixels.
    ///
    /// Default: [`Cellsize::Auto`].
    pub fn cellsize(self, cellsize: Cellsize) -> (r: Self)
        ensures
            r == (Window { cellsize: Some(cellsize), ..self }),
    {
        Window { cellsize: Some(cellsize), ..self }
    }

    /// The terminal window's title.
    ///
    /// Default: `"BearLibTerminal"`.
    pub fn title(self, title: String) -> (r: Self)
        ensures
            r == (Window { title: Some(title), ..self }),
    {
        Window { title: Some(title), ..self }
    }

    /// The path of the icon used for the terminal window.
    ///
    /// Default: none.
    pub fn icon(self, icon: String) -> (r: Self)
        ensures
            r == (Window { icon: Some(icon), ..self }),
    {
        Window { icon: Some(icon), ..self }
    }

    /// Whether the terminal window should be resizeable.
    ///
    /// Default: `false`.
    pub fn resizeable(self, resizeable: bool) -> (r: Self)
        ensures
            r == (Window { resizeable: Some(resizeable), ..self }),
    {
        Window { resizeable: Some(resizeable), ..self }
    }

    /// Whether to enforce fullscreen mode.
    ///
    /// Default: `false`.
    pub fn fullscreen(self, fullscreen: bool) -> (r: Self)
        ensures
            r == (Window { fullscreen: Some(fullscreen), ..self }),
    {
        Window { fullscreen: Some(fullscreen), ..self }
    }
}

impl Input {
    /// Construct an `input` section override with all elements equal to
    /// `None`.
    pub fn empty() -> (r: Input)
        ensures
            r.precise_mouse is None,
            r.mouse_cursor is None,
            r.cursor_symbol is None,
            r.cursor_blink_rate is None,
    {
        Input {
            precise_mouse: None,
            mouse_cursor: None,
            cursor_symbol: None,
            cursor_blink_rate: None,
        }
    }

    /// Construct an `input` section override from all its fields at once.
    pub fn new(
        precise_mouse: Option<bool>,
        mouse_cursor: Option<bool>,
        cursor_symbol: Option<char>,
        cursor_blink_rate: Option<i32>,
    ) -> (r: Input)
        ensures
            r == (Input { precise_mouse, mouse_cursor, cursor_symbol, cursor_blink_rate }),
    {
        Input { precise_mouse, mouse_cursor, cursor_symbol, cursor_blink_rate }
    }

    /// Whether to generate a mouse-move event when the mouse moves from one
    /// pixel to another, as opposed to from one cell to another.
    ///
    /// Default: `false`.
    pub fn precise_mouse(self, precise_mouse: bool) -> (r: Self)
        ensures
            r == (Input { precise_mouse: Some(precise_mouse), ..self }),
    {
        Input { precise_mouse: Some(precise_mouse), ..self }
    }

    /// Whether to show the cursor.
    ///
    /// Default: `true`.
    pub fn mouse_cursor(self, mouse_cursor: bool) -> (r: Self)
        ensures
            r == (Input { mouse_cursor: Some(mouse_cursor), ..self }),
    {
        Input { mouse_cursor: Some(mouse_cursor), ..self }
    }

    /// The cursor symbol to blink in the read-string function.
    ///
    /// Default: `'_'` a.k.a. `0x5F`.
    pub fn cursor_symbol(self, cursor_symbol: char) -> (r: Self)
        ensures
            r == (Input { cursor_symbol: Some(cursor_symbol), ..self }),
    {
        Input { cursor_symbol: Some(cursor_symbol), ..self }
    }

    /// Amount of time in milliseconds to blink the cursor symbol for.
    ///
    /// Default: `500`.
    pub fn cursor_blink_rate(self, cursor_blink_rate: i32) -> (r: Self)
        ensures
            r == (Input { cursor_blink_rate: Some(cursor_blink_rate), ..self }),
    {
        Input { cursor_blink_rate: Some(cursor_blink_rate), ..self }
    }
}

impl Output {
    /// Construct an `output` section override with all values equalling
    /// `None`.
    pub fn clean() -> (r: Output)
        ensures
            r.postformatting is None,
            r.vsync is None,
    {
        Output { postformatting: None, vsync: None }
    }

    /// Construct an `output` section override from all its fields at once.
    pub fn new(postformatting: Option<bool>, vsync: Option<bool>) -> (r: Output)
        ensures
            r == (Output { postformatting, vsync }),
    {
        Output { postformatting, vsync }
    }

    /// Whether to process special tags in the print function.
    ///
    /// Default: `true`.
    pub fn postformatting(self, postformatting: bool) -> (r: Self)
        ensures
            r == (Output { postformatting: Some(postformatting), ..self }),
    {
        Output { postformatting: Some(postformatting), ..self }
    }

    /// Toggle OpenGL VSync.
    ///
    /// Default: `true`.
    pub fn vsync(self, vsync: bool) -> (r: Self)
        ensures
            r == (Output { vsync: Some(vsync), ..self }),
    {
        Output { vsync: Some(vsync), ..self }
    }
}

impl Log {
    /// Construct a `log` section override with everything set to `None`.
    pub fn empty() -> (r: Log)
        ensures
            r.file is None,
            r.level is None,
            r.mode is None,
    {
        Log { file: None, level: None, mode: None }
    }

    /// Construct a `log` section override from all its fields at once.
    pub fn new(file: Option<String>, level: Option<LogLevel>, mode: Option<LogMode>) -> (r: Log)
        ensures
            r == (Log { file, level, mode }),
    {
        Log { file, level, mode }
    }

    /// The file to write the log to.
    ///
    /// Default: `"bearlibterminal.log"`.
    pub fn file(self, file: String) -> (r: Log)
        ensures
            r == (Log { file: Some(file), ..self }),
    {
        Log { file: Some(file), ..self }
    }

    /// The minimal log level to print at.
    ///
    /// Default: [`LogLevel::Error`].
    pub fn level(self, level: LogLevel) -> (r: Log)
        ensures
            r == (Log { level: Some(level), ..self }),
    {
        Log { level: Some(level), ..self }
    }

    /// How to write to the log file if one already exists.
    ///
    /// Default: [`LogMode::Truncate`].
    pub fn mode(self, mode: LogMode) -> (r: Log)
        ensures
            r == (Log { mode: Some(mode), ..self }),
    {
        Log { mode: Some(mode), ..self }
    }
}

fn size_part(v: &Option<Size>) -> (r: String)
    ensures
        r@ == spec_window_size_part(*v),
{
    match v {
        Some(size) => {
            let mut s = String::from_str("size=");
            let t = size.config_str();
            s.append(t.as_str());
            proof {
                assert(s@ =~= spec_window_size_part(*v));
            }
            s
        },
        None => {
            let s = String::new();
            proof {
                assert(s@ =~= spec_window_size_part(*v));
            }
            s
        },
    }
}

fn cellsize_part(v: &Option<Cellsize>) -> (r: String)
    ensures
        r@ == spec_window_cellsize_part(*v),
{
    match v {
        Some(Cellsize::Sized(size)) => {
            let mut s = String::from_str("cellsize=");
            let t = size.config_str();
            s.append(t.as_str());
            proof {
                assert(s@ =~= spec_window_cellsize_part(*v));
            }
            s
        },
        Some(Cellsize::Auto) => {
            String::from_str("cellsize=auto")
        },
        None => {
            let s = String::new();
            proof {
                assert(s@ =~= spec_window_cellsize_part(*v));
            }
            s
        },
    }
}

fn str_part(key: &str, v: &Option<String>) -> (r: String)
    ensures
        r@ == spec_str_part(key@, *v),
{
    match v {
        Some(value) => {
            let mut s = String::from_str(key);
            let t = escape_config_string(value);
            s.append(t.as_str());
            proof {
                assert(s@ =~= spec_str_part(key@, *v));
            }
            s
        },
        None => {
            let s = String::new();
            proof {
                assert(s@ =~= spec_str_part(key@, *v));
            }
            s
        },
    }
}

fn bool_part(key: &str, v: &Option<bool>) -> (r: String)
    ensures
        r@ == spec_bool_part(key@, *v),
{
    match v {
        Some(value) => {
            let mut s = String::from_str(key);
            s.append(bool_str(*value));
            proof {
                assert(s@ =~= spec_bool_part(key@, *v));
            }
            s
        },
        None => {
            let s = String::new();
            proof {
                assert(s@ =~= spec_bool_part(key@, *v));
            }
            s
        },
    }
}

fn cursor_symbol_part(v: &Option<char>) -> (r: String)
    ensures
        r@ == spec_cursor_symbol_part(*v),
{
    match v {
        Some(c) => {
            let mut s = String::from_str("cursor-symbol=0x");
            let t = u32_hex_lower_str((*c as u32) % 256);
            s.append(t.as_str());
            proof {
                assert(s@ =~= spec_cursor_symbol_part(*v));
            }
            s
        },
        None => {
            let s = String::new();
            proof {
                assert(s@ =~= spec_cursor_symbol_part(*v));
            }
            s
        },
    }
}

fn blink_rate_part(v: &Option<i32>) -> (r: String)
    ensures
        r@ == spec_blink_rate_part(*v),
{
    match v {
        Some(n) => {
            let mut s = String::from_str("cursor-blink-rate=");
            let t = i32_dec_str(*n);
            s.append(t.as_str());
            proof {
                assert(s@ =~= spec_blink_rate_part(*v));
            }
            s
        },
        None => {
            let s = String::new();
            proof {
                assert(s@ =~= spec_blink_rate_part(*v));
            }
            s
        },
    }
}

fn log_level_part(v: &Option<LogLevel>) -> (r: String)
    ensures
        r@ == spec_log_level_part(*v),
{
    match v {
        Some(level) => {
            let mut s = String::from_str("level=");
            let t = level.config_str();
            s.append(t.as_str());
            proof {
                assert(s@ =~= spec_log_level_part(*v));
            }
            s
        },
        None => {
            let s = String::new();
            proof {
                assert(s@ =~= spec_log_level_part(*v));
            }
            s
        },
    }
}

fn log_mode_part(v: &Option<LogMode>) -> (r: String)
    ensures
        r@ == spec_log_mode_part(*v),
{
    match v {
        Some(mode) => {
            let mut s = String::from_str("mode=");
            let t = mode.config_str();
            s.append(t.as_str());
            proof {
                assert(s@ =~= spec_log_mode_part(*v));
            }
            s
        },
        None => {
            let s = String::new();
            proof {
                assert(s@ =~= spec_log_mode_part(*v));
            }
            s
        },
    }
}

impl ConfigPart for Terminal {
    open spec fn config_spec(&self) -> Seq<char> {
        spec_terminal_config(*self)
    }

    fn to_config_str(&self) -> (r: String) {
        match &self.encoding {
            Some(encoding) => {
                let mut s = String::from_str("terminal.encoding=");
                let e = escape_config_string(encoding);
                s.append(e.as_str());
                s.append(";");
                proof {
                    assert(s@ =~= spec_terminal_config(*self));
                }
                s
            },
            None => {
                let s = String::new();
                proof {
                    assert(s@ =~= spec_terminal_config(*self));
                }
                s
            },
        }
    }
}

impl ConfigPart for Window {
    open spec fn config_spec(&self) -> Seq<char> {
        spec_window_config(*self)
    }

    fn to_config_str(&self) -> (r: String) {
        if self.size.is_some() || self.cellsize.is_some() || self.title.is_some()
            || self.icon.is_some() || self.resizeable.is_some() || self.fullscreen.is_some() {
            let mut s = String::from_str("window: ");
            let p = size_part(&self.size);
            s.append(p.as_str());
            s.append(", ");
            let p = cellsize_part(&self.cellsize);
            s.append(p.as_str());
            s.append(", ");
            let p = str_part("title=", &self.title);
            s.append(p.as_str());
            s.append(", ");
            let p = str_part("icon=", &self.icon);
            s.append(p.as_str());
            s.append(", ");
            let p = bool_part("resizeable=", &self.resizeable);
            s.append(p.as_str());
            s.append(", ");
            let p = bool_part("fullscreen=", &self.fullscreen);
            s.append(p.as_str());
            s.append(";");
            proof {
                assert(s@ =~= spec_window_config(*self));
            }
            s
        } else {
            let s = String::new();
            proof {
                assert(s@ =~= spec_window_config(*self));
            }
            s
        }
    }
}

impl ConfigPart for Input {
    open spec fn config_spec(&self) -> Seq<char> {
        spec_input_config(*self)
    }

    fn to_config_str(&self) -> (r: String) {
        if self.precise_mouse.is_some() || self.mouse_cursor.is_some()
            || self.cursor_symbol.is_some() || self.cursor_blink_rate.is_some() {
            let mut s = String::from_str("input: ");
            let p = bool_part("precise-mouse=", &self.precise_mouse);
            s.append(p.as_str());
            s.append(", ");
            let p = bool_part("mouse-cursor=", &self.mouse_cursor);
            s.append(p.as_str());
            s.append(", ");
            let p = cursor_symbol_part(&self.cursor_symbol);
            s.append(p.as_str());
            s.append(", ");
            let p = blink_rate_part(&self.cursor_blink_rate);
            s.append(p.as_str());
            s.append(";");
            proof {
                assert(s@ =~= spec_input_config(*self));
            }
            s
        } else {
            let s = String::new();
            proof {
                assert(s@ =~= spec_input_config(*self));
            }
            s
        }
    }
}

impl ConfigPart for Output {
    open spec fn config_spec(&self) -> Seq<char> {
        spec_output_config(*self)
    }

    fn to_config_str(&self) -> (r: String) {
        if self.postformatting.is_some() || self.vsync.is_some() {
            let mut s = String::from_str("output: ");
            let p = bool_part("postformatting=", &self.postformatting);
            s.append(p.as_str());
            s.append(", ");
            let p = bool_part("vsync=", &self.vsync);
            s.append(p.as_str());
            s.append(";");
            proof {
                assert(s@ =~= spec_output_config(*self));
            }
            s
        } else {
            let s = String::new();
            proof {
                assert(s@ =~= spec_output_config(*self));
            }
            s
        }
    }
}

impl ConfigPart for Log {
    open spec fn config_spec(&self) -> Seq<char> {
        spec_log_config(*self)
    }

    fn to_config_str(&self) -> (r: String) {
        if self.file.is_some() || self.level.is_some() || self.mode.is_some() {
            let mut s = String::from_str("log: ");
            let p = str_part("file=", &self.file);
            s.append(p.as_str());
            s.append(", ");
            let p = log_level_part(&self.level);
            s.append(p.as_str());
            s.append(", ");
            let p = log_mode_part(&self.mode);
            s.append(p.as_str());
            s.append(";");
            proof {
                assert(s@ =~= spec_log_config(*self));
            }
            s
        } else {
            let s = String::new();
            proof {
                assert(s@ =~= spec_log_config(*self));
            }
            s
        }
    }
}

} // verus!
