//! Font-changing configuration: bitmap and TrueType font override segments.
//!
//! Both kinds serialize as an origin prefix (`font` or a `0xNNNN` glyph
//! offset), the escaped path, then optional `key=value` attributes, each
//! prefixed with `, ` only when present, and a closing `;`.

use vstd::prelude::*;
use crate::geometry::{Size, spec_size_str};
use crate::terminal::config::{ConfigPart, escape_config_string, spec_escape};
use crate::textfmt::{i32_dec_str, spec_idec, spec_uhex_upper, u32_hex_upper_str};

verus! {

/// The origin for the font (the part before `:` in the config string).
#[derive(Clone, Debug, Eq, PartialEq, Hash)]
pub enum Origin {
    /// `font`
    Root,
    /// `0xNNNN`
    Offset(char),
}

/// Rasterization mode for TrueType fonts.
#[derive(Clone, Debug, Eq, PartialEq, Hash)]
pub enum RasterizationMode {
    Monochrome,
    Normal,
    /// Forces an opaque black background.
    Lcd,
}

/// Resizing filter for bitmaps.
#[derive(Clone, Debug, Eq, PartialEq, Hash)]
pub enum ResizeFilter {
    Nearest,
    Bilinear,
    Bicubic,
}

/// How to aspect-change when resizing a bitmap.
#[derive(Clone, Debug, Eq, PartialEq, Hash)]
pub enum ResizeMode {
    Stretch,
    Fit,
    Crop,
}

/// Per-tileset tile alignment.
#[derive(Clone, Debug, Eq, PartialEq, Hash)]
pub enum Align {
    Center,
    TopLeft,
    BottomLeft,
    TopRight,
    BottomRight,
}

/// A bitmap font override segment repr, constructed with
/// [`bitmap()`](bitmap).
#[derive(Clone, Debug, Eq, PartialEq, Hash)]
pub struct Bitmap {
    pub origin: Origin,
    pub path: String,
    pub size: Option<Size>,
    pub resize: Option<Size>,
    pub resize_filter: Option<ResizeFilter>,
    pub resize_mode: Option<ResizeMode>,
    pub raw_size: Option<Size>,
    pub codepage: Option<String>,
    pub align: Option<Align>,
    pub spacing: Option<Size>,
}

/// A TrueType font override segment repr, constructed with
/// [`true_type()`](true_type).
#[derive(Clone, Debug, Eq, PartialEq, Hash)]
pub struct TrueType {
    pub origin: Origin,
    pub path: String,
    pub size: Size,
    pub size_reference: Option<char>,
    pub mode: Option<RasterizationMode>,
    pub codepage: Option<String>,
    pub align: Option<Align>,
    pub spacing: Option<Size>,
}

/// Construct a bitmap font override segment repr.
pub fn bitmap(origin: Origin, path: String) -> (r: Bitmap)
    ensures
        r == (Bitmap {
            origin,
            path,
            size: None,
            resize: None,
            resize_filter: None,
            resize_mode: None,
            raw_size: None,
            codepage: None,
            align: None,
            spacing: None,
        }),
{
    Bitmap {
        origin,
        path,
        size: None,
        resize: None,
        resize_filter: None,
        resize_mode: None,
        raw_size: None,
        codepage: None,
        align: None,
        spacing: None,
    }
}

/// Construct a TrueType font override segment repr.
///
/// If `tile_size.width` is `0`, the serialized `size` attribute carries
/// only `tile_size.height` as a bare number, the shorthand for "auto
/// width, fixed height".
pub fn true_type(origin: Origin, path: String, tile_size: Size) -> (r: TrueType)
    ensures
        r == (TrueType {
            origin,
            path,
            size: tile_size,
            size_reference: None,
            mode: None,
            codepage: None,
            align: None,
            spacing: None,
        }),
{
    TrueType {
        origin,
        path,
        size: tile_size,
        size_reference: None,
        mode: None,
        codepage: None,
        align: None,
        spacing: None,
    }
}

/// The origin's serialized form: `font` for the root slot, the glyph's
/// code point in upper-case hexadecimal with a `0x` prefix otherwise.
pub open spec fn spec_origin_str(o: Origin) -> Seq<char> {
    match o {
        Origin::Root => "font"@,
        Origin::Offset(c) => "0x"@ + spec_uhex_upper((c as u32) as nat),
    }
}

/// The configuration token for a rasterization mode.
pub open spec fn spec_rasterization_mode_str(m: RasterizationMode) -> Seq<char> {
    match m {
        RasterizationMode::Monochrome => "monochrome"@,
        RasterizationMode::Normal => "normal"@,
        RasterizationMode::Lcd => "lcd"@,
    }
}

/// The configuration token for a resize filter.
pub open spec fn spec_resize_filter_str(f: ResizeFilter) -> Seq<char> {
    match f {
        ResizeFilter::Nearest => "nearest"@,
        ResizeFilter::Bilinear => "bilinear"@,
        ResizeFilter::Bicubic => "bicubic"@,
    }
}

/// The configuration token for a resize mode.
pub open spec fn spec_resize_mode_str(m: ResizeMode) -> Seq<char> {
    match m {
        ResizeMode::Stretch => "stretch"@,
        ResizeMode::Fit => "fit"@,
        ResizeMode::Crop => "crop"@,
    }
}

/// The configuration token for a tile alignment.
pub open spec fn spec_align_str(a: Align) -> Seq<char> {
    match a {
        Align::Center => "center"@,
        Align::TopLeft => "top-left"@,
        Align::BottomLeft => "bottom-left"@,
        Align::TopRight => "top-right"@,
        Align::BottomRight => "bottom-right"@,
    }
}

/// An optional size attribute, `key` carrying its `, name=` prefix.
pub open spec fn spec_font_size_attr(key: Seq<char>, v: Option<Size>) -> Seq<char> {
    match v {
        Some(s) => key + spec_size_str(s),
        None => Seq::<char>::empty(),
    }
}

/// The optional escaped `codepage` attribute.
pub open spec fn spec_codepage_attr(v: Option<String>) -> Seq<char> {
    match v {
        Some(s) => ", codepage="@ + spec_escape(s@),
        None => Seq::<char>::empty(),
    }
}

/// The optional `resize-filter` attribute.
pub open spec fn spec_resize_filter_attr(v: Option<ResizeFilter>) -> Seq<char> {
    match v {
        Some(f) => ", resize-filter="@ + spec_resize_filter_str(f),
        None => Seq::<char>::empty(),
    }
}

/// The optional `resize-mode` attribute.
pub open spec fn spec_resize_mode_attr(v: Option<ResizeMode>) -> Seq<char> {
    match v {
        Some(m) => ", resize-mode="@ + spec_resize_mode_str(m),
        None => Seq::<char>::empty(),
    }
}

/// The optional `align` attribute.
pub open spec fn spec_align_attr(v: Option<Align>) -> Seq<char> {
    match v {
        Some(a) => ", align="@ + spec_align_str(a),
        None => Seq::<char>::empty(),
    }
}

/// The optional `mode` attribute of a TrueType segment.
pub open spec fn spec_rasterization_mode_attr(v: Option<RasterizationMode>) -> Seq<char> {
    match v {
        Some(m) => ", mode="@ + spec_rasterization_mode_str(m),
        None => Seq::<char>::empty(),
    }
}

/// The optional `size-reference` attribute: the probe character's code
/// point in upper-case hexadecimal.
pub open spec fn spec_size_reference_attr(v: Option<char>) -> Seq<char> {
    match v {
        Some(c) => ", size-reference=0x"@ + spec_uhex_upper((c as u32) as nat),
        None => Seq::<char>::empty(),
    }
}

/// The `size` attribute of a TrueType segment: a bare height when the
/// width is zero (auto width), a `WxH` pair otherwise.
pub open spec fn spec_truetype_size_str(s: Size) -> Seq<char> {
    if s.width == 0 {
        spec_idec(s.height as int)
    } else {
        spec_size_str(s)
    }
}

/// A bitmap segment's serialized form: origin, escaped path, then every
/// present attribute in declaration order, and the closing `;`.
pub open spec fn spec_bitmap_config(b: Bitmap) -> Seq<char> {
    spec_origin_str(b.origin) + ": "@ + spec_escape(b.path@) + spec_font_size_attr(
        ", size="@,
        b.size,
    ) + spec_font_size_attr(", resize="@, b.resize) + spec_resize_filter_attr(b.resize_filter)
        + spec_resize_mode_attr(b.resize_mode) + spec_font_size_attr(", raw-size="@, b.raw_size)
        + spec_codepage_attr(b.codepage) + spec_align_attr(b.align) + spec_font_size_attr(
        ", spacing="@,
        b.spacing,
    ) + ";"@
}

/// A TrueType segment's serialized form: origin, escaped path, the
/// mandatory `size` attribute (bare height when the width is zero), then
/// every present attribute in declaration order, and the closing `;`.
pub open spec fn spec_truetype_config(t: TrueType) -> Seq<char> {
    spec_origin_str(t.origin) + ": "@ + spec_escape(t.path@) + ", size="@
        + spec_truetype_size_str(t.size) + spec_size_reference_attr(t.size_reference)
        + spec_rasterization_mode_attr(t.mode) + spec_codepage_attr(t.codepage) + spec_align_attr(
        t.align,
    ) + spec_font_size_attr(", spacing="@, t.spacing) + ";"@
}

impl Origin {
    /// The serialized form of the origin: `font` or the glyph offset.
    pub fn config_str(&self) -> (r: String)
        ensures
            r@ == spec_origin_str(*self),
    {
        match self {
            Origin::Root => String::from_str("font"),
            Origin::Offset(c) => {
                let mut s = String::from_str("0x");
                let t = u32_hex_upper_str(*c as u32);
                s.append(t.as_str());
                proof {
                    assert(s@ =~= spec_origin_str(*self));
                }
                s
            },
        }
    }
}

impl RasterizationMode {
    /// The token this mode serializes to.
    pub fn config_str(&self) -> (r: String)
        ensures
            r@ == spec_rasterization_mode_str(*self),
    {
        match self {
            RasterizationMode::Monochrome => String::from_str("monochrome"),
            RasterizationMode::Normal => String::from_str("normal"),
            RasterizationMode::Lcd => String::from_str("lcd"),
        }
    }
}

impl ResizeFilter {
    /// The token this filter serializes to.
    pub fn config_str(&self) -> (r: String)
        ensures
            r@ == spec_resize_filter_str(*self),
    {
        match self {
            ResizeFilter::Nearest => String::from_str("nearest"),
            ResizeFilter::Bilinear => String::from_str("bilinear"),
            ResizeFilter::Bicubic => String::from_str("bicubic"),
        }
    }
}

impl ResizeMode {
    /// The token this mode serializes to.
    pub fn config_str(&self) -> (r: String)
        ensures
            r@ == spec_resize_mode_str(*self),
    {
        match self {
            ResizeMode::Stretch => String::from_str("stretch"),
            ResizeMode::Fit => String::from_str("fit"),
            ResizeMode::Crop => String::from_str("crop"),
        }
    }
}

impl Align {
    /// The token this alignment serializes to.
    pub fn config_str(&self) -> (r: String)
        ensures
            r@ == spec_align_str(*self),
    {
        match self {
            Align::Center => String::from_str("center"),
            Align::TopLeft => String::from_str("top-left"),
            Align::BottomLeft => String::from_str("bottom-left"),
            Align::TopRight => String::from_str("top-right"),
            Align::BottomRight => String::from_str("bottom-right"),
        }
    }
}

fn font_size_attr(key: &str, v: &Option<Size>) -> (r: String)
    ensures
        r@ == spec_font_size_attr(key@, *v),
{
    match v {
        Some(size) => {
            let mut s = String::from_str(key);
            let t = size.config_str();
            s.append(t.as_str());
            proof {
                assert(s@ =~= spec_font_size_attr(key@, *v));
            }
            s
        },
        None => {
            let s = String::new();
            proof {
                assert(s@ =~= spec_font_size_attr(key@, *v));
            }
            s
        },
    }
}

fn codepage_attr(v: &Option<String>) -> (r: String)
    ensures
        r@ == spec_codepage_attr(*v),
{
    match v {
        Some(codepage) => {
            let mut s = String::from_str(", codepage=");
            let t = escape_config_string(codepage);
            s.append(t.as_str());
            proof {
                assert(s@ =~= spec_codepage_attr(*v));
            }
            s
        },
        None => {
            let s = String::new();
            proof {
                assert(s@ =~= spec_codepage_attr(*v));
            }
            s
        },
    }
}

fn resize_filter_attr(v: &Option<ResizeFilter>) -> (r: String)
    ensures
        r@ == spec_resize_filter_attr(*v),
{
    match v {
        Some(filter) => {
            let mut s = String::from_str(", resize-filter=");
            let t = filter.config_str();
            s.append(t.as_str());
            proof {
                assert(s@ =~= spec_resize_filter_attr(*v));
            }
            s
        },
        None => {
            let s = String::new();
            proof {
                assert(s@ =~= spec_resize_filter_attr(*v));
            }
            s
        },
    }
}

fn resize_mode_attr(v: &Option<ResizeMode>) -> (r: String)
    ensures
        r@ == spec_resize_mode_attr(*v),
{
    match v {
        Some(mode) => {
            let mut s = String::from_str(", resize-mode=");
            let t = mode.config_str();
            s.append(t.as_str());
            proof {
                assert(s@ =~= spec_resize_mode_attr(*v));
            }
            s
        },
        None => {
            let s = String::new();
            proof {
                assert(s@ =~= spec_resize_mode_attr(*v));
            }
            s
        },
    }
}

fn align_attr(v: &Option<Align>) -> (r: String)
    ensures
        r@ == spec_align_attr(*v),
{
    match v {
        Some(align) => {
            let mut s = String::from_str(", align=");
            let t = align.config_str();
            s.append(t.as_str());
            proof {
                assert(s@ =~= spec_align_attr(*v));
            }
            s
        },
        None => {
            let s = String::new();
            proof {
                assert(s@ =~= spec_align_attr(*v));
            }
            s
        },
    }
}

fn rasterization_mode_attr(v: &Option<RasterizationMode>) -> (r: String)
    ensures
        r@ == spec_rasterization_mode_attr(*v),
{
    match v {
        Some(mode) => {
            let mut s = String::from_str(", mode=");
            let t = mode.config_str();
            s.append(t.as_str());
            proof {
                assert(s@ =~= spec_rasterization_mode_attr(*v));
            }
            s
        },
        None => {
            let s = String::new();
            proof {
                assert(s@ =~= spec_rasterization_mode_attr(*v));
            }
            s
        },
    }
}

fn size_reference_attr(v: &Option<char>) -> (r: String)
    ensures
        r@ == spec_size_reference_attr(*v),
{
    match v {
        Some(c) => {
            let mut s = String::from_str(", size-reference=0x");
            let t = u32_hex_upper_str(*c as u32);
            s.append(t.as_str());
            proof {
                assert(s@ =~= spec_size_reference_attr(*v));
            }
            s
        },
        None => {
            let s = String::new();
            proof {
                assert(s@ =~= spec_size_reference_attr(*v));
            }
            s
        },
    }
}

impl Bitmap {
    /// The size of a single tile in the tileset.
    pub fn size(self, size: Size) -> (r: Self)
        ensures
            r == (Bitmap { size: Some(size), ..self }),
    {
        Bitmap { size: Some(size), ..self }
    }

    /// The size to resize the image to.
    pub fn resize(self, resize: Size) -> (r: Self)
        ensures
            r == (Bitmap { resize: Some(resize), ..self }),
    {
        Bitmap { resize: Some(resize), ..self }
    }

    /// How to resize the image.
    ///
    /// Default: [`ResizeFilter::Bilinear`].
    pub fn resize_filter(self, resize_filter: ResizeFilter) -> (r: Self)
        ensures
            r == (Bitmap { resize_filter: Some(resize_filter), ..self }),
    {
        Bitmap { resize_filter: Some(resize_filter), ..self }
    }

    /// Resize aspect method.
    ///
    /// Default: [`ResizeMode::Stretch`].
    pub fn resize_mode(self, resize_mode: ResizeMode) -> (r: Self)
        ensures
            r == (Bitmap { resize_mode: Some(resize_mode), ..self }),
    {
        Bitmap { resize_mode: Some(resize_mode), ..self }
    }

    /// Raw memory size, `size` if not specified.
    pub fn raw_size(self, raw_size: Size) -> (r: Self)
        ensures
            r == (Bitmap { raw_size: Some(raw_size), ..self }),
    {
        Bitmap { raw_size: Some(raw_size), ..self }
    }

    /// Tileset's codepage.
    ///
    /// Default: `"ascii"`.
    pub fn codepage(self, codepage: String) -> (r: Self)
        ensures
            r == (Bitmap { codepage: Some(codepage), ..self }),
    {
        Bitmap { codepage: Some(codepage), ..self }
    }

    /// How tiles are to be aligned.
    ///
    /// Default: [`Align::Center`].
    pub fn align(self, align: Align) -> (r: Self)
        ensures
            r == (Bitmap { align: Some(align), ..self }),
    {
        Bitmap { align: Some(align), ..self }
    }

    /// Tile alignment area, in cells.
    ///
    /// Default: `1x1`.
    pub fn spacing(self, spacing: Size) -> (r: Self)
        ensures
            r == (Bitmap { spacing: Some(spacing), ..self }),
    {
        Bitmap { spacing: Some(spacing), ..self }
    }
}

impl TrueType {
    /// Character used for size probing.
    ///
    /// Default: `'@'`.
    pub fn size_reference(self, size_reference: char) -> (r: Self)
        ensures
            r == (TrueType { size_reference: Some(size_reference), ..self }),
    {
        TrueType { size_reference: Some(size_reference), ..self }
    }

    /// Rasterization mode. Note: [`RasterizationMode::Lcd`] forces an
    /// opaque black background.
    ///
    /// Default: [`RasterizationMode::Normal`].
    pub fn mode(self, mode: RasterizationMode) -> (r: Self)
        ensures
            r == (TrueType { mode: Some(mode), ..self }),
    {
        TrueType { mode: Some(mode), ..self }
    }

    /// Reverse codepage for loading symbols.
    pub fn codepage(self, codepage: String) -> (r: Self)
        ensures
            r == (TrueType { codepage: Some(codepage), ..self }),
    {
        TrueType { codepage: Some(codepage), ..self }
    }

    /// How tiles are to be aligned.
    ///
    /// Default: [`Align::Center`].
    pub fn align(self, align: Align) -> (r: Self)
        ensures
            r == (TrueType { align: Some(align), ..self }),
    {
        TrueType { align: Some(align), ..self }
    }

    /// Tile alignment area, in cells.
    ///
    /// Default: `1x1`.
    pub fn spacing(self, spacing: Size) -> (r: Self)
        ensures
            r == (TrueType { spacing: Some(spacing), ..self }),
    {
        TrueType { spacing: Some(spacing), ..self }
    }
}

impl ConfigPart for Bitmap {
    open spec fn config_spec(&self) -> Seq<char> {
        spec_bitmap_config(*self)
    }

    fn to_config_str(&self) -> (r: String) {
        let mut s = self.origin.config_str();
        s.append(": ");
        let p = escape_config_string(&self.path);
        s.append(p.as_str());
        let p = font_size_attr(", size=", &self.size);
        s.append(p.as_str());
        let p = font_size_attr(", resize=", &self.resize);
        s.append(p.as_str());
        let p = resize_filter_attr(&self.resize_filter);
        s.append(p.as_str());
        let p = resize_mode_attr(&self.resize_mode);
        s.append(p.as_str());
        let p = font_size_attr(", raw-size=", &self.raw_size);
        s.append(p.as_str());
        let p = codepage_attr(&self.codepage);
        s.append(p.as_str());
        let p = align_attr(&self.align);
        s.append(p.as_str());
        let p = font_size_attr(", spacing=", &self.spacing);
        s.append(p.as_str());
        s.append(";");
        proof {
            assert(s@ =~= spec_bitmap_config(*self));
        }
        s
    }
}

impl ConfigPart for TrueType {
    open spec fn config_spec(&self) -> Seq<char> {
        spec_truetype_config(*self)
    }

    fn to_config_str(&self) -> (r: String) {
        let mut s = self.origin.config_str();
        s.append(": ");
        let p = escape_config_string(&self.path);
        s.append(p.as_str());
        s.append(", size=");
        let p = if self.size.width == 0 {
            i32_dec_str(self.size.height)
        } else {
            self.size.config_str()
        };
        s.append(p.as_str());
        let p = size_reference_attr(&self.size_reference);
        s.append(p.as_str());
        let p = rasterization_mode_attr(&self.mode);
        s.append(p.as_str());
        let p = codepage_attr(&self.codepage);
        s.append(p.as_str());
        let p = align_attr(&self.align);
        s.append(p.as_str());
        let p = font_size_attr(", spacing=", &self.spacing);
        s.append(p.as_str());
        s.append(";");
        proof {
            assert(s@ =~= spec_truetype_config(*self));
        }
        s
    }
}

} // verus!
