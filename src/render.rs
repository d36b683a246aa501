//! Drawing a symbol: module scale, vector and raster output, serialisation.
use vstd::prelude::*;
use qrcode::render::Renderer;
use qrcode::types::{Color, Version};
use qrcode::QrCode;
use crate::options::{level_column, RasterEncoding};
use qrcode::types::{EcLevel, QrError};
use crate::capacity::version_capacity;
use crate::qr::{bit_len, is_normal, normal_number, stream_bytes, stream_version, version_width};
use qrcode::bits::Bits;

verus! {

#[verifier::external_type_specification]
pub struct ExColor(Color);

/// A finished symbol: its version, modules per side, and module colours in
/// row-major order.
pub struct Symbol {
    pub version: Version,
    pub modules: usize,
    pub colors: Vec<Color>,
}

/// A single-channel pixel buffer in row-major order.
pub struct Raster {
    pub width: u32,
    pub height: u32,
    pub pixels: Vec<u8>,
}

/// Light modules drawn around the symbol on each side.
pub open spec fn quiet_zone(v: Version) -> int {
    match v {
        Version::Normal(_) => 4,
        Version::Micro(_) => 2,
    }
}

/// Modules across the drawing, quiet zone included.
pub open spec fn span(s: Symbol) -> int {
    s.modules + 2 * quiet_zone(s.version)
}

/// Pixels per module so that `span` modules cover at least `requested` pixels.
pub open spec fn module_scale(span: int, requested: int) -> int {
    let u = (requested + span - 1) / span;
    if u < 1 {
        1
    } else {
        u
    }
}

/// Pixels across the drawing for a request of `requested` pixels.
pub open spec fn rendered_side(span: int, requested: int) -> int {
    span * module_scale(span, requested)
}

/// One pixel scale for both axes: the larger of the two that cover the request.
pub open spec fn square_scale(span: int, width: int, height: int) -> int {
    let a = module_scale(span, width);
    let b = module_scale(span, height);
    if a >= b {
        a
    } else {
        b
    }
}

/// Pixels along each side of a square drawing for a request.
pub open spec fn square_side(span: int, width: int, height: int) -> int {
    span * square_scale(span, width, height)
}

/// Requests whose covering scale stays within 32-bit pixel coordinates.
pub open spec fn drawable(span: int, width: int, height: int) -> bool {
    &&& width + span - 1 <= u32::MAX
    &&& height + span - 1 <= u32::MAX
}

/// A one-axis side is at least the request, and at most the request plus one
/// module less a pixel, or one module for an empty request.
pub proof fn lemma_rendered_side(span: int, requested: int)
    requires
        span >= 1,
        requested >= 0,
    ensures
        rendered_side(span, requested) >= requested,
        module_scale(span, requested) >= 1,
        rendered_side(span, requested) == span * module_scale(span, requested),
        rendered_side(span, requested) <= requested + span - 1 || rendered_side(span, requested) == span,
{
    let u = (requested + span - 1) / span;
    vstd::arithmetic::div_mod::lemma_fundamental_div_mod(requested + span - 1, span);
    vstd::arithmetic::div_mod::lemma_mod_bound(requested + span - 1, span);
    assert(span * u >= requested);
    assert(span * u <= requested + span - 1);
    assert(span * module_scale(span, requested) >= span * u) by (nonlinear_arith)
        requires
            module_scale(span, requested) >= u,
            span >= 1,
    ;
}

/// The square drawing covers the request on both axes at a scale of whole
/// pixels, and stays within 32 bits when the request is drawable.
pub proof fn lemma_square_side(span: int, width: int, height: int)
    requires
        1 <= span <= 263,
        width >= 0,
        height >= 0,
    ensures
        square_side(span, width, height) >= width,
        square_side(span, width, height) >= height,
        square_scale(span, width, height) >= 1,
        drawable(span, width, height) ==> square_side(span, width, height) <= u32::MAX,
        square_side(span, width, height) == rendered_side(span, width) || square_side(span, width, height)
            == rendered_side(span, height),
{
    lemma_rendered_side(span, width);
    lemma_rendered_side(span, height);
    let a = module_scale(span, width);
    let b = module_scale(span, height);
    if a >= b {
        assert(span * a >= span * b) by (nonlinear_arith)
            requires
                a >= b,
                span >= 1,
        ;
    } else {
        assert(span * b >= span * a) by (nonlinear_arith)
            requires
                b >= a,
                span >= 1,
        ;
    }
}

/// A symbol as the codec builds it.
pub open spec fn well_formed(s: Symbol) -> bool {
    &&& (s.version is Normal ==> 1 <= normal_number(s.version) <= 40)
    &&& (s.version is Micro ==> 1 <= micro_number(s.version) <= 4)
    &&& s.modules == version_width(s.version)
    &&& s.colors@.len() == s.modules * s.modules
}

/// The decimal digit for `d` (0..=9).
pub open spec fn digit(d: int) -> char {
    if d == 0 { '0' } else if d == 1 { '1' } else if d == 2 { '2' } else if d == 3 { '3' }
    else if d == 4 { '4' } else if d == 5 { '5' } else if d == 6 { '6' } else if d == 7 { '7' }
    else if d == 8 { '8' } else { '9' }
}

/// Decimal notation of `n`, without leading zeros.
pub open spec fn decimal(n: nat) -> Seq<char>
    decreases n,
{
    if n < 10 {
        seq![digit(n as int)]
    } else {
        decimal(n / 10).push(digit((n % 10) as int))
    }
}

/// Opening of an SVG document whose drawing is `w` by `h` pixels.
pub open spec fn svg_head(w: nat, h: nat) -> Seq<char> {
    "<?xml version=\"1.0\" standalone=\"yes\"?><svg xmlns=\"http://www.w3.org/2000/svg\" version=\"1.1\" width=\""@
        + decimal(w) + "\" height=\""@ + decimal(h) + "\""@
}

/// Everything of an SVG document of side `side` before its module squares:
/// the size, a white background, and the opening of the black path.
pub open spec fn svg_open(side: nat) -> Seq<char> {
    svg_head(side, side) + " viewBox=\"0 0 "@ + decimal(side) + " "@ + decimal(side)
        + "\" shape-rendering=\"crispEdges\"><rect x=\"0\" y=\"0\" width=\""@ + decimal(side)
        + "\" height=\""@ + decimal(side) + "\" fill=\"#fff\"/><path fill=\"#000\" d=\""@
}

/// The path of one square of side `s` pixels whose top-left corner is
/// (`left`, `top`).
pub open spec fn square_path(left: nat, top: nat, s: nat) -> Seq<char> {
    "M"@ + decimal(left) + " "@ + decimal(top) + "h"@ + decimal(s) + "v"@ + decimal(s) + "H"@
        + decimal(left) + "V"@ + decimal(top)
}

/// The squares of the first `k` modules, in row-major order: one for each
/// dark module, placed after the quiet zone at `scale` pixels per module.
pub open spec fn svg_squares(colors: Seq<Color>, modules: int, quiet_zone: int, scale: int, k: nat) -> Seq<char>
    decreases k,
{
    if k == 0 {
        seq![]
    } else {
        let i = k - 1;
        let rest = svg_squares(colors, modules, quiet_zone, scale, (k - 1) as nat);
        if colors[i] != Color::Light {
            rest + square_path(
                ((i % modules + quiet_zone) * scale) as nat,
                ((i / modules + quiet_zone) * scale) as nat,
                scale as nat,
            )
        } else {
            rest
        }
    }
}

/// The SVG document drawn for module colours, modules per side, quiet zone
/// and pixel scale.
pub open spec fn svg_drawing(colors: Seq<Color>, modules: int, quiet_zone: int, scale: int) -> Seq<char> {
    svg_open(((modules + 2 * quiet_zone) * scale) as nat) + svg_squares(
        colors,
        modules,
        quiet_zone,
        scale,
        colors.len(),
    ) + "\"/></svg>"@
}

/// A drawing opens with its size.
pub proof fn lemma_svg_opens(colors: Seq<Color>, modules: int, quiet_zone: int, scale: int)
    ensures
        starts_with(
            svg_drawing(colors, modules, quiet_zone, scale),
            svg_head(((modules + 2 * quiet_zone) * scale) as nat, ((modules + 2 * quiet_zone) * scale) as nat),
        ),
{
    let side = ((modules + 2 * quiet_zone) * scale) as nat;
    let h = svg_head(side, side);
    let d = svg_drawing(colors, modules, quiet_zone, scale);
    assert(svg_open(side).subrange(0, h.len() as int) =~= h);
    assert(d.subrange(0, h.len() as int) =~= h);
}

/// `s` begins with `prefix`.
pub open spec fn starts_with<T>(s: Seq<T>, prefix: Seq<T>) -> bool {
    prefix.len() <= s.len() && s.subrange(0, prefix.len() as int) == prefix
}

/// The number of a micro version; 0 for a normal one.
pub open spec fn micro_number(v: Version) -> int {
    match v {
        Version::Micro(n) => n as int,
        Version::Normal(_) => 0,
    }
}

/// The two bytes that open every JPEG file.
pub open spec fn jpeg_start() -> Seq<u8> {
    seq![0xFFu8, 0xD8u8]
}

/// The eight bytes that open every PNG file.
pub open spec fn png_signature() -> Seq<u8> {
    seq![137u8, 80u8, 78u8, 71u8, 13u8, 10u8, 26u8, 10u8]
}

/// What the codec builds for a payload at a level column: the symbol's
/// version and module colours, or its error.
pub uninterp spec fn codec_output(data: Seq<u8>, col: int) -> Result<(Version, Seq<Color>), QrError>;

/// The file an image encoder writes for a grey-scale buffer, or `None`.
pub uninterp spec fn encoded_image(pixels: Seq<u8>, width: int, height: int, encoding: RasterEncoding) -> Option<Seq<u8>>;

/// Grey level of pixel (`x`, `y`) in a drawing at `scale` pixels per module:
/// black on a dark module, white on a light one and on the quiet zone.
pub open spec fn luma_pixel(colors: Seq<Color>, modules: int, quiet_zone: int, scale: int, x: int, y: int) -> u8 {
    let mx = x / scale - quiet_zone;
    let my = y / scale - quiet_zone;
    if 0 <= mx < modules && 0 <= my < modules && colors[my * modules + mx] != Color::Light {
        0
    } else {
        255
    }
}

/// All pixels of a square drawing, row by row.
pub open spec fn luma_pixels(colors: Seq<Color>, modules: int, quiet_zone: int, scale: int) -> Seq<u8> {
    let side = (modules + 2 * quiet_zone) * scale;
    Seq::new(
        (side * side) as nat,
        |i: int| luma_pixel(colors, modules, quiet_zone, scale, i % side, i / side),
    )
}

/// The symbol that a codec output describes.
pub open spec fn describes(s: Symbol, out: (Version, Seq<Color>)) -> bool {
    s.version == out.0 && s.colors@ == out.1 && s.modules == version_width(out.0)
}

/// Relies on `qrcode::QrCode::with_error_correction_level`, then `version`,
/// `width` and `into_colors`: the outcome depends on the payload and the level
/// alone; a symbol has a version that `construct_codewords` accepted, its
/// `version.width()` modules per side and one colour per module.
#[verifier::external_body]
pub(crate) fn symbol_with_level(data: &[u8], ec_level: EcLevel) -> (r: Result<Symbol, QrError>)
    ensures
        r is Ok <==> codec_output(data@, level_column(ec_level)) is Ok,
        r is Ok ==> describes(r->Ok_0, codec_output(data@, level_column(ec_level))->Ok_0),
        r is Ok ==> well_formed(r->Ok_0),
        r is Err ==> r->Err_0 == codec_output(data@, level_column(ec_level))->Err_0,
{
    match QrCode::with_error_correction_level(data, ec_level) {
        Ok(code) => Ok(Symbol { version: code.version(), modules: code.width(), colors: code.into_colors() }),
        Err(e) => Err(e),
    }
}

/// The module colours of the symbol the codec builds from a finished stream's
/// bytes for `version` at level column `col`.
pub uninterp spec fn stream_symbol(stream: Seq<u8>, version: Version, col: int) -> Seq<Color>;

/// Relies on `qrcode::QrCode::with_bits`, then `version`, `width` and
/// `into_colors`: a normal-version stream terminated at its capacity for
/// `ec_level` has the length `construct_codewords` expects; the symbol keeps
/// the stream's version, has `version.width()` modules per side, and its
/// colours depend on the stream's bytes, version and level alone.
#[verifier::external_body]
pub(crate) fn symbol_with_bits(bits: Bits, ec_level: EcLevel) -> (r: Result<Symbol, QrError>)
    requires
        is_normal(stream_version(bits)),
        bit_len(bits) == version_capacity(normal_number(stream_version(bits)), level_column(ec_level)),
    ensures
        r is Ok,
        r is Ok ==> well_formed(r->Ok_0),
        r is Ok ==> r->Ok_0.version == stream_version(bits),
        r is Ok ==> r->Ok_0.colors@ == stream_symbol(stream_bytes(bits), stream_version(bits), level_column(ec_level)),
{
    match QrCode::with_bits(bits, ec_level) {
        Ok(code) => Ok(Symbol { version: code.version(), modules: code.width(), colors: code.into_colors() }),
        Err(e) => Err(e),
    }
}

/// Relies on `qrcode::render::Renderer` with `svg::Color`: with
/// `module_dimensions(scale, scale)` the document is `span` times `scale`
/// pixels on each side, white, with one black square per dark module as
/// `svg::Canvas` writes them.
#[verifier::external_body]
pub(crate) fn render_svg(symbol: &Symbol, quiet_zone: u32, scale: u32) -> (r: String)
    requires
        symbol.colors@.len() == symbol.modules * symbol.modules,
        symbol.modules <= 255,
        quiet_zone <= 4,
        scale >= 1,
        (symbol.modules + 2 * quiet_zone) * scale <= u32::MAX,
    ensures
        r@ == svg_drawing(symbol.colors@, symbol.modules as int, quiet_zone as int, scale as int),
{
    Renderer::<qrcode::render::svg::Color>::new(&symbol.colors, symbol.modules, quiet_zone)
        .module_dimensions(scale, scale)
        .build()
}

/// Relies on `qrcode::render::Renderer` with `image::Luma<u8>`: with
/// `module_dimensions(scale, scale)` the buffer is `span` times `scale` on
/// each side, one byte per pixel: 0 on a dark module, 255 elsewhere.
#[verifier::external_body]
pub(crate) fn render_luma(symbol: &Symbol, quiet_zone: u32, scale: u32) -> (r: Raster)
    requires
        symbol.colors@.len() == symbol.modules * symbol.modules,
        symbol.modules <= 255,
        quiet_zone <= 4,
        scale >= 1,
        (symbol.modules + 2 * quiet_zone) * scale <= u32::MAX,
        ((symbol.modules + 2 * quiet_zone) * scale) * ((symbol.modules + 2 * quiet_zone) * scale)
            <= usize::MAX,
    ensures
        r.width == (symbol.modules + 2 * quiet_zone) * scale,
        r.height == (symbol.modules + 2 * quiet_zone) * scale,
        r.pixels@ == luma_pixels(symbol.colors@, symbol.modules as int, quiet_zone as int, scale as int),
{
    let img = Renderer::<image::Luma<u8>>::new(&symbol.colors, symbol.modules, quiet_zone)
        .module_dimensions(scale, scale)
        .build();
    Raster { width: img.width(), height: img.height(), pixels: img.into_raw() }
}

/// Relies on `image::ImageBuffer::write_to` into an in-memory cursor:
/// serialises a grey-scale buffer. A PNG file opens with the PNG signature and
/// a JPEG file with its start-of-image marker. The encoders fail only on an
/// empty side, or, for JPEG, a side beyond 65535. `None` when they fail. The
/// output depends on the buffer, its size and the encoding alone.
#[verifier::external_body]
pub(crate) fn encode_raster(raster: &Raster, encoding: RasterEncoding) -> (r: Option<Vec<u8>>)
    requires
        raster.pixels@.len() == raster.width * raster.height,
    ensures
        encoding == RasterEncoding::Png && r is Some ==> starts_with(r->Some_0@, png_signature()),
        encoding is Jpeg && r is Some ==> starts_with(r->Some_0@, jpeg_start()),
        raster.width >= 1 && raster.height >= 1 && (encoding is Jpeg ==> raster.width <= 65535
            && raster.height <= 65535) ==> r is Some,
        r is Some <==> encoded_image(raster.pixels@, raster.width as int, raster.height as int, encoding) is Some,
        r matches Some(b) ==> encoded_image(raster.pixels@, raster.width as int, raster.height as int, encoding)
            == Some(b@),
{
    let format = match encoding {
        RasterEncoding::Png => image::ImageOutputFormat::Png,
        RasterEncoding::Jpeg(quality) => image::ImageOutputFormat::Jpeg(quality),
    };
    let img = image::GrayImage::from_raw(raster.width, raster.height, raster.pixels.clone())?;
    let mut bytes: Vec<u8> = Vec::new();
    img.write_to(&mut std::io::Cursor::new(&mut bytes), format).ok()?;
    Some(bytes)
}

} // verus!
