//! The four entry points: SVG, raster bytes, base64 raster, and SVG through
//! the alphanumeric bit-stream path.
use vstd::prelude::*;
use vstd::string::StringSliceAdditionalSpecFns;
use base64::Engine;
use qrcode::types::{Color, QrError, Version};
use crate::encode::{alphanumeric_stream, encode_bits, is_selected, lemma_selected_unique, some_version_fits};
use crate::options::{ec_level_of, level_column, raster_encoding_of, Options, QrustyError, RasterEncoding};
use crate::qr::{normal_number, version_width};
use crate::render::{
    codec_output, drawable, encode_raster, encoded_image, jpeg_start, lemma_square_side, luma_pixels,
    png_signature, quiet_zone, render_luma, render_svg, span, square_scale, square_side, starts_with,
    stream_symbol, svg_drawing, svg_head, symbol_with_bits, symbol_with_level, well_formed, Raster, Symbol,
};

verus! {

/// The standard base64 alphabet.
pub open spec fn base64_alphabet() -> Seq<char> {
    "ABCDEFGHIJKLMNOPQRSTUVWXYZabcdefghijklmnopqrstuvwxyz0123456789+/"@
}

/// The base64 character for a six-bit value.
pub open spec fn sextet(i: int) -> char {
    base64_alphabet()[i]
}

/// Standard, padded base64 text of `b`: each three bytes become four
/// characters; a final one or two bytes are padded with `=`.
pub open spec fn base64_of(b: Seq<u8>) -> Seq<char>
    decreases b.len(),
{
    if b.len() == 0 {
        seq![]
    } else {
        let x = b[0] as int;
        let y = if b.len() > 1 { b[1] as int } else { 0 };
        let z = if b.len() > 2 { b[2] as int } else { 0 };
        let c0 = sextet(x / 4);
        let c1 = sextet((x % 4) * 16 + y / 16);
        let c2 = sextet((y % 16) * 4 + z / 64);
        let c3 = sextet(z % 64);
        if b.len() == 1 {
            seq![c0, c1, '=', '=']
        } else if b.len() == 2 {
            seq![c0, c1, c2, '=']
        } else {
            seq![c0, c1, c2, c3] + base64_of(b.subrange(3, b.len() as int))
        }
    }
}

/// Base64 text has four characters for every three bytes or part of three.
pub proof fn lemma_base64_len(b: Seq<u8>)
    ensures
        base64_of(b).len() == 4 * ((b.len() + 2) / 3),
    decreases b.len(),
{
    if b.len() > 2 {
        lemma_base64_len(b.subrange(3, b.len() as int));
    }
}

/// Relies on `base64`'s standard engine: padded base64 over the standard
/// alphabet.
#[verifier::external_body]
fn base64_encode(bytes: &Vec<u8>) -> (r: String)
    ensures
        r@ == base64_of(bytes@),
{
    base64::engine::general_purpose::STANDARD.encode(bytes)
}

/// The document opens with a drawing of at least `w` by `h` pixels.
pub open spec fn svg_box_at_least(s: Seq<char>, w: int, h: int) -> bool {
    exists|bw: nat, bh: nat| bw >= w && bh >= h && starts_with(s, #[trigger] svg_head(bw, bh))
}

/// The bytes open as a file of the given encoding says.
pub open spec fn opens_as(b: Seq<u8>, encoding: RasterEncoding) -> bool {
    match encoding {
        RasterEncoding::Png => starts_with(b, png_signature()),
        RasterEncoding::Jpeg(_) => starts_with(b, jpeg_start()),
    }
}

/// The library's error for a failure of the symbol codec on a payload.
pub open spec fn payload_error(e: QrError) -> QrustyError {
    if e == QrError::DataTooLong {
        QrustyError::DataTooLong
    } else {
        QrustyError::CodecFailure
    }
}

/// The document drawn for a symbol of version `v` and colours `colors`.
pub open spec fn vector_output(v: Version, colors: Seq<Color>, w: int, h: int) -> Result<Seq<char>, QrustyError> {
    let n = version_width(v) + 2 * quiet_zone(v);
    if drawable(n, w, h) {
        Ok(svg_drawing(colors, version_width(v), quiet_zone(v), square_scale(n, w, h)))
    } else {
        Err(QrustyError::InvalidEncodingRequest)
    }
}

/// What `svg` returns for a payload and options.
pub open spec fn svg_output(data: Seq<u8>, opts: Options) -> Result<Seq<char>, QrustyError> {
    match codec_output(data, level_column(ec_level_of(opts.error_correction))) {
        Ok(out) => vector_output(out.0, out.1, opts.width as int, opts.height as int),
        Err(e) => Err(payload_error(e)),
    }
}

/// What `svg_alphanumeric` returns for a payload and options.
pub open spec fn alphanumeric_svg_output(data: Seq<u8>, opts: Options) -> Result<Seq<char>, QrustyError> {
    let col = level_column(ec_level_of(opts.error_correction));
    if !some_version_fits(data.len() as int, col) {
        Err(QrustyError::DataTooLong)
    } else {
        let v = choose|v: int| is_selected(v, data.len() as int, col);
        let version = Version::Normal(v as i16);
        vector_output(
            version,
            stream_symbol(alphanumeric_stream(data, v, col), version, col),
            opts.width as int,
            opts.height as int,
        )
    }
}

/// The file encoded from the square drawing of a symbol.
pub open spec fn raster_output(
    v: Version,
    colors: Seq<Color>,
    w: int,
    h: int,
    encoding: RasterEncoding,
) -> Result<Seq<u8>, QrustyError> {
    let n = version_width(v) + 2 * quiet_zone(v);
    let side = square_side(n, w, h);
    if !drawable(n, w, h) || side * side > usize::MAX {
        Err(QrustyError::InvalidEncodingRequest)
    } else {
        match encoded_image(
            luma_pixels(colors, version_width(v), quiet_zone(v), square_scale(n, w, h)),
            side,
            side,
            encoding,
        ) {
            Some(b) => Ok(b),
            None => Err(QrustyError::CodecFailure),
        }
    }
}

/// What `create_qr_image` returns for a payload and options.
pub open spec fn image_output(data: Seq<u8>, opts: Options) -> Result<Seq<u8>, QrustyError> {
    match raster_encoding_of(opts.format) {
        None => Err(QrustyError::UnsupportedFormat),
        Some(encoding) => match codec_output(data, level_column(ec_level_of(opts.error_correction))) {
            Ok(out) => raster_output(out.0, out.1, opts.width as int, opts.height as int, encoding),
            Err(e) => Err(payload_error(e)),
        },
    }
}

/// What `image_base64` returns for a payload and options.
pub open spec fn image_base64_output(data: Seq<u8>, opts: Options) -> Result<Seq<char>, QrustyError> {
    match image_output(data, opts) {
        Ok(b) => Ok(base64_of(b)),
        Err(e) => Err(e),
    }
}

/// A text result, seen as characters.
pub open spec fn text_view(r: Result<String, QrustyError>) -> Result<Seq<char>, QrustyError> {
    match r {
        Ok(s) => Ok(s@),
        Err(e) => Err(e),
    }
}

/// A byte result, seen as a sequence.
pub open spec fn bytes_view(r: Result<Vec<u8>, QrustyError>) -> Result<Seq<u8>, QrustyError> {
    match r {
        Ok(b) => Ok(b@),
        Err(e) => Err(e),
    }
}

/// Equal payloads and options give equal results, on the SVG, alphanumeric
/// SVG, raster and base64 paths alike: each is a function of its inputs.
pub proof fn lemma_deterministic(d1: Seq<u8>, d2: Seq<u8>, o1: Options, o2: Options)
    requires
        d1 == d2,
        o1 == o2,
    ensures
        svg_output(d1, o1) == svg_output(d2, o2),
        alphanumeric_svg_output(d1, o1) == alphanumeric_svg_output(d2, o2),
        image_output(d1, o1) == image_output(d2, o2),
        image_base64_output(d1, o1) == image_base64_output(d2, o2),
{
}

/// Largest request side for which every symbol's raster can be encoded.
pub const MAX_RASTER_REQUEST: u32 = 65000;

/// Largest request side for which every symbol can be drawn.
pub open spec fn within_drawing_bounds(width: u32, height: u32) -> bool {
    width as int + 184 <= u32::MAX && height as int + 184 <= u32::MAX
}

/// Maps a failure of the symbol codec on a payload.
pub fn payload_error_of(e: QrError) -> (r: QrustyError)
    ensures
        r == payload_error(e),
{
    match e {
        QrError::DataTooLong => QrustyError::DataTooLong,
        _ => QrustyError::CodecFailure,
    }
}

/// Light modules around a symbol of version `v`.
pub fn quiet_zone_of(v: Version) -> (r: u32)
    ensures
        r == quiet_zone(v),
{
    match v {
        Version::Normal(_) => 4,
        Version::Micro(_) => 2,
    }
}

/// The common pixel scale for a request, when the drawing stays within 32 bits.
fn scale_for(span: u32, width: u32, height: u32) -> (r: Option<u32>)
    requires
        1 <= span <= 263,
    ensures
        r is Some <==> drawable(span as int, width as int, height as int),
        r matches Some(s) ==> s == square_scale(span as int, width as int, height as int),
{
    let sw: u64 = width as u64 + span as u64 - 1;
    let sh: u64 = height as u64 + span as u64 - 1;
    if sw > u32::MAX as u64 || sh > u32::MAX as u64 {
        return None;
    }
    let mut a: u64 = sw / span as u64;
    if a < 1 {
        a = 1;
    }
    let mut b: u64 = sh / span as u64;
    if b < 1 {
        b = 1;
    }
    let s = if a >= b { a } else { b };
    Some(s as u32)
}

/// Draws a symbol as a square SVG document, one scale on both axes, covering
/// at least the requested size.
pub fn render_vector(symbol: &Symbol, width: u32, height: u32) -> (r: Result<String, QrustyError>)
    requires
        well_formed(*symbol),
    ensures
        r is Ok <==> drawable(span(*symbol), width as int, height as int),
        r matches Err(e) ==> e == QrustyError::InvalidEncodingRequest,
        r matches Ok(s) ==> starts_with(
            s@,
            svg_head(
                square_side(span(*symbol), width as int, height as int) as nat,
                square_side(span(*symbol), width as int, height as int) as nat,
            ),
        ),
        r matches Ok(s) ==> svg_box_at_least(s@, width as int, height as int),
        text_view(r) == vector_output(symbol.version, symbol.colors@, width as int, height as int),
{
    let qz = quiet_zone_of(symbol.version);
    let across = symbol.modules as u32 + 2 * qz;
    let scale = match scale_for(across, width, height) {
        Some(scale) => scale,
        None => return Err(QrustyError::InvalidEncodingRequest),
    };
    proof {
        lemma_square_side(span(*symbol), width as int, height as int);
    }
    let s = render_svg(symbol, qz, scale);
    proof {
        crate::render::lemma_svg_opens(symbol.colors@, symbol.modules as int, qz as int, scale as int);
        let side = square_side(span(*symbol), width as int, height as int) as nat;
        assert(starts_with(s@, svg_head(side, side)));
    }
    Ok(s)
}

/// Draws a symbol as a square grey-scale pixel buffer covering at least the
/// requested size, each module a square of whole pixels.
pub fn render_raster(symbol: &Symbol, width: u32, height: u32) -> (r: Result<Raster, QrustyError>)
    requires
        well_formed(*symbol),
    ensures
        r is Ok <==> drawable(span(*symbol), width as int, height as int) && square_side(
            span(*symbol),
            width as int,
            height as int,
        ) * square_side(span(*symbol), width as int, height as int) <= usize::MAX,
        r matches Err(e) ==> e == QrustyError::InvalidEncodingRequest,
        r matches Ok(img) ==> {
            &&& img.width == square_side(span(*symbol), width as int, height as int)
            &&& img.height == img.width
            &&& img.width == span(*symbol) * square_scale(span(*symbol), width as int, height as int)
            &&& square_scale(span(*symbol), width as int, height as int) >= 1
            &&& img.width >= width && img.height >= height
            &&& img.pixels@.len() == img.width * img.height
            &&& img.pixels@ == luma_pixels(
                symbol.colors@,
                symbol.modules as int,
                quiet_zone(symbol.version),
                square_scale(span(*symbol), width as int, height as int),
            )
        },
{
    let qz = quiet_zone_of(symbol.version);
    let across = symbol.modules as u32 + 2 * qz;
    let scale = match scale_for(across, width, height) {
        Some(scale) => scale,
        None => return Err(QrustyError::InvalidEncodingRequest),
    };
    proof {
        lemma_square_side(span(*symbol), width as int, height as int);
    }
    let side = across * scale;
    assert(side as u128 * side as u128 <= 0xffff_ffffu128 * 0xffff_ffffu128) by (nonlinear_arith)
        requires
            side <= 0xffff_ffffu32,
    ;
    if side as u128 * side as u128 > usize::MAX as u128 {
        return Err(QrustyError::InvalidEncodingRequest);
    }
    Ok(render_luma(symbol, qz, scale))
}

/// Encodes `data` at the requested level in the smallest version the codec
/// finds, as a square SVG document of at least the requested size.
pub fn svg(data: &str, opts: &Options) -> (r: Result<String, QrustyError>)
    ensures
        text_view(r) == svg_output(data.spec_bytes(), *opts),
        codec_output(data.spec_bytes(), level_column(ec_level_of(opts.error_correction))) is Ok
            && within_drawing_bounds(opts.width, opts.height) ==> r is Ok,
        r matches Ok(s) ==> svg_box_at_least(s@, opts.width as int, opts.height as int),
        r matches Err(e) ==> e == QrustyError::DataTooLong || e == QrustyError::CodecFailure
            || e == QrustyError::InvalidEncodingRequest,
{
    let symbol = match symbol_with_level(data.as_bytes(), opts.error_correction.t()) {
        Ok(symbol) => symbol,
        Err(e) => return Err(payload_error_of(e)),
    };
    render_vector(&symbol, opts.width, opts.height)
}

/// Packs `data` as one alphanumeric segment into the smallest version that
/// holds it, and draws the symbol as a square SVG document of at least the
/// requested size.
pub fn svg_alphanumeric(data: &str, opts: &Options) -> (r: Result<String, QrustyError>)
    ensures
        (r matches Err(e) && e == QrustyError::DataTooLong) <==> !some_version_fits(
            data.spec_bytes().len() as int,
            level_column(ec_level_of(opts.error_correction)),
        ),
        some_version_fits(data.spec_bytes().len() as int, level_column(ec_level_of(opts.error_correction)))
            && within_drawing_bounds(opts.width, opts.height) ==> r is Ok,
        r matches Ok(s) ==> svg_box_at_least(s@, opts.width as int, opts.height as int),
        r matches Err(e) ==> e == QrustyError::DataTooLong || e == QrustyError::InvalidEncodingRequest,
        text_view(r) == alphanumeric_svg_output(data.spec_bytes(), *opts),
{
    let level = opts.error_correction.t();
    let bits = match encode_bits(data, level) {
        Ok(bits) => bits,
        Err(e) => return Err(e),
    };
    let symbol = match symbol_with_bits(bits, level) {
        Ok(symbol) => symbol,
        Err(_) => return Err(QrustyError::CodecFailure),
    };
    proof {
        let n = data.spec_bytes().len() as int;
        let col = level_column(ec_level_of(opts.error_correction));
        let v = normal_number(symbol.version);
        let c = choose|v: int| is_selected(v, n, col);
        lemma_selected_unique(c, v, n, col);
    }
    render_vector(&symbol, opts.width, opts.height)
}

/// Encodes `data` and serialises the symbol as a square PNG or JPEG image of
/// at least the requested size.
pub fn create_qr_image(data: &str, opts: &Options) -> (r: Result<Vec<u8>, QrustyError>)
    ensures
        (r matches Err(e) && e == QrustyError::UnsupportedFormat) <==> raster_encoding_of(
            opts.format,
        ) is None,
        raster_encoding_of(opts.format) is Some && codec_output(
            data.spec_bytes(),
            level_column(ec_level_of(opts.error_correction)),
        ) is Ok && opts.width <= MAX_RASTER_REQUEST && opts.height <= MAX_RASTER_REQUEST ==> r is Ok,
        bytes_view(r) == image_output(data.spec_bytes(), *opts),
        r matches Ok(b) ==> opens_as(b@, raster_encoding_of(opts.format)->Some_0),
        r matches Err(e) ==> e == QrustyError::UnsupportedFormat || e == QrustyError::DataTooLong
            || e == QrustyError::CodecFailure || e == QrustyError::InvalidEncodingRequest,
{
    let encoding = match opts.format.t() {
        Ok(encoding) => encoding,
        Err(e) => return Err(e),
    };
    let symbol = match symbol_with_level(data.as_bytes(), opts.error_correction.t()) {
        Ok(symbol) => symbol,
        Err(e) => return Err(payload_error_of(e)),
    };
    proof {
        let n = span(symbol);
        let w = opts.width as int;
        let h = opts.height as int;
        lemma_square_side(n, w, h);
        crate::render::lemma_rendered_side(n, w);
        crate::render::lemma_rendered_side(n, h);
        assert(1 <= n <= 185);
        if w <= 65000 && h <= 65000 {
            let side = square_side(n, w, h);
            assert(side <= 65184);
            assert(side * side <= 65184 * 65184) by (nonlinear_arith)
                requires
                    0 <= side <= 65184,
            ;
        }
    }
    let raster = match render_raster(&symbol, opts.width, opts.height) {
        Ok(raster) => raster,
        Err(e) => return Err(e),
    };
    assert(raster.width >= 1 && raster.height >= 1) by {
        lemma_square_side(span(symbol), opts.width as int, opts.height as int);
        assert(span(symbol) * square_scale(span(symbol), opts.width as int, opts.height as int)
            >= span(symbol)) by (nonlinear_arith)
            requires
                span(symbol) >= 1,
                square_scale(span(symbol), opts.width as int, opts.height as int) >= 1,
        ;
    }
    match encode_raster(&raster, encoding) {
        Some(bytes) => Ok(bytes),
        None => Err(QrustyError::CodecFailure),
    }
}

/// As `create_qr_image`, with the image as standard base64 text.
pub fn image_base64(data: &str, opts: &Options) -> (r: Result<String, QrustyError>)
    ensures
        (r matches Err(e) && e == QrustyError::UnsupportedFormat) <==> raster_encoding_of(
            opts.format,
        ) is None,
        raster_encoding_of(opts.format) is Some && codec_output(
            data.spec_bytes(),
            level_column(ec_level_of(opts.error_correction)),
        ) is Ok && opts.width <= MAX_RASTER_REQUEST && opts.height <= MAX_RASTER_REQUEST ==> r is Ok,
        text_view(r) == image_base64_output(data.spec_bytes(), *opts),
        r matches Ok(s) ==> exists|b: Seq<u8>|
            #[trigger] base64_of(b) == s@ && opens_as(b, raster_encoding_of(opts.format)->Some_0),
        r matches Ok(s) ==> s@.len() % 4 == 0,
        r matches Err(e) ==> e == QrustyError::UnsupportedFormat || e == QrustyError::DataTooLong
            || e == QrustyError::CodecFailure || e == QrustyError::InvalidEncodingRequest,
{
    match create_qr_image(data, opts) {
        Ok(bytes) => {
            let text = base64_encode(&bytes);
            proof {
                lemma_base64_len(bytes@);
            }
            Ok(text)
        },
        Err(e) => Err(e),
    }
}

} // verus!
