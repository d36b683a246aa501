use base64::Engine;
use qrcode::types::{Color, EcLevel, QrError, Version};
use qrusty::api::{
    create_qr_image, image_base64, payload_error_of, quiet_zone_of, render_raster, render_vector, svg,
    svg_alphanumeric,
};
use qrusty::capacity::{data_length, DATA_LENGTHS};
use qrusty::encode::{encode_bits, packing_error_of, select_version};
use qrusty::options::{level_index, Format, Options, QrustyError, RasterEncoding, ECL};
use qrusty::render::Symbol;
use qrusty::version::{as_i16, find_min_version};

const PNG_MAGIC: [u8; 8] = [137, 80, 78, 71, 13, 10, 26, 10];

fn opts(width: u32, height: u32, error_correction: ECL, format: Format) -> Options {
    Options { width, height, error_correction, format }
}

fn blank_symbol() -> Symbol {
    Symbol { version: Version::Normal(1), modules: 21, colors: vec![Color::Light; 441] }
}

#[test]
fn table_cells() {
    assert_eq!(data_length(0, 0), 152);
    assert_eq!(data_length(39, 3), 10208);
    assert_eq!(data_length(43, 2), 80);
}

#[test]
fn table_is_increasing_over_normal_versions() {
    for col in 0..4 {
        for row in 0..39 {
            assert!(DATA_LENGTHS[row][col] < DATA_LENGTHS[row + 1][col]);
        }
    }
}

#[test]
fn level_columns() {
    assert_eq!(level_index(EcLevel::L), 0);
    assert_eq!(level_index(EcLevel::M), 1);
    assert_eq!(level_index(EcLevel::Q), 2);
    assert_eq!(level_index(EcLevel::H), 3);
}

#[test]
fn ecl_maps_to_codec_levels() {
    assert_eq!(ECL::L.t(), EcLevel::L);
    assert_eq!(ECL::M.t(), EcLevel::M);
    assert_eq!(ECL::Q.t(), EcLevel::Q);
    assert_eq!(ECL::H.t(), EcLevel::H);
}

#[test]
fn format_mappings() {
    assert_eq!(Format::PNG.t(), Ok(RasterEncoding::Png));
    assert_eq!(Format::PNG64.t(), Ok(RasterEncoding::Png));
    assert_eq!(Format::JPG.t(), Ok(RasterEncoding::Jpeg(100)));
    assert_eq!(Format::JPEG.t(), Ok(RasterEncoding::Jpeg(100)));
    assert_eq!(Format::JPG64.t(), Ok(RasterEncoding::Jpeg(100)));
    assert_eq!(Format::JPEG64.t(), Ok(RasterEncoding::Jpeg(100)));
    assert_eq!(Format::SVG.t(), Err(QrustyError::UnsupportedFormat));
}

#[test]
fn small_counts_convert() {
    assert_eq!(as_i16(40), 40i16);
    assert_eq!(as_i16(0), 0i16);
}

#[test]
fn min_version_smallest() {
    assert_eq!(find_min_version(0, EcLevel::L), Version::Normal(1));
    assert_eq!(find_min_version(100, EcLevel::H), Version::Normal(2));
    assert_eq!(find_min_version(23648, EcLevel::L), Version::Normal(40));
}

#[test]
fn min_version_exact_capacity_and_one_more() {
    assert_eq!(find_min_version(152, EcLevel::L), Version::Normal(1));
    assert_eq!(find_min_version(153, EcLevel::L), Version::Normal(2));
    assert_eq!(find_min_version(9776, EcLevel::H), Version::Normal(39));
    assert_eq!(find_min_version(9777, EcLevel::H), Version::Normal(40));
}

#[test]
fn min_version_monotone_in_length() {
    let mut last = 1i16;
    for length in (0..=18672).step_by(97) {
        match find_min_version(length, EcLevel::M) {
            Version::Normal(v) => {
                assert!(v >= last);
                last = v;
            }
            Version::Micro(_) => panic!("micro version selected"),
        }
    }
}

#[test]
fn select_hello_world() {
    let (version, segments) = select_version(11, EcLevel::M).unwrap();
    assert_eq!(version, Version::Normal(1));
    assert_eq!(segments.len(), 1);
    assert_eq!(segments[0].begin, 0);
    assert_eq!(segments[0].end, 11);
}

#[test]
fn select_boundary_payload() {
    // 47 characters take exactly the 272 bits of version 2 at level L.
    assert_eq!(select_version(47, EcLevel::L).unwrap().0, Version::Normal(2));
    assert_eq!(select_version(48, EcLevel::L).unwrap().0, Version::Normal(3));
}

#[test]
fn select_largest_payload() {
    assert_eq!(select_version(4296, EcLevel::L).unwrap().0, Version::Normal(40));
    assert_eq!(select_version(4297, EcLevel::L).err(), Some(QrustyError::DataTooLong));
}

#[test]
fn select_crosses_header_band() {
    // 10 or more versions: the character count widens to 11 bits.
    assert_eq!(select_version(395, EcLevel::L).unwrap().0, Version::Normal(10));
    assert_eq!(select_version(396, EcLevel::L).unwrap().0, Version::Normal(11));
}

#[test]
fn select_monotone_in_length() {
    let mut last = 1i16;
    for chars in 0..=1852usize {
        match select_version(chars, EcLevel::H) {
            Ok((Version::Normal(v), _)) => {
                assert!(v >= last);
                last = v;
            }
            _ => panic!("payload of {} characters should fit", chars),
        }
    }
    assert_eq!(select_version(1853, EcLevel::H).err(), Some(QrustyError::DataTooLong));
}

#[test]
fn encode_bits_hello_world() {
    assert!(encode_bits("HELLO WORLD", EcLevel::M).is_ok());
}

#[test]
fn encode_bits_too_long() {
    let data = "A".repeat(5000);
    assert_eq!(encode_bits(&data, EcLevel::H).err(), Some(QrustyError::DataTooLong));
}

#[test]
fn packing_errors() {
    assert_eq!(packing_error_of(QrError::DataTooLong), QrustyError::StreamOverflow);
    assert_eq!(packing_error_of(QrError::InvalidCharacter), QrustyError::InvalidSegment);
    assert_eq!(payload_error_of(QrError::DataTooLong), QrustyError::DataTooLong);
    assert_eq!(payload_error_of(QrError::InvalidVersion), QrustyError::CodecFailure);
}

#[test]
fn quiet_zones() {
    assert_eq!(quiet_zone_of(Version::Normal(1)), 4);
    assert_eq!(quiet_zone_of(Version::Micro(1)), 2);
}

#[test]
fn raster_dimensions_cover_request() {
    let raster = render_raster(&blank_symbol(), 200, 100).unwrap();
    assert_eq!(raster.width, 203);
    assert_eq!(raster.height, 203);
    assert_eq!(raster.width % 29, 0);
    assert_eq!(raster.pixels.len(), 203 * 203);
    let raster = render_raster(&blank_symbol(), 0, 0).unwrap();
    assert_eq!((raster.width, raster.height), (29, 29));
    let raster = render_raster(&blank_symbol(), 30, 29).unwrap();
    assert_eq!((raster.width, raster.height), (58, 58));
}

#[test]
fn raster_too_large() {
    assert_eq!(render_raster(&blank_symbol(), u32::MAX, 10).err(), Some(QrustyError::InvalidEncodingRequest));
}

#[test]
fn vector_header() {
    let text = render_vector(&blank_symbol(), 60, 10).unwrap();
    assert!(text.contains("width=\"87\" height=\"87\""));
    assert!(text.contains("fill=\"#fff\""));
}

#[test]
fn svg_hello_world() {
    let text = svg("HELLO WORLD", &opts(200, 200, ECL::M, Format::SVG)).unwrap();
    assert!(text.starts_with("<?xml"));
    assert!(text.contains("width=\"203\" height=\"203\""));
}

#[test]
fn svg_alphanumeric_hello_world() {
    let text = svg_alphanumeric("HELLO WORLD", &opts(200, 200, ECL::M, Format::SVG)).unwrap();
    assert!(text.contains("width=\"203\" height=\"203\""));
}

#[test]
fn svg_alphanumeric_too_long() {
    let data = "A".repeat(5000);
    let r = svg_alphanumeric(&data, &opts(200, 200, ECL::H, Format::SVG));
    assert_eq!(r.err(), Some(QrustyError::DataTooLong));
}

#[test]
fn svg_too_long() {
    let data = "A".repeat(5000);
    let r = svg(&data, &opts(200, 200, ECL::H, Format::SVG));
    assert_eq!(r.err(), Some(QrustyError::DataTooLong));
}

#[test]
fn png_bytes() {
    let bytes = create_qr_image("HELLO WORLD", &opts(100, 100, ECL::M, Format::PNG)).unwrap();
    assert_eq!(&bytes[..8], &PNG_MAGIC);
}

#[test]
fn jpeg_bytes() {
    let bytes = create_qr_image("HELLO WORLD", &opts(100, 100, ECL::Q, Format::JPG)).unwrap();
    assert_eq!(&bytes[..3], &[0xFF, 0xD8, 0xFF]);
}

#[test]
fn raster_refuses_svg_format() {
    let r = create_qr_image("HELLO WORLD", &opts(100, 100, ECL::M, Format::SVG));
    assert_eq!(r.err(), Some(QrustyError::UnsupportedFormat));
    let r = image_base64("HELLO WORLD", &opts(100, 100, ECL::M, Format::SVG));
    assert_eq!(r.err(), Some(QrustyError::UnsupportedFormat));
}

#[test]
fn png64_decodes_to_png() {
    let text = image_base64("HELLO WORLD", &opts(100, 100, ECL::L, Format::PNG64)).unwrap();
    let bytes = base64::engine::general_purpose::STANDARD.decode(text.as_bytes()).unwrap();
    assert_eq!(&bytes[..8], &PNG_MAGIC);
    assert_eq!(text.len() % 4, 0);
}

#[test]
fn repeated_calls_agree() {
    let o = opts(120, 80, ECL::Q, Format::PNG);
    assert_eq!(create_qr_image("same input", &o).unwrap(), create_qr_image("same input", &o).unwrap());
    let o = opts(120, 80, ECL::Q, Format::SVG);
    assert_eq!(svg("same input", &o).unwrap(), svg("same input", &o).unwrap());
    assert_eq!(svg_alphanumeric("SAME", &o).unwrap(), svg_alphanumeric("SAME", &o).unwrap());
}

#[test]
fn min_version_past_largest_capacity() {
    assert_eq!(find_min_version(23649, EcLevel::L), Version::Normal(40));
    assert_eq!(find_min_version(usize::MAX, EcLevel::H), Version::Normal(40));
}

#[test]
fn min_version_grows_with_level() {
    for length in [0usize, 100, 1000, 5000, 10208, 12000, 30000] {
        let mut last = 0i16;
        for level in [EcLevel::L, EcLevel::M, EcLevel::Q, EcLevel::H] {
            match find_min_version(length, level) {
                Version::Normal(v) => {
                    assert!(v >= last);
                    last = v;
                }
                Version::Micro(_) => panic!("micro version selected"),
            }
        }
    }
}

#[test]
fn base64_text_matches_image_bytes() {
    let o = opts(90, 90, ECL::H, Format::JPEG64);
    let text = image_base64("QR", &o).unwrap();
    let bytes = create_qr_image("QR", &o).unwrap();
    assert_eq!(text, base64::engine::general_purpose::STANDARD.encode(&bytes));
    assert_eq!(&bytes[..2], &[0xFF, 0xD8]);
}

#[test]
fn vector_one_dark_module() {
    let mut colors = vec![Color::Light; 441];
    colors[0] = Color::Dark;
    colors[22] = Color::Dark;
    let symbol = Symbol { version: Version::Normal(1), modules: 21, colors };
    let text = render_vector(&symbol, 58, 1).unwrap();
    let expected = [
        r#"<?xml version="1.0" standalone="yes"?><svg xmlns="http://www.w3.org/2000/svg""#,
        r#" version="1.1" width="58" height="58" viewBox="0 0 58 58" shape-rendering="crispEdges">"#,
        r##"<rect x="0" y="0" width="58" height="58" fill="#fff"/><path fill="#000" d=""##,
        "M8 8h2v2H8V8M10 10h2v2H10V10",
        r#""/></svg>"#,
    ]
    .concat();
    assert_eq!(text, expected);
}

#[test]
fn raster_pixels_follow_modules() {
    let mut colors = vec![Color::Light; 441];
    colors[0] = Color::Dark;
    let symbol = Symbol { version: Version::Normal(1), modules: 21, colors };
    let raster = render_raster(&symbol, 58, 58).unwrap();
    assert_eq!(raster.width, 58);
    assert_eq!(raster.pixels[8 * 58 + 8], 0);
    assert_eq!(raster.pixels[9 * 58 + 9], 0);
    assert_eq!(raster.pixels[10 * 58 + 10], 255);
    assert_eq!(raster.pixels[0], 255);
}
