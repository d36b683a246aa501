//! Per-call options and the library's error taxonomy.
use vstd::prelude::*;
use qrcode::types::EcLevel;

verus! {

/// Error-correction level chosen by the caller, in increasing redundancy.
#[derive(Clone, Copy, Debug, PartialEq, Eq, Structural)]
pub enum ECL {
    L,
    M,
    Q,
    H,
}

/// Output kind. The `64` variants are the same images, base64-encoded.
#[derive(Clone, Copy, Debug, PartialEq, Eq, Structural)]
pub enum Format {
    JPG,
    JPEG,
    PNG,
    JPG64,
    JPEG64,
    PNG64,
    SVG,
}

/// How a raster buffer is serialised.
#[derive(Clone, Copy, Debug, PartialEq, Eq, Structural)]
pub enum RasterEncoding {
    Png,
    /// JPEG at the given quality (1..=100).
    Jpeg(u8),
}

/// The options of one call.
#[derive(Clone, Copy, Debug, PartialEq, Eq, Structural)]
pub struct Options {
    pub width: u32,
    pub height: u32,
    pub error_correction: ECL,
    pub format: Format,
}

/// Why a call produced no output.
#[derive(Clone, Copy, Debug, PartialEq, Eq, Structural)]
pub enum QrustyError {
    /// No version holds the payload at the requested level.
    DataTooLong,
    /// A segment's byte range does not fit the payload.
    InvalidSegment,
    /// Packing would exceed the capacity of the chosen version.
    StreamOverflow,
    /// The format has no mapping on this output path.
    UnsupportedFormat,
    /// The options cannot be served (dimensions beyond what can be drawn).
    InvalidEncodingRequest,
    /// The symbol or image codec rejected its input.
    CodecFailure,
}

/// The codec's level for a caller's level.
pub open spec fn ec_level_of(e: ECL) -> EcLevel {
    match e {
        ECL::L => EcLevel::L,
        ECL::M => EcLevel::M,
        ECL::Q => EcLevel::Q,
        ECL::H => EcLevel::H,
    }
}

/// Column of the capacity table that holds a level.
pub open spec fn level_column(e: EcLevel) -> int {
    match e {
        EcLevel::L => 0,
        EcLevel::M => 1,
        EcLevel::Q => 2,
        EcLevel::H => 3,
    }
}

/// The serialisation of a raster format; `None` for the vector format.
pub open spec fn raster_encoding_of(f: Format) -> Option<RasterEncoding> {
    match f {
        Format::PNG | Format::PNG64 => Some(RasterEncoding::Png),
        Format::JPG | Format::JPEG | Format::JPG64 | Format::JPEG64 => Some(RasterEncoding::Jpeg(100)),
        Format::SVG => None,
    }
}

impl ECL {
    /// The codec's error-correction level.
    pub fn t(&self) -> (r: EcLevel)
        ensures
            r == ec_level_of(*self),
    {
        match self {
            ECL::L => EcLevel::L,
            ECL::M => EcLevel::M,
            ECL::Q => EcLevel::Q,
            ECL::H => EcLevel::H,
        }
    }
}

impl Format {
    /// The raster serialisation of this format, JPEG always at full quality.
    pub fn t(&self) -> (r: Result<RasterEncoding, QrustyError>)
        ensures
            raster_encoding_of(*self) is Some ==> r == Ok::<RasterEncoding, QrustyError>(
                raster_encoding_of(*self)->Some_0,
            ),
            raster_encoding_of(*self) is None ==> r == Err::<RasterEncoding, QrustyError>(
                QrustyError::UnsupportedFormat,
            ),
    {
        match self {
            Format::JPG => Ok(RasterEncoding::Jpeg(100)),
            Format::JPEG => Ok(RasterEncoding::Jpeg(100)),
            Format::PNG => Ok(RasterEncoding::Png),
            Format::PNG64 => Ok(RasterEncoding::Png),
            Format::JPG64 => Ok(RasterEncoding::Jpeg(100)),
            Format::JPEG64 => Ok(RasterEncoding::Jpeg(100)),
            _ => Err(QrustyError::UnsupportedFormat),
        }
    }
}

/// The capacity-table column of a codec level.
pub fn level_index(e: EcLevel) -> (r: usize)
    ensures
        r == level_column(e),
        r < 4,
{
    match e {
        EcLevel::L => 0,
        EcLevel::M => 1,
        EcLevel::Q => 2,
        EcLevel::H => 3,
    }
}

} // verus!
