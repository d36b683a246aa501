//! The QR codec this library builds on: its types, and the calls made into it.
use vstd::prelude::*;
use qrcode::bits::Bits;
use qrcode::optimize::Segment;
use qrcode::types::{EcLevel, Mode, QrError, Version};
use crate::capacity::version_capacity;
use crate::options::level_column;

verus! {

#[verifier::external_type_specification]
pub struct ExEcLevel(EcLevel);

#[verifier::external_type_specification]
pub struct ExVersion(Version);

#[verifier::external_type_specification]
pub struct ExMode(Mode);

#[verifier::external_type_specification]
pub struct ExSegment(Segment);

#[verifier::external_type_specification]
pub struct ExQrError(QrError);

#[verifier::external_type_specification]
#[verifier::external_body]
pub struct ExBits(Bits);

/// Bits of the character-count indicator of an alphanumeric segment in
/// normal version `version` (1..=40).
pub open spec fn alphanumeric_count_bits(version: int) -> int {
    if version <= 9 {
        9
    } else if version <= 26 {
        11
    } else {
        13
    }
}

/// Bits taken by an alphanumeric segment of `chars` characters in normal
/// version `version`: mode indicator, character count, then eleven bits per
/// pair of characters and six for a final odd one.
pub open spec fn alphanumeric_segment_bits(chars: int, version: int) -> int {
    4 + alphanumeric_count_bits(version) + (chars * 11 + 1) / 2
}

/// A segment whose byte range lies within a payload of `len` bytes.
pub open spec fn segment_in(s: Segment, len: int) -> bool {
    s.begin <= s.end && s.end <= len
}

/// Modules per side of a symbol of the given version.
pub open spec fn version_width(v: Version) -> int {
    match v {
        Version::Normal(n) => n * 4 + 17,
        Version::Micro(n) => n * 2 + 9,
    }
}

/// The number of a normal version; 0 for a micro one.
pub open spec fn normal_number(v: Version) -> int {
    match v {
        Version::Normal(n) => n as int,
        Version::Micro(_) => 0,
    }
}

/// Characters an alphanumeric count indicator can express in normal version
/// `version`: two to the power of its width.
pub open spec fn alphanumeric_count_limit(version: int) -> int {
    if version <= 9 {
        512
    } else if version <= 26 {
        2048
    } else {
        8192
    }
}

/// A normal version, 1..=40.
pub open spec fn is_normal(v: Version) -> bool {
    v is Normal && 1 <= normal_number(v) <= 40
}

/// One alphanumeric segment of a whole payload, whose count its version's
/// count indicator can express.
pub open spec fn packable(segments: Seq<Segment>, len: int, version: Version) -> bool {
    &&& segments.len() == 1
    &&& segments[0].mode == Mode::Alphanumeric
    &&& segment_in(segments[0], len)
    &&& segments[0].end - segments[0].begin < alphanumeric_count_limit(normal_number(version))
}

/// Bits pushed so far into a stream.
pub uninterp spec fn bit_len(b: Bits) -> int;

/// The version a stream is built for.
pub uninterp spec fn stream_version(b: Bits) -> Version;

/// The bytes of a stream, as `Bits::into_bytes` hands them out.
pub uninterp spec fn stream_bytes(b: Bits) -> Seq<u8>;

/// The bytes of a stream of `len` bits after alphanumeric `chars` are pushed
/// onto it in `version`.
pub uninterp spec fn alphanumeric_pushed(stream: Seq<u8>, len: int, version: Version, chars: Seq<u8>) -> Seq<u8>;

/// The bytes of a stream of `len` bits after it is terminated and padded to
/// the capacity of `version` at level column `col`.
pub uninterp spec fn terminated(stream: Seq<u8>, len: int, version: Version, col: int) -> Seq<u8>;

/// Relies on `qrcode::optimize::Optimizer`, collected: a sequence of a single
/// segment comes back as that very segment.
#[verifier::external_body]
pub(crate) fn optimize_segments(segments: &Vec<Segment>, version: Version) -> (r: Vec<Segment>)
    requires
        segments@.len() == 1,
        segments@[0].begin <= segments@[0].end,
        segments@[0].end <= usize::MAX / 16,
        is_normal(version),
    ensures
        r@ == segments@,
{
    qrcode::optimize::Optimizer::new(segments.iter().copied(), version).collect()
}

/// Relies on `qrcode::optimize::total_encoded_len`: for one alphanumeric
/// segment in a normal version, the length that `Segment::encoded_len` gives.
#[verifier::external_body]
pub(crate) fn total_encoded_len(segments: &Vec<Segment>, version: Version) -> (r: usize)
    requires
        segments@.len() == 1,
        segments@[0].mode == Mode::Alphanumeric,
        segments@[0].begin <= segments@[0].end,
        segments@[0].end <= usize::MAX / 16,
        is_normal(version),
    ensures
        r == alphanumeric_segment_bits(
            segments@[0].end - segments@[0].begin,
            normal_number(version),
        ),
{
    qrcode::optimize::total_encoded_len(segments, version)
}

/// Relies on `qrcode::bits::Bits::new` (empty stream) and `Bits::len` /
/// `Bits::version` for the model.
#[verifier::external_body]
pub(crate) fn new_bits(version: Version) -> (r: Bits)
    ensures
        bit_len(r) == 0,
        stream_version(r) == version,
        stream_bytes(r) == Seq::<u8>::empty(),
{
    Bits::new(version)
}

/// Relies on `qrcode::bits::Bits::push_segments`: for one alphanumeric segment
/// in a normal version, `push_alphanumeric_data` adds the mode indicator, the
/// count and eleven bits per character pair (six for an odd one), and fails
/// only when the count overflows its indicator.
#[verifier::external_body]
pub(crate) fn push_segments(bits: &mut Bits, data: &[u8], segments: Vec<Segment>) -> (r: Result<(), QrError>)
    requires
        is_normal(stream_version(*old(bits))),
        packable(segments@, data@.len() as int, stream_version(*old(bits))),
    ensures
        r is Ok,
        stream_version(*final(bits)) == stream_version(*old(bits)),
        bit_len(*final(bits)) == bit_len(*old(bits)) + alphanumeric_segment_bits(
            segments@[0].end - segments@[0].begin,
            normal_number(stream_version(*old(bits))),
        ),
        stream_bytes(*final(bits)) == alphanumeric_pushed(
            stream_bytes(*old(bits)),
            bit_len(*old(bits)),
            stream_version(*old(bits)),
            data@.subrange(segments@[0].begin as int, segments@[0].end as int),
        ),
{
    bits.push_segments(data, segments.into_iter())
}

/// Relies on `qrcode::bits::Bits::push_terminator`: in a normal version it
/// fails with `DataTooLong` exactly when the stream exceeds the capacity at
/// `ec_level`, and otherwise pads the stream to that capacity.
#[verifier::external_body]
pub(crate) fn push_terminator(bits: &mut Bits, ec_level: EcLevel) -> (r: Result<(), QrError>)
    requires
        is_normal(stream_version(*old(bits))),
    ensures
        stream_version(*final(bits)) == stream_version(*old(bits)),
        r is Ok <==> bit_len(*old(bits)) <= version_capacity(
            normal_number(stream_version(*old(bits))),
            level_column(ec_level),
        ),
        r is Ok ==> bit_len(*final(bits)) == version_capacity(
            normal_number(stream_version(*old(bits))),
            level_column(ec_level),
        ),
        r matches Err(e) ==> e == QrError::DataTooLong,
        r is Ok ==> stream_bytes(*final(bits)) == terminated(
            stream_bytes(*old(bits)),
            bit_len(*old(bits)),
            stream_version(*old(bits)),
            level_column(ec_level),
        ),
{
    bits.push_terminator(ec_level)
}

} // verus!
