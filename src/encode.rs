//! Alphanumeric bit streams in the smallest version that holds them.
use vstd::prelude::*;
use vstd::string::StringSliceAdditionalSpecFns;
use qrcode::bits::Bits;
use qrcode::optimize::Segment;
use qrcode::types::{EcLevel, Mode, QrError, Version};
use crate::capacity::{data_length, lemma_capacity_monotone, version_capacity, DATA_LENGTHS};
use crate::options::{level_column, level_index, QrustyError};
use crate::qr::{
    alphanumeric_count_bits, alphanumeric_count_limit, alphanumeric_pushed, alphanumeric_segment_bits,
    bit_len, is_normal, new_bits, normal_number, optimize_segments, push_segments, push_terminator,
    stream_bytes, stream_version, terminated, total_encoded_len,
};
use crate::version::{find_min_version, is_min_version};

verus! {

/// The most characters an alphanumeric payload can have in any version.
pub const MAX_ALPHANUMERIC_CHARS: usize = 4296;

/// A payload of `chars` alphanumeric characters fits normal version `version`
/// at capacity column `col`.
pub open spec fn fits(chars: int, version: int, col: int) -> bool {
    alphanumeric_segment_bits(chars, version) <= version_capacity(version, col)
}

/// `version` is the smallest normal version that holds `chars` characters.
pub open spec fn is_selected(version: int, chars: int, col: int) -> bool {
    &&& 1 <= version <= 40
    &&& fits(chars, version, col)
    &&& forall|u: int| 1 <= u < version ==> !#[trigger] fits(chars, u, col)
}

/// Some normal version holds `chars` characters.
pub open spec fn some_version_fits(chars: int, col: int) -> bool {
    exists|v: int| 1 <= v <= 40 && #[trigger] fits(chars, v, col)
}

/// The single segment spanning a whole alphanumeric payload.
pub open spec fn whole_segment(chars: int) -> Segment {
    Segment { mode: Mode::Alphanumeric, begin: 0, end: chars as usize }
}

/// The checkpoint that closes each band of equal header width.
pub open spec fn checkpoint(i: int) -> int {
    if i == 0 {
        9
    } else if i == 1 {
        26
    } else {
        40
    }
}

proof fn lemma_too_long(chars: int, col: int)
    requires
        chars > MAX_ALPHANUMERIC_CHARS,
        0 <= col < 4,
    ensures
        !some_version_fits(chars, col),
{
    assert forall|v: int| 1 <= v <= 40 implies !#[trigger] fits(chars, v, col) by {
        lemma_capacity_monotone(v - 1, 39, col);
        assert(version_capacity(40, col) <= 23648);
    }
}

/// Picks the smallest normal version holding the whole payload as one
/// alphanumeric segment, probing one checkpoint per header band before the
/// exact search. Returns that version and the segments to pack.
pub fn select_version(chars: usize, ec_level: EcLevel) -> (r: Result<(Version, Vec<Segment>), QrustyError>)
    ensures
        r is Ok <==> some_version_fits(chars as int, level_column(ec_level)),
        r is Ok ==> {
            let (v, segs) = r->Ok_0;
            &&& v is Normal
            &&& is_selected(normal_number(v), chars as int, level_column(ec_level))
            &&& segs@ == seq![whole_segment(chars as int)]
        },
        r is Err ==> r->Err_0 == QrustyError::DataTooLong,
{
    let col = level_index(ec_level);
    if chars > MAX_ALPHANUMERIC_CHARS {
        proof { lemma_too_long(chars as int, col as int); }
        return Err(QrustyError::DataTooLong);
    }
    let segments = vec![Segment { mode: Mode::Alphanumeric, begin: 0, end: chars }];
    let checkpoints: [i16; 3] = [9, 26, 40];
    let mut i: usize = 0;
    while i < 3
        invariant
            col == level_column(ec_level),
            col < 4,
            chars <= MAX_ALPHANUMERIC_CHARS,
            segments@ == seq![whole_segment(chars as int)],
            checkpoints@ == seq![9i16, 26i16, 40i16],
            i <= 3,
            forall|u: int| 1 <= u <= (if i == 0 { 0 } else { checkpoint(i - 1) }) ==> !#[trigger] fits(chars as int, u, col as int),
        decreases 3 - i,
    {
        let version = Version::Normal(checkpoints[i]);
        let opt_segments = optimize_segments(&segments, version);
        let total_len = total_encoded_len(&opt_segments, version);
        let data_capacity = data_length(checkpoints[i] as usize - 1, col);
        let ghost prev: int = if i == 0 { 0 } else { checkpoint(i - 1) };
        let ghost c: int = checkpoint(i as int);
        assert(c == checkpoints[i as int]);
        if total_len <= data_capacity {
            let min_version = find_min_version(total_len, ec_level);
            proof {
                let v = normal_number(min_version);
                assert(version_capacity(c, col as int) >= total_len);
                if v <= prev {
                    lemma_capacity_monotone(v - 1, prev - 1, col as int);
                    lemma_capacity_monotone(prev - 1, c - 1, col as int);
                    assert(!fits(chars as int, prev, col as int));
                    assert(false);
                }
                assert(alphanumeric_count_bits(v) == alphanumeric_count_bits(c));
                assert forall|u: int| 1 <= u < v implies !#[trigger] fits(chars as int, u, col as int) by {
                    if u > prev {
                        assert(alphanumeric_count_bits(u) == alphanumeric_count_bits(c));
                        assert(version_capacity(u, col as int) < total_len);
                    }
                }
                assert(fits(chars as int, v, col as int));
            }
            return Ok((min_version, opt_segments));
        }
        proof {
            assert forall|u: int| 1 <= u <= c implies !#[trigger] fits(chars as int, u, col as int) by {
                if u > prev {
                    lemma_capacity_monotone(u - 1, c - 1, col as int);
                    assert(alphanumeric_count_bits(u) == alphanumeric_count_bits(c));
                }
            }
        }
        i += 1;
    }
    Err(QrustyError::DataTooLong)
}

/// The error of a failed packing step.
pub open spec fn packing_error(e: QrError) -> QrustyError {
    if e == QrError::DataTooLong {
        QrustyError::StreamOverflow
    } else {
        QrustyError::InvalidSegment
    }
}

/// Maps an error of the codec's bit packer to the library's.
pub fn packing_error_of(e: QrError) -> (r: QrustyError)
    ensures
        r == packing_error(e),
{
    match e {
        QrError::DataTooLong => QrustyError::StreamOverflow,
        _ => QrustyError::InvalidSegment,
    }
}

/// The finished stream for an alphanumeric payload in normal version `v` at
/// level column `col`: the payload pushed onto an empty stream as one
/// segment, then terminated and padded.
pub open spec fn alphanumeric_stream(data: Seq<u8>, v: int, col: int) -> Seq<u8> {
    let version = Version::Normal(v as i16);
    terminated(
        alphanumeric_pushed(Seq::empty(), 0, version, data),
        alphanumeric_segment_bits(data.len() as int, v),
        version,
        col,
    )
}

/// At most one version is the smallest that holds a payload.
pub proof fn lemma_selected_unique(v1: int, v2: int, chars: int, col: int)
    requires
        is_selected(v1, chars, col),
        is_selected(v2, chars, col),
    ensures
        v1 == v2,
{
    if v1 < v2 {
        assert(!fits(chars, v1, col));
    } else if v2 < v1 {
        assert(!fits(chars, v2, col));
    }
}

/// A payload that fits a version has a count its count indicator can express.
pub proof fn lemma_count_fits(chars: int, version: int, col: int)
    requires
        chars >= 0,
        1 <= version <= 40,
        0 <= col < 4,
        fits(chars, version, col),
    ensures
        chars < alphanumeric_count_limit(version),
{
    let t = DATA_LENGTHS;
    if version <= 9 {
        lemma_capacity_monotone(version - 1, 8, col);
        assert(t[8][col] <= 1856);
    } else if version <= 26 {
        lemma_capacity_monotone(version - 1, 25, col);
        assert(t[25][col] <= 10960);
    } else {
        lemma_capacity_monotone(version - 1, 39, col);
        assert(t[39][col] <= 23648);
    }
}

/// Packs an alphanumeric payload into a bit stream for the smallest normal
/// version that holds it at `ec_level`, terminated and padded to that
/// version's capacity.
pub fn encode_bits(data: &str, ec_level: EcLevel) -> (r: Result<Bits, QrustyError>)
    ensures
        r is Ok <==> some_version_fits(data.spec_bytes().len() as int, level_column(ec_level)),
        r matches Err(e) ==> e == QrustyError::DataTooLong,
        r matches Ok(b) ==> {
            &&& is_normal(stream_version(b))
            &&& is_selected(
                normal_number(stream_version(b)),
                data.spec_bytes().len() as int,
                level_column(ec_level),
            )
            &&& bit_len(b) == version_capacity(normal_number(stream_version(b)), level_column(ec_level))
            &&& stream_version(b) == Version::Normal(normal_number(stream_version(b)) as i16)
            &&& stream_bytes(b) == alphanumeric_stream(
                data.spec_bytes(),
                normal_number(stream_version(b)),
                level_column(ec_level),
            )
        },
{
    let bytes = data.as_bytes();
    let (version, segments) = match select_version(bytes.len(), ec_level) {
        Ok(found) => found,
        Err(e) => return Err(e),
    };
    let ghost v = normal_number(version);
    let ghost col = level_column(ec_level);
    proof {
        lemma_count_fits(bytes@.len() as int, v, col);
        assert(bytes@.subrange(0, bytes@.len() as int) =~= bytes@);
        assert(version == Version::Normal(v as i16));
    }
    let mut bits = new_bits(version);
    match push_segments(&mut bits, bytes, segments) {
        Ok(()) => {},
        Err(e) => return Err(packing_error_of(e)),
    }
    match push_terminator(&mut bits, ec_level) {
        Ok(()) => {},
        Err(e) => return Err(packing_error_of(e)),
    }
    Ok(bits)
}

} // verus!

verus! {

/// Of two alphanumeric payloads at one level, the longer never gets the
/// smaller version.
pub proof fn lemma_selected_version_monotone(chars1: int, chars2: int, v1: int, v2: int, col: int)
    requires
        0 <= chars1 <= chars2,
        is_selected(v1, chars1, col),
        is_selected(v2, chars2, col),
    ensures
        v1 <= v2,
{
    if v2 < v1 {
        assert(chars1 * 11 + 1 <= chars2 * 11 + 1);
        assert((chars1 * 11 + 1) / 2 <= (chars2 * 11 + 1) / 2);
        assert(fits(chars1, v2, col));
    }
}

/// Selection succeeds exactly when the payload fits the largest version.
pub proof fn lemma_fits_largest(chars: int, col: int)
    requires
        chars >= 0,
        0 <= col < 4,
    ensures
        some_version_fits(chars, col) <==> fits(chars, 40, col),
{
    if some_version_fits(chars, col) {
        let v = choose|v: int| 1 <= v <= 40 && #[trigger] fits(chars, v, col);
        lemma_capacity_monotone(v - 1, 39, col);
        assert(fits(chars, 40, col));
    }
}

} // verus!
