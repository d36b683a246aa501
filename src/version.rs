//! Choosing the smallest normal version whose capacity holds a bit length.
use vstd::prelude::*;
use qrcode::types::Version;
use crate::capacity::{
    capacity, data_length, lemma_capacity_monotone, lemma_capacity_step, version_capacity, DATA_LENGTHS,
};
use crate::options::{level_column, level_index};
use crate::qr::normal_number;
use qrcode::types::EcLevel;

verus! {

/// `version` is the smallest normal version holding `length` bits in column `col`.
pub open spec fn is_min_version(version: int, length: int, col: int) -> bool {
    &&& 1 <= version <= 40
    &&& length <= version_capacity(version, col)
    &&& forall|u: int| 1 <= u < version ==> #[trigger] version_capacity(u, col) < length
}

/// `version` is what the search gives for `length`: the smallest holding
/// version, or the largest when none holds it.
pub open spec fn selects(version: int, length: int, col: int) -> bool {
    &&& 1 <= version <= 40
    &&& length <= version_capacity(40, col) ==> is_min_version(version, length, col)
    &&& length > version_capacity(40, col) ==> version == 40
}

/// Converts a small count to `i16`.
pub fn as_i16(n: usize) -> (r: i16)
    requires
        n <= i16::MAX,
    ensures
        r == n,
{
    n as i16
}

/// Smallest normal version whose capacity at `ec_level` is at least `length`,
/// by binary search over the table.
pub fn find_min_version(length: usize, ec_level: EcLevel) -> (r: Version)
    ensures
        r is Normal,
        selects(normal_number(r), length as int, level_column(ec_level)),
{
    let col = level_index(ec_level);
    let mut base: usize = 0;
    let mut size: usize = 39;
    while size > 1
        invariant
            col == level_column(ec_level),
            col < 4,
            1 <= size,
            base + size <= 39,
            base == 0 || capacity(base as int, col as int) <= length,
            base + size == 39 || capacity(base + size, col as int) > length,
            length > capacity(39, col as int) ==> base + size == 39,
        decreases size,
    {
        let half = size / 2;
        let mid = base + half;
        proof {
            lemma_capacity_monotone(mid as int, 39, col as int);
        }
        base = if data_length(mid, col) > length { base } else { mid };
        size -= half;
    }
    let found = base;
    proof {
        lemma_capacity_monotone(found as int, 39, col as int);
    }
    base = if data_length(base, col) >= length { base } else { base + 1 };
    proof {
        assert forall|u: int| 1 <= u < base + 1 && length <= version_capacity(40, col as int) implies #[trigger] version_capacity(u, col as int) < length by {
            lemma_capacity_monotone(u - 1, found as int, col as int);
            if base == found && found > 0 {
                lemma_capacity_step(u - 1, col as int);
                lemma_capacity_monotone(u, found as int, col as int);
            }
        }
    }
    Version::Normal(as_i16(base + 1))
}

} // verus!

verus! {

/// A length equal to a normal version's capacity selects that version; one bit
/// more selects the next version, and past the last version none holds it.
pub proof fn lemma_capacity_boundary(version: int, col: int)
    requires
        1 <= version <= 40,
        0 <= col < 4,
    ensures
        is_min_version(version, version_capacity(version, col), col),
        version < 40 ==> is_min_version(version + 1, version_capacity(version, col) + 1, col),
        version == 40 ==> forall|u: int| 1 <= u <= 40 ==> #[trigger] version_capacity(u, col)
            < version_capacity(version, col) + 1,
{
    let length = version_capacity(version, col);
    assert forall|u: int| 1 <= u < version implies #[trigger] version_capacity(u, col) < length by {
        lemma_capacity_monotone(u, version - 1, col);
        lemma_capacity_step(u - 1, col);
    }
    if version < 40 {
        lemma_capacity_step(version - 1, col);
        assert forall|u: int| 1 <= u < version + 1 implies #[trigger] version_capacity(u, col) < length + 1 by {
            lemma_capacity_monotone(u - 1, version - 1, col);
        }
    } else {
        assert forall|u: int| 1 <= u <= 40 implies #[trigger] version_capacity(u, col) < length + 1 by {
            lemma_capacity_monotone(u - 1, 39, col);
        }
    }
}

/// A longer bit stream never gets a smaller version.
pub proof fn lemma_min_version_monotone(v1: int, v2: int, len1: int, len2: int, col: int)
    requires
        len1 <= len2,
        selects(v1, len1, col),
        selects(v2, len2, col),
    ensures
        v1 <= v2,
{
    if v2 < v1 {
        assert(version_capacity(v2, col) < len1);
    }
}

/// Among normal versions, a higher error-correction level never holds more.
pub proof fn lemma_capacity_levels(version: int, c1: int, c2: int)
    requires
        1 <= version <= 40,
        0 <= c1 <= c2 < 4,
    ensures
        version_capacity(version, c2) <= version_capacity(version, c1),
{
    let t = DATA_LENGTHS;
    assert(forall|r: int| 0 <= r < 40 ==> #[trigger] t[r][0] >= t[r][1] && t[r][1] >= t[r][2] && t[r][2] >= t[r][3]);
}

/// For one length, a higher error-correction level never gets a smaller
/// version.
pub proof fn lemma_levels_monotone(v1: int, v2: int, length: int, c1: int, c2: int)
    requires
        0 <= c1 <= c2 < 4,
        selects(v1, length, c1),
        selects(v2, length, c2),
    ensures
        v1 <= v2,
{
    lemma_capacity_levels(40, c1, c2);
    if v2 < v1 {
        lemma_capacity_levels(v2, c1, c2);
        assert(version_capacity(v2, c1) < length);
    }
}

} // verus!
