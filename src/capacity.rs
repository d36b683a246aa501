//! Maximum number of data bits per (version, error-correction level).
use vstd::prelude::*;

verus! {

/// Number of rows in the table: forty normal versions, then four micro versions.
pub const TABLE_ROWS: usize = 44;

/// Number of normal (non-micro) versions.
pub const NORMAL_VERSIONS: usize = 40;

/// Data-bit capacity of each version (rows) at each error-correction level
/// (columns, in the order L, M, Q, H). Rows 0..40 are normal versions 1..=40;
/// rows 40..44 are micro versions 1..=4, where 0 marks an unusable pair.
pub const DATA_LENGTHS: [[usize; 4]; 44] = [
    [152, 128, 104, 72],
    [272, 224, 176, 128],
    [440, 352, 272, 208],
    [640, 512, 384, 288],
    [864, 688, 496, 368],
    [1088, 864, 608, 480],
    [1248, 992, 704, 528],
    [1552, 1232, 880, 688],
    [1856, 1456, 1056, 800],
    [2192, 1728, 1232, 976],
    [2592, 2032, 1440, 1120],
    [2960, 2320, 1648, 1264],
    [3424, 2672, 1952, 1440],
    [3688, 2920, 2088, 1576],
    [4184, 3320, 2360, 1784],
    [4712, 3624, 2600, 2024],
    [5176, 4056, 2936, 2264],
    [5768, 4504, 3176, 2504],
    [6360, 5016, 3560, 2728],
    [6888, 5352, 3880, 3080],
    [7456, 5712, 4096, 3248],
    [8048, 6256, 4544, 3536],
    [8752, 6880, 4912, 3712],
    [9392, 7312, 5312, 4112],
    [10208, 8000, 5744, 4304],
    [10960, 8496, 6032, 4768],
    [11744, 9024, 6464, 5024],
    [12248, 9544, 6968, 5288],
    [13048, 10136, 7288, 5608],
    [13880, 10984, 7880, 5960],
    [14744, 11640, 8264, 6344],
    [15640, 12328, 8920, 6760],
    [16568, 13048, 9368, 7208],
    [17528, 13800, 9848, 7688],
    [18448, 14496, 10288, 7888],
    [19472, 15312, 10832, 8432],
    [20528, 15936, 11408, 8768],
    [21616, 16816, 12016, 9136],
    [22496, 17728, 12656, 9776],
    [23648, 18672, 13328, 10208],
    [20, 0, 0, 0],
    [40, 32, 0, 0],
    [84, 68, 0, 0],
    [128, 112, 80, 0],
];

/// The capacity, in bits, of table row `row` at level column `col`.
pub open spec fn capacity(row: int, col: int) -> int
    recommends
        0 <= row < TABLE_ROWS,
        0 <= col < 4,
{
    DATA_LENGTHS[row][col] as int
}

/// The capacity of normal version `version` (1..=40) at level column `col`.
pub open spec fn version_capacity(version: int, col: int) -> int {
    capacity(version - 1, col)
}

/// Reads one cell of the table.
pub fn data_length(row: usize, col: usize) -> (r: usize)
    requires
        row < TABLE_ROWS,
        col < 4,
    ensures
        r == capacity(row as int, col as int),
{
    DATA_LENGTHS[row][col]
}

/// Among the normal versions, capacity never decreases as the version grows.
pub proof fn lemma_capacity_monotone(i: int, j: int, col: int)
    requires
        0 <= i <= j < NORMAL_VERSIONS,
        0 <= col < 4,
    ensures
        capacity(i, col) <= capacity(j, col),
    decreases j - i,
{
    if i < j {
        lemma_capacity_monotone(i, j - 1, col);
        lemma_capacity_step(j - 1, col);
    }
}

/// Adjacent normal versions: the larger one holds strictly more bits.
pub proof fn lemma_capacity_step(i: int, col: int)
    requires
        0 <= i < NORMAL_VERSIONS - 1,
        0 <= col < 4,
    ensures
        capacity(i, col) < capacity(i + 1, col),
{
    let t = DATA_LENGTHS;
    assert(forall|r: int, c: int|
        0 <= r < 39 && 0 <= c < 4 ==> #[trigger] t[r][c] < t[r + 1][c]);
}

} // verus!
