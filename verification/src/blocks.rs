//! Decoding of reassembled diagnostic blocks.

use vstd::prelude::*;
use crate::buffer::{cell_values, cells_new, cells_push};

verus! {

/// Number of cells in the pack.
pub const MAX_CELLS: usize = 96;

/// Offset, in a temperature block, of the first sample.
pub const TEMPERATURE_FIRST_OFFSET: usize = 2;

/// Distance, in a temperature block, from one sample to the next.
pub const TEMPERATURE_STRIDE: usize = 3;

/// Number of samples that a temperature block holds at most.
pub const TEMPERATURE_SAMPLES: usize = 14;

/// Number of cells that one byte of a balance block reports, one bit each.
pub const CELLS_PER_BALANCE_BYTE: usize = 8;

/// The 16-bit value whose high byte is `hi` and whose low byte is `lo`.
pub open spec fn be_word(hi: u8, lo: u8) -> u16 {
    (hi as int * 256 + lo as int) as u16
}

/// The big-endian 16-bit values of a block, one per complete pair of bytes.
pub open spec fn be_words(bytes: Seq<u8>) -> Seq<u16> {
    Seq::new((bytes.len() / 2) as nat, |i: int| be_word(bytes[2 * i], bytes[2 * i + 1]))
}

/// The cells among the words of the cell banks: the first 96.
pub open spec fn cells_of(words: Seq<u16>) -> Seq<u16> {
    if words.len() > MAX_CELLS {
        words.take(MAX_CELLS as int)
    } else {
        words
    }
}

/// The word that follows the cells, where the banks hold one.
pub open spec fn word_after_cells(words: Seq<u16>) -> Option<u16> {
    if words.len() > MAX_CELLS {
        Some(words[MAX_CELLS as int])
    } else {
        None
    }
}

/// Reads the cells of a run of bank bytes: big-endian 16-bit values, one per
/// complete pair of bytes, as many as the pack has cells at most.
pub fn decode_cells(bytes: &[u8]) -> (cells: heapless::Vec<u16, 96>)
    ensures
        cell_values(cells) == cells_of(be_words(bytes@)),
{
    let pairs: usize = bytes.len() / 2;
    let count: usize = if pairs > MAX_CELLS {
        MAX_CELLS
    } else {
        pairs
    };
    let mut cells = cells_new();
    let mut i: usize = 0;
    while i < count
        invariant
            count <= bytes@.len() / 2,
            count <= MAX_CELLS,
            bytes@.len() <= usize::MAX,
            i <= count,
            cell_values(cells) == be_words(bytes@).take(i as int),
        decreases count - i,
    {
        let hi: u8 = bytes[2 * i];
        let lo: u8 = bytes[2 * i + 1];
        let word: u16 = (hi as u16) * 256 + (lo as u16);
        let pushed = cells_push(&mut cells, word);
        assert(be_words(bytes@).take(i + 1) =~= be_words(bytes@).take(i as int).push(word));
        i += 1;
    }
    assert(be_words(bytes@).take(count as int) =~= cells_of(be_words(bytes@)));
    cells
}

/// The words of two runs of bytes, the first of even length, are the words of
/// the first followed by the words of the second.
pub proof fn lemma_words_of_concat(a: Seq<u8>, b: Seq<u8>)
    requires
        a.len() % 2 == 0,
    ensures
        be_words(a + b) == be_words(a) + be_words(b),
{
    let joined = be_words(a + b);
    let apart = be_words(a) + be_words(b);
    assert(joined.len() == apart.len());
    assert forall|i: int| 0 <= i < joined.len() implies joined[i] == apart[i] by {
        if 2 * i < a.len() {
            assert((a + b)[2 * i] == a[2 * i]);
            assert((a + b)[2 * i + 1] == a[2 * i + 1]);
        } else {
            let j = i - a.len() / 2;
            assert((a + b)[2 * i] == b[2 * j]);
            assert((a + b)[2 * i + 1] == b[2 * j + 1]);
            assert(apart[i] == be_words(b)[j]);
        }
    }
    assert(joined =~= apart);
}

/// The words of the first `2 * count` bytes are the first `count` words.
pub proof fn lemma_words_of_prefix(bytes: Seq<u8>, count: int)
    requires
        0 <= count <= bytes.len() / 2,
    ensures
        be_words(bytes.take(2 * count)) == be_words(bytes).take(count),
{
    let short = be_words(bytes.take(2 * count));
    let cut = be_words(bytes).take(count);
    assert(short.len() == cut.len());
    assert forall|i: int| 0 <= i < short.len() implies short[i] == cut[i] by {
        assert(bytes.take(2 * count)[2 * i] == bytes[2 * i]);
        assert(bytes.take(2 * count)[2 * i + 1] == bytes[2 * i + 1]);
    }
    assert(short =~= cut);
}

/// Smallest value of a non-empty sequence of readings, and 0 of an empty one.
pub open spec fn seq_min(values: Seq<u16>) -> u16
    decreases values.len(),
{
    if values.len() == 0 {
        0
    } else if values.len() == 1 {
        values[0]
    } else {
        let rest = seq_min(values.drop_last());
        if values.last() < rest {
            values.last()
        } else {
            rest
        }
    }
}

/// Largest value of a sequence of readings, and 0 of an empty one.
pub open spec fn seq_max(values: Seq<u16>) -> u16
    decreases values.len(),
{
    if values.len() == 0 {
        0
    } else if values.len() == 1 {
        values[0]
    } else {
        let rest = seq_max(values.drop_last());
        if values.last() > rest {
            values.last()
        } else {
            rest
        }
    }
}

/// The smallest reading is one of the readings and none is below it.
pub proof fn lemma_seq_min_is_least(values: Seq<u16>)
    requires
        values.len() > 0,
    ensures
        values.contains(seq_min(values)),
        forall|k: int| 0 <= k < values.len() ==> seq_min(values) <= values[k],
    decreases values.len(),
{
    if values.len() > 1 {
        let front = values.drop_last();
        lemma_seq_min_is_least(front);
        let witness = choose|k: int| 0 <= k < front.len() && front[k] == seq_min(front);
        assert(values[witness] == front[witness]);
        assert forall|k: int| 0 <= k < values.len() implies seq_min(values) <= values[k] by {
            if k < front.len() {
                assert(front[k] == values[k]);
            }
        }
    }
}

/// The largest reading is one of the readings and none is above it.
pub proof fn lemma_seq_max_is_greatest(values: Seq<u16>)
    requires
        values.len() > 0,
    ensures
        values.contains(seq_max(values)),
        forall|k: int| 0 <= k < values.len() ==> seq_max(values) >= values[k],
    decreases values.len(),
{
    if values.len() > 1 {
        let front = values.drop_last();
        lemma_seq_max_is_greatest(front);
        let witness = choose|k: int| 0 <= k < front.len() && front[k] == seq_max(front);
        assert(values[witness] == front[witness]);
        assert forall|k: int| 0 <= k < values.len() implies seq_max(values) >= values[k] by {
            if k < front.len() {
                assert(front[k] == values[k]);
            }
        }
    }
}

/// Smallest and largest of the readings; `(0, 0)` where there is none.
pub fn min_max(values: &[u16]) -> (range: (u16, u16))
    ensures
        range.0 == seq_min(values@),
        range.1 == seq_max(values@),
{
    if values.len() == 0 {
        return (0, 0);
    }
    let mut low: u16 = values[0];
    let mut high: u16 = values[0];
    let mut i: usize = 1;
    while i < values.len()
        invariant
            1 <= i <= values@.len(),
            low == seq_min(values@.take(i as int)),
            high == seq_max(values@.take(i as int)),
        decreases values@.len() - i,
    {
        let v: u16 = values[i];
        assert(values@.take(i + 1).drop_last() =~= values@.take(i as int));
        if v < low {
            low = v;
        }
        if v > high {
            high = v;
        }
        i += 1;
    }
    assert(values@.take(i as int) =~= values@);
    (low, high)
}

/// A byte read as a signed 8-bit number.
pub open spec fn signed_byte(b: u8) -> i8 {
    if b < 128 {
        b as i8
    } else {
        (b - 256) as i8
    }
}

/// Reads a byte as a signed 8-bit number.
pub fn to_signed(b: u8) -> (value: i8)
    ensures
        value == signed_byte(b),
{
    if b < 128 {
        b as i8
    } else {
        (b as i16 - 256) as i8
    }
}

/// Lowest and highest temperature of a pack, in whole degrees Celsius.
#[derive(Clone, Copy, Debug, PartialEq, Eq, Structural)]
pub struct TemperatureRange {
    pub min_c: i8,
    pub max_c: i8,
}

/// Number of samples that a temperature block of `len` bytes holds: one at
/// offset 2 and one every three bytes after it, fourteen at most.
pub open spec fn sample_count(len: nat) -> nat {
    if len / 3 > TEMPERATURE_SAMPLES {
        TEMPERATURE_SAMPLES as nat
    } else {
        len / 3
    }
}

/// Sample number `k` of a temperature block, in degrees Celsius: the signed
/// byte at offset `2 + 3 * k`.
pub open spec fn sample(bytes: Seq<u8>, k: int) -> i8 {
    signed_byte(bytes[TEMPERATURE_FIRST_OFFSET + TEMPERATURE_STRIDE * k])
}

/// The lowest of the first `count` samples, for a `count` of at least 1.
pub open spec fn lowest_sample(bytes: Seq<u8>, count: nat) -> i8
    decreases count,
{
    if count <= 1 {
        sample(bytes, 0)
    } else {
        let rest = lowest_sample(bytes, (count - 1) as nat);
        if sample(bytes, count - 1) < rest {
            sample(bytes, count - 1)
        } else {
            rest
        }
    }
}

/// The highest of the first `count` samples, for a `count` of at least 1.
pub open spec fn highest_sample(bytes: Seq<u8>, count: nat) -> i8
    decreases count,
{
    if count <= 1 {
        sample(bytes, 0)
    } else {
        let rest = highest_sample(bytes, (count - 1) as nat);
        if sample(bytes, count - 1) > rest {
            sample(bytes, count - 1)
        } else {
            rest
        }
    }
}

/// No sample is below the lowest or above the highest.
pub proof fn lemma_samples_within_range(bytes: Seq<u8>, count: nat)
    requires
        count >= 1,
    ensures
        forall|k: int|
            0 <= k < count ==> lowest_sample(bytes, count) <= #[trigger] sample(bytes, k)
                <= highest_sample(bytes, count),
    decreases count,
{
    if count > 1 {
        lemma_samples_within_range(bytes, (count - 1) as nat);
    }
}

/// The temperature range that a block reports: the lowest and the highest of
/// its samples; none where the block holds no sample.
pub open spec fn temperature_range(bytes: Seq<u8>) -> Option<TemperatureRange> {
    if sample_count(bytes.len()) == 0 {
        None
    } else {
        Some(
            TemperatureRange {
                min_c: lowest_sample(bytes, sample_count(bytes.len())),
                max_c: highest_sample(bytes, sample_count(bytes.len())),
            },
        )
    }
}

/// Decodes a temperature block.
pub fn decode_temperatures(bytes: &[u8]) -> (range: Option<TemperatureRange>)
    ensures
        range == temperature_range(bytes@),
        range.is_some() ==> range.unwrap().min_c <= range.unwrap().max_c,
{
    let available: usize = bytes.len() / TEMPERATURE_STRIDE;
    let count: usize = if available > TEMPERATURE_SAMPLES {
        TEMPERATURE_SAMPLES
    } else {
        available
    };
    if count == 0 {
        return None;
    }
    let mut low: i8 = to_signed(bytes[TEMPERATURE_FIRST_OFFSET]);
    let mut high: i8 = low;
    let mut k: usize = 1;
    while k < count
        invariant
            1 <= k <= count,
            count <= TEMPERATURE_SAMPLES,
            count <= bytes@.len() / 3,
            low == lowest_sample(bytes@, k as nat),
            high == highest_sample(bytes@, k as nat),
            low <= high,
        decreases count - k,
    {
        let value: i8 = to_signed(bytes[TEMPERATURE_FIRST_OFFSET + TEMPERATURE_STRIDE * k]);
        if value < low {
            low = value;
        }
        if value > high {
            high = value;
        }
        k += 1;
    }
    Some(TemperatureRange { min_c: low, max_c: high })
}

/// The weight of bit `bit` of a byte.
pub open spec fn bit_weight(bit: int) -> int {
    if bit == 0 {
        1
    } else if bit == 1 {
        2
    } else if bit == 2 {
        4
    } else if bit == 3 {
        8
    } else if bit == 4 {
        16
    } else if bit == 5 {
        32
    } else if bit == 6 {
        64
    } else {
        128
    }
}

/// The value, 0 or 1, of bit `bit` of `b`.
pub open spec fn bit_of(b: u8, bit: int) -> int {
    (b as int / bit_weight(bit)) % 2
}

/// Whether a balance block reports cell `cell` as balancing: the block is a
/// map of one bit for each cell, eight to a byte, lowest bit first, and a
/// clear bit means that the cell is balancing. A cell beyond the block is not
/// reported and does not count.
pub open spec fn cell_balancing(bytes: Seq<u8>, cell: int) -> bool {
    &&& 0 <= cell < MAX_CELLS
    &&& cell / 8 < bytes.len()
    &&& bit_of(bytes[cell / 8], cell % 8) == 0
}

/// Number of balancing cells among the first `cells` cells.
pub open spec fn balancing_below(bytes: Seq<u8>, cells: nat) -> nat
    decreases cells,
{
    if cells == 0 {
        0
    } else {
        balancing_below(bytes, (cells - 1) as nat) + if cell_balancing(bytes, cells - 1) {
            1nat
        } else {
            0nat
        }
    }
}

/// Number of cells that a balance block reports as balancing.
pub open spec fn balancing_count(bytes: Seq<u8>) -> nat {
    balancing_below(bytes, MAX_CELLS as nat)
}

/// Whether the block reports cell `cell` as balancing.
pub fn is_balancing(bytes: &[u8], cell: usize) -> (balancing: bool)
    ensures
        balancing == cell_balancing(bytes@, cell as int),
{
    if cell >= MAX_CELLS || cell / CELLS_PER_BALANCE_BYTE >= bytes.len() {
        return false;
    }
    let b: u8 = bytes[cell / CELLS_PER_BALANCE_BYTE];
    let bit: usize = cell % CELLS_PER_BALANCE_BYTE;
    let weight: u8 = if bit == 0 {
        1
    } else if bit == 1 {
        2
    } else if bit == 2 {
        4
    } else if bit == 3 {
        8
    } else if bit == 4 {
        16
    } else if bit == 5 {
        32
    } else if bit == 6 {
        64
    } else {
        128
    };
    (b / weight) % 2 == 0
}

/// Counts the cells that a balance block reports as balancing.
pub fn count_balancing(bytes: &[u8]) -> (count: u8)
    ensures
        count == balancing_count(bytes@),
        count <= MAX_CELLS,
{
    let mut count: u8 = 0;
    let mut cell: usize = 0;
    while cell < MAX_CELLS
        invariant
            cell <= MAX_CELLS,
            count == balancing_below(bytes@, cell as nat),
            count <= cell,
        decreases MAX_CELLS - cell,
    {
        if is_balancing(bytes, cell) {
            count += 1;
        }
        cell += 1;
    }
    count
}

} // verus!
