//! The fixed-capacity collections: the byte buffer that holds what
//! reassembly has brought together and the bytes of the cell banks, and the
//! list of cell voltages.

use vstd::prelude::*;

verus! {

/// Capacity of a buffer, in bytes.
pub const BUFFER_CAPACITY: usize = 255;

/// `heapless::Vec`, a vector of fixed capacity that lives where its owner
/// lives. Nothing inside it is visible here: what it holds is named by
/// `buffer_bytes`.
#[verifier::external_type_specification]
#[verifier::external_body]
#[verifier::reject_recursive_types(T)]
pub struct ExFixedVec<T, const N: usize>(heapless::Vec<T, N>);

/// The bytes that a buffer holds, oldest first.
pub uninterp spec fn buffer_bytes(buffer: heapless::Vec<u8, 255>) -> Seq<u8>;

/// `heapless::Vec::new`: a buffer that holds nothing.
#[verifier::external_body]
pub(crate) fn buffer_new() -> (buffer: heapless::Vec<u8, 255>)
    ensures
        buffer_bytes(buffer) == Seq::<u8>::empty(),
{
    heapless::Vec::new()
}

/// `heapless::Vec::extend_from_slice`: where the bytes fit within the
/// capacity they are appended in order; where they do not, nothing changes
/// and the call reports an error.
#[verifier::external_body]
pub(crate) fn buffer_extend(buffer: &mut heapless::Vec<u8, 255>, bytes: &[u8]) -> (appended: bool)
    ensures
        appended == (buffer_bytes(*old(buffer)).len() + bytes@.len() <= BUFFER_CAPACITY),
        appended ==> buffer_bytes(*final(buffer)) == buffer_bytes(*old(buffer)) + bytes@,
        !appended ==> buffer_bytes(*final(buffer)) == buffer_bytes(*old(buffer)),
{
    buffer.extend_from_slice(bytes).is_ok()
}

/// `heapless::Vec::as_slice`: the bytes held, as a slice.
#[verifier::external_body]
pub(crate) fn buffer_as_slice(buffer: &heapless::Vec<u8, 255>) -> (bytes: &[u8])
    ensures
        bytes@ == buffer_bytes(*buffer),
{
    buffer.as_slice()
}

/// The cell voltages that a cell list holds, first cell first.
pub uninterp spec fn cell_values(cells: heapless::Vec<u16, 96>) -> Seq<u16>;

/// `heapless::Vec::new`, for a list of cell voltages: a list that holds
/// nothing.
#[verifier::external_body]
pub(crate) fn cells_new() -> (cells: heapless::Vec<u16, 96>)
    ensures
        cell_values(cells) == Seq::<u16>::empty(),
{
    heapless::Vec::new()
}

/// `heapless::Vec::push`: where the list holds fewer than its capacity of 96
/// the value is appended; where it is full nothing changes and the call
/// hands the value back.
#[verifier::external_body]
pub(crate) fn cells_push(cells: &mut heapless::Vec<u16, 96>, value: u16) -> (pushed: bool)
    ensures
        pushed == (cell_values(*old(cells)).len() < 96),
        pushed ==> cell_values(*final(cells)) == cell_values(*old(cells)).push(value),
        !pushed ==> cell_values(*final(cells)) == cell_values(*old(cells)),
{
    cells.push(value).is_ok()
}

/// `heapless::Vec::as_slice`, for a list of cell voltages: the values held,
/// as a slice.
#[verifier::external_body]
pub(crate) fn cells_as_slice(cells: &heapless::Vec<u16, 96>) -> (values: &[u16])
    ensures
        values@ == cell_values(*cells),
{
    cells.as_slice()
}

} // verus!
