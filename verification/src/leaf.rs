//! A third battery variant: a pack whose current comes in a broadcast of its
//! own, whose first block carries the accessory voltage and the state of
//! charge, and which is left alone for minutes at a time once it rests.

use vstd::prelude::*;
use crate::blocks::{
    bit_of, cells_of, be_words, decode_cells, lemma_seq_max_is_greatest, lemma_seq_min_is_least,
    min_max, seq_max, seq_min, signed_byte, to_signed, MAX_CELLS,
};
use crate::buffer::{cell_values, cells_as_slice};
use crate::diag::{request_for_block, request_payload, REQUEST_ID};
use crate::frame::{CanFrame, CanId, FrameView};

verus! {

/// Broadcast that carries the pack current.
pub const ID_CURRENT: u16 = 0x1DB;

/// First byte of the frame, in an answer to the first block, that carries
/// the accessory voltage.
pub const FRAME_ACCESSORY: u8 = 0x23;

/// First byte of the frame, in an answer to the first block, that carries
/// the state of charge.
pub const FRAME_CHARGE: u8 = 0x24;

/// Minutes for which a pack at rest is left alone.
pub const REST_MINUTES: u16 = 15;

/// Minutes for which a pack at rest is left alone while the accessory
/// voltage is low.
pub const LOW_VOLTAGE_REST_MINUTES: u16 = 60;

/// Accessory voltage, in 1024ths of a volt, below which the rest is longer:
/// twelve volts.
pub const ACCESSORY_LOW_RAW: u16 = 12288;

/// The pack current of a current payload, in half amperes: the eleven bits
/// that are byte 0 above the top three bits of byte 1, read as a signed
/// number in two's complement.
pub open spec fn half_amps(payload: Seq<u8>) -> int {
    let raw = payload[0] * 8 + payload[1] / 32;
    if raw >= 1024 {
        raw - 2048
    } else {
        raw
    }
}

/// The pack current that a frame carries, if it is the current broadcast and
/// holds its two bytes.
pub open spec fn current_of(frame: FrameView) -> Option<i16> {
    if frame.id == CanId::Standard(ID_CURRENT) && frame.payload.len() >= 2 {
        Some(half_amps(frame.payload) as i16)
    } else {
        None
    }
}

/// Reads the pack current, in half amperes, from the current broadcast.
pub fn pack_current(frame: &CanFrame) -> (current: Option<i16>)
    ensures
        current == current_of(frame@),
        current.is_some() ==> -1024 <= current.unwrap() < 1024,
{
    let is_current = match frame.id() {
        CanId::Standard(raw) => raw == ID_CURRENT,
        CanId::Extended(_) => false,
    };
    if !is_current || frame.len() < 2 {
        return None;
    }
    let raw: i16 = (frame.byte(0) as i16) * 8 + (frame.byte(1) / 32) as i16;
    if raw >= 1024 {
        Some(raw - 2048)
    } else {
        Some(raw)
    }
}

/// What a frame of the first block's answer carries.
#[derive(Clone, Copy, Debug, PartialEq, Eq, Structural)]
pub enum GroupReading {
    /// The accessory voltage in 1024ths of a volt.
    Accessory(u16),
    /// The state of charge in 10000ths of a percent.
    Charge(u32),
}

/// What a payload of the first block's answer carries: the accessory voltage
/// in bytes 3 and 4 of the frame that starts with `0x23`, the state of
/// charge in bytes 4 to 7 of the frame that starts with `0x24`, both high
/// byte first, and nothing in any other frame.
pub open spec fn group_reading_of(payload: Seq<u8>) -> Option<GroupReading> {
    if payload.len() >= 5 && payload[0] == FRAME_ACCESSORY {
        Some(GroupReading::Accessory((payload[3] * 256 + payload[4]) as u16))
    } else if payload.len() >= 8 && payload[0] == FRAME_CHARGE {
        Some(
            GroupReading::Charge(
                (payload[4] * 16777216 + payload[5] * 65536 + payload[6] * 256 + payload[7]) as u32,
            ),
        )
    } else {
        None
    }
}

/// Reads what a frame of the first block's answer carries.
pub fn group_reading(frame: &CanFrame) -> (reading: Option<GroupReading>)
    ensures
        reading == group_reading_of(frame@.payload),
{
    let len: usize = frame.len();
    if len >= 5 && frame.byte(0) == FRAME_ACCESSORY {
        Some(GroupReading::Accessory((frame.byte(3) as u16) * 256 + (frame.byte(4) as u16)))
    } else if len >= 8 && frame.byte(0) == FRAME_CHARGE {
        Some(
            GroupReading::Charge(
                (frame.byte(4) as u32) * 16777216 + (frame.byte(5) as u32) * 65536 + (frame.byte(
                    6,
                ) as u32) * 256 + (frame.byte(7) as u32),
            ),
        )
    } else {
        None
    }
}

/// What the gateway knows of the pack when a read cycle ends.
#[derive(Clone, Copy, Debug, PartialEq, Eq, Structural)]
pub struct Activity {
    /// Pack current in half amperes.
    pub current_half_amps: i16,
    /// State of charge in 10000ths of a percent.
    pub soc_raw: u32,
    /// Accessory voltage in 1024ths of a volt.
    pub accessory_raw: u16,
    /// Highest cell voltage in millivolts.
    pub cell_mv_high: u16,
    /// Pack voltage in whole volts.
    pub pack_volts: u16,
}

/// What to do when a read cycle ends.
#[derive(Clone, Copy, Debug, PartialEq, Eq, Structural)]
pub enum Rest {
    /// Go on reading at once.
    KeepPolling,
    /// Leave the pack alone for so many minutes, then drop what has queued
    /// up and go on reading.
    Sleep(u16),
}

/// What to do when a read cycle ends: go on reading while current flows or
/// while one of the readings is still missing; else rest, and rest longer
/// while the accessory voltage is below twelve volts.
pub open spec fn rest_for(activity: Activity) -> Rest {
    if activity.current_half_amps != 0 {
        Rest::KeepPolling
    } else if activity.soc_raw == 0 || activity.accessory_raw == 0 || activity.cell_mv_high == 0
        || activity.pack_volts == 0 {
        Rest::KeepPolling
    } else if activity.accessory_raw < ACCESSORY_LOW_RAW {
        Rest::Sleep(LOW_VOLTAGE_REST_MINUTES)
    } else {
        Rest::Sleep(REST_MINUTES)
    }
}

/// Decides what to do when a read cycle ends.
pub fn rest_decision(activity: &Activity) -> (rest: Rest)
    ensures
        rest == rest_for(*activity),
{
    if activity.current_half_amps != 0 {
        Rest::KeepPolling
    } else if activity.soc_raw == 0 || activity.accessory_raw == 0 || activity.cell_mv_high == 0
        || activity.pack_volts == 0 {
        Rest::KeepPolling
    } else if activity.accessory_raw < ACCESSORY_LOW_RAW {
        Rest::Sleep(LOW_VOLTAGE_REST_MINUTES)
    } else {
        Rest::Sleep(REST_MINUTES)
    }
}

/// What this variant's sequencer is asking the battery for.
#[derive(Clone, Copy, Debug, PartialEq, Eq, Structural)]
pub enum LeafMode {
    Group1,
    CellPairs,
    Temps,
    Bal,
    Sleep,
}

/// Length at which a cell-pair block is decoded.
pub const CELL_PAIRS_LEN: usize = 200;

/// Length at which a temperature block is decoded.
pub const TEMPS_LEN: usize = 18;

/// Length at which a balance block is decoded.
pub const BAL_LEN: usize = 25;

impl LeafMode {
    /// The mode that follows in the read cycle.
    pub open spec fn spec_next(self) -> LeafMode {
        match self {
            LeafMode::Group1 => LeafMode::CellPairs,
            LeafMode::CellPairs => LeafMode::Temps,
            LeafMode::Temps => LeafMode::Bal,
            LeafMode::Bal => LeafMode::Sleep,
            LeafMode::Sleep => LeafMode::Group1,
        }
    }

    /// The block number that a request in this mode names.
    pub open spec fn spec_block(self) -> Option<u8> {
        match self {
            LeafMode::Group1 => Some(1u8),
            LeafMode::CellPairs => Some(2u8),
            LeafMode::Temps => Some(4u8),
            LeafMode::Bal => Some(6u8),
            LeafMode::Sleep => None,
        }
    }

    /// The mode that follows in the read cycle.
    pub fn next(self) -> (following: LeafMode)
        ensures
            following == self.spec_next(),
    {
        match self {
            LeafMode::Group1 => LeafMode::CellPairs,
            LeafMode::CellPairs => LeafMode::Temps,
            LeafMode::Temps => LeafMode::Bal,
            LeafMode::Bal => LeafMode::Sleep,
            LeafMode::Sleep => LeafMode::Group1,
        }
    }

    /// The block number that a request in this mode names; none while the
    /// pack is left alone.
    pub fn block(self) -> (number: Option<u8>)
        ensures
            number == self.spec_block(),
    {
        match self {
            LeafMode::Group1 => Some(1u8),
            LeafMode::CellPairs => Some(2u8),
            LeafMode::Temps => Some(4u8),
            LeafMode::Bal => Some(6u8),
            LeafMode::Sleep => None,
        }
    }

    /// The frame that asks the battery for the block of this mode.
    pub fn request(self) -> (frame: Option<CanFrame>)
        ensures
            match self.spec_block() {
                Some(block) => frame.is_some() && frame.unwrap()@ == (FrameView {
                    id: CanId::Standard(REQUEST_ID),
                    payload: request_payload(block),
                }),
                None => frame.is_none(),
            },
    {
        match self.block() {
            Some(block) => Some(request_for_block(block)),
            None => None,
        }
    }
}

/// What a cell-pair block gives.
#[derive(Clone, Copy, Debug, PartialEq, Eq, Structural)]
pub struct CellPairs {
    /// Highest cell voltage in millivolts.
    pub cell_mv_high: u16,
    /// Lowest cell voltage in millivolts.
    pub cell_mv_low: u16,
    /// Pack voltage in whole volts.
    pub pack_volts: u16,
}

/// What a cell-pair block of 200 bytes gives: the highest and the lowest of
/// its 96 cells, big-endian millivolts, and the pack voltage, the word that
/// follows them in hundredths of a volt, in whole volts. Nothing at any
/// other length.
pub open spec fn cell_pairs_of(bytes: Seq<u8>) -> Option<CellPairs> {
    if bytes.len() == CELL_PAIRS_LEN {
        Some(
            CellPairs {
                cell_mv_high: seq_max(cells_of(be_words(bytes))),
                cell_mv_low: seq_min(cells_of(be_words(bytes))),
                pack_volts: (be_words(bytes)[MAX_CELLS as int] / 100) as u16,
            },
        )
    } else {
        None
    }
}

/// Decodes a cell-pair block.
pub fn cell_pairs(bytes: &[u8]) -> (pairs: Option<CellPairs>)
    ensures
        pairs == cell_pairs_of(bytes@),
        pairs.is_some() ==> pairs.unwrap().cell_mv_low <= pairs.unwrap().cell_mv_high,
{
    if bytes.len() != CELL_PAIRS_LEN {
        return None;
    }
    let cells = decode_cells(bytes);
    let range = min_max(cells_as_slice(&cells));
    proof {
        lemma_seq_min_is_least(cell_values(cells));
        lemma_seq_max_is_greatest(cell_values(cells));
    }
    let word: u16 = (bytes[2 * MAX_CELLS] as u16) * 256 + (bytes[2 * MAX_CELLS + 1] as u16);
    Some(CellPairs { cell_mv_high: range.1, cell_mv_low: range.0, pack_volts: word / 100 })
}

/// What a temperature block gives, in degrees Celsius.
#[derive(Clone, Copy, Debug, PartialEq, Eq, Structural)]
pub struct CellTemperatures {
    pub high_c: i8,
    pub low_c: i8,
}

/// What a temperature block of 18 bytes gives: the signed byte at offset 2
/// as the highest and that at offset 5 as the lowest temperature. Nothing at
/// any other length.
pub open spec fn temperatures_of(bytes: Seq<u8>) -> Option<CellTemperatures> {
    if bytes.len() == TEMPS_LEN {
        Some(CellTemperatures { high_c: signed_byte(bytes[2]), low_c: signed_byte(bytes[5]) })
    } else {
        None
    }
}

/// Decodes a temperature block.
pub fn temperatures(bytes: &[u8]) -> (temps: Option<CellTemperatures>)
    ensures
        temps == temperatures_of(bytes@),
{
    if bytes.len() != TEMPS_LEN {
        return None;
    }
    Some(CellTemperatures { high_c: to_signed(bytes[2]), low_c: to_signed(bytes[5]) })
}

/// Whether a balance block reports cell `cell` as balancing: each byte
/// carries four cells in its low bits, lowest bit first, and a clear bit
/// means that the cell is balancing.
pub open spec fn shunt_open(bytes: Seq<u8>, cell: int) -> bool {
    &&& 0 <= cell < MAX_CELLS
    &&& cell / 4 < bytes.len()
    &&& bit_of(bytes[cell / 4], cell % 4) == 0
}

/// Number of balancing cells among the first `cells` cells.
pub open spec fn shunts_below(bytes: Seq<u8>, cells: nat) -> nat
    decreases cells,
{
    if cells == 0 {
        0
    } else {
        shunts_below(bytes, (cells - 1) as nat) + if shunt_open(bytes, cells - 1) {
            1nat
        } else {
            0nat
        }
    }
}

/// What a balance block of 25 bytes gives: the number of its 96 cells that
/// are balancing. Nothing at any other length.
pub open spec fn balancing_of(bytes: Seq<u8>) -> Option<u8> {
    if bytes.len() == BAL_LEN {
        Some(shunts_below(bytes, MAX_CELLS as nat) as u8)
    } else {
        None
    }
}

/// Decodes a balance block.
pub fn balancing(bytes: &[u8]) -> (count: Option<u8>)
    ensures
        count == balancing_of(bytes@),
        count.is_some() ==> count.unwrap() <= MAX_CELLS,
{
    if bytes.len() != BAL_LEN {
        return None;
    }
    let mut count: u8 = 0;
    let mut cell: usize = 0;
    while cell < MAX_CELLS
        invariant
            cell <= MAX_CELLS,
            bytes@.len() == BAL_LEN,
            count == shunts_below(bytes@, cell as nat),
            count <= cell,
        decreases MAX_CELLS - cell,
    {
        let b: u8 = bytes[cell / 4];
        let bit: usize = cell % 4;
        let weight: u8 = if bit == 0 {
            1
        } else if bit == 1 {
            2
        } else if bit == 2 {
            4
        } else {
            8
        };
        if (b / weight) % 2 == 0 {
            count += 1;
        }
        cell += 1;
    }
    Some(count)
}

} // verus!
