//! The keep-alive frames that hold the battery's controller awake: four
//! frames sent at a fixed rate, the first of which follows a flag that the
//! battery's own broadcasts set.

use vstd::prelude::*;
use crate::frame::{CanFrame, CanId, FrameView};

verus! {

/// Time, in milliseconds, between two rounds of keep-alive frames.
pub const KEEPALIVE_PERIOD_MS: u64 = 100;

/// Broadcast whose byte 2 sets the flag.
pub const ID_FLAG_SOURCE: u16 = 0x445;

/// Broadcast whose byte 6 sets the flag.
pub const ID_FLAG_SOURCE_2: u16 = 0x424;

/// The byte value that clears the flag.
pub const FLAG_CLEAR: u8 = 0x55;

/// The byte that the first keep-alive frame carries twice.
pub open spec fn flag_byte(flag: bool) -> u8 {
    if flag {
        0x5Du8
    } else {
        0xB2u8
    }
}

/// The flag after a frame: a frame under one of the two source identifiers
/// that is long enough sets it to whether its byte differs from `0x55`; any
/// other frame leaves it.
pub open spec fn flag_after(flag: bool, frame: FrameView) -> bool {
    if frame.id == CanId::Standard(ID_FLAG_SOURCE) {
        if frame.payload.len() > 2 {
            frame.payload[2] != FLAG_CLEAR
        } else {
            flag
        }
    } else if frame.id == CanId::Standard(ID_FLAG_SOURCE_2) {
        if frame.payload.len() > 6 {
            frame.payload[6] != FLAG_CLEAR
        } else {
            flag
        }
    } else {
        flag
    }
}

/// The four keep-alive frames of one round, in the order in which they are
/// sent.
pub open spec fn keepalive_round(flag: bool) -> Seq<FrameView> {
    seq![
        FrameView {
            id: CanId::Standard(0x423),
            payload: seq![0x03u8, 0x00, 0xFF, 0xFF, flag_byte(flag), 0xE0, flag_byte(flag), 0x00],
        },
        FrameView {
            id: CanId::Standard(0x597),
            payload: seq![0x20u8, 0xE4, 0x03, 0xB1, 0x2F, 0x00, 0x01, 0x4E],
        },
        FrameView {
            id: CanId::Standard(0x426),
            payload: seq![0x00u8, 0x18, 0x02, 0x00, 0x79, 0x18, 0x00],
        },
        FrameView { id: CanId::Standard(0x627), payload: seq![0x00u8, 0x00, 0x00] },
    ]
}

/// Follows the flag through one received frame.
pub fn update_flag(flag: bool, frame: &CanFrame) -> (next: bool)
    ensures
        next == flag_after(flag, frame@),
{
    match frame.id() {
        CanId::Standard(raw) => {
            if raw == ID_FLAG_SOURCE {
                if frame.len() > 2 {
                    frame.byte(2) != FLAG_CLEAR
                } else {
                    flag
                }
            } else if raw == ID_FLAG_SOURCE_2 {
                if frame.len() > 6 {
                    frame.byte(6) != FLAG_CLEAR
                } else {
                    flag
                }
            } else {
                flag
            }
        },
        CanId::Extended(_) => flag,
    }
}

/// The keep-alive frames of one round.
pub fn keepalive_frames(flag: bool) -> (frames: Vec<CanFrame>)
    ensures
        frames@.len() == 4,
        frames@.map_values(|frame: CanFrame| frame@) == keepalive_round(flag),
{
    let marker: u8 = if flag {
        0x5D
    } else {
        0xB2
    };
    let first: [u8; 8] = [0x03, 0x00, 0xFF, 0xFF, marker, 0xE0, marker, 0x00];
    let second: [u8; 8] = [0x20, 0xE4, 0x03, 0xB1, 0x2F, 0x00, 0x01, 0x4E];
    let third: [u8; 7] = [0x00, 0x18, 0x02, 0x00, 0x79, 0x18, 0x00];
    let fourth: [u8; 3] = [0x00, 0x00, 0x00];
    let mut frames: Vec<CanFrame> = Vec::new();
    frames.push(CanFrame::from_slice(CanId::Standard(0x423), first.as_slice()));
    frames.push(CanFrame::from_slice(CanId::Standard(0x597), second.as_slice()));
    frames.push(CanFrame::from_slice(CanId::Standard(0x426), third.as_slice()));
    frames.push(CanFrame::from_slice(CanId::Standard(0x627), fourth.as_slice()));
    frames
}

} // verus!
