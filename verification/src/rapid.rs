//! The rapid processor: decoding of the battery's periodic single-frame
//! broadcasts.

use vstd::prelude::*;
use crate::frame::{CanFrame, CanId, FrameView};

verus! {

/// Broadcast that carries the charge limit, the pack current and the state of
/// charge.
pub const ID_PACK_STATUS: u16 = 0x155;

/// Broadcast that carries the pack temperature.
pub const ID_PACK_TEMPERATURE: u16 = 0x424;

/// Broadcast that carries the remaining energy.
pub const ID_PACK_ENERGY: u16 = 0x425;

/// Broadcast that closes a group.
pub const ID_GROUP_END: u16 = 0x4AE;

/// Raw current reading that stands for 0 A.
pub const CURRENT_ZERO_RAW: i32 = 2000;

/// Milliamperes per step of the raw current reading.
pub const CURRENT_STEP_MA: i32 = 250;

/// Raw state-of-charge steps per percent.
pub const SOC_STEPS_PER_PERCENT: u16 = 400;

/// Raw temperature reading that stands for 0 degrees Celsius.
pub const TEMPERATURE_ZERO_RAW: i16 = 40;

/// Why a broadcast frame was dropped.
#[derive(Clone, Copy, Debug, PartialEq, Eq, Structural)]
pub enum ParseError {
    /// The identifier is not one of the rapid broadcasts.
    UnknownId,
    /// The payload is shorter than the layout of its identifier.
    TooShort,
    /// A field holds a value outside its range.
    OutOfRange,
}

/// The values that the rapid broadcasts carry.
#[derive(Clone, Copy, Debug, PartialEq, Eq, Structural)]
pub struct RapidGroup {
    /// Charge current limit in tenths of an ampere.
    pub charge_limit_da: u16,
    /// Pack current in milliamperes, positive while the pack delivers.
    pub current_ma: i32,
    /// State of charge in whole percent.
    pub soc_percent: u8,
    /// Pack temperature in tenths of a degree Celsius.
    pub pack_temp_dc: i16,
    /// Remaining energy in hundredths of a kilowatt-hour.
    pub kwh_remaining_x100: u16,
}

/// The rapid processor: the latest value of each field and which broadcasts
/// were seen since the last complete group.
#[derive(Clone, Copy, Debug, PartialEq, Eq, Structural)]
pub struct RapidProcessor {
    pub group: RapidGroup,
    pub seen_status: bool,
    pub seen_temperature: bool,
    pub seen_energy: bool,
    pub seen_end: bool,
}

/// The 12-bit raw current of a pack-status payload: the low nibble of byte 1
/// above byte 2.
pub open spec fn raw_current(payload: Seq<u8>) -> int {
    (payload[1] % 16) * 256 + payload[2]
}

/// The raw state of charge of a pack-status payload: bytes 4 and 5, high
/// byte first.
pub open spec fn raw_soc(payload: Seq<u8>) -> int {
    payload[4] * 256 + payload[5]
}

/// The 9-bit raw energy of a pack-energy payload, in tenths of a
/// kilowatt-hour: the lowest bit of byte 0 above byte 1.
pub open spec fn raw_energy(payload: Seq<u8>) -> int {
    (payload[0] % 2) * 256 + payload[1]
}

/// The group after a payload under `raw_id` was decoded into it, or why the
/// frame is dropped.
pub open spec fn decoded(group: RapidGroup, raw_id: u16, payload: Seq<u8>) -> Result<
    RapidGroup,
    ParseError,
> {
    if raw_id == ID_PACK_STATUS {
        if payload.len() < 6 {
            Err(ParseError::TooShort)
        } else if raw_soc(payload) > 100 * SOC_STEPS_PER_PERCENT {
            Err(ParseError::OutOfRange)
        } else {
            Ok(
                RapidGroup {
                    charge_limit_da: (payload[0] * 10) as u16,
                    current_ma: ((raw_current(payload) - CURRENT_ZERO_RAW) * CURRENT_STEP_MA) as i32,
                    soc_percent: (raw_soc(payload) / SOC_STEPS_PER_PERCENT as int) as u8,
                    ..group
                },
            )
        }
    } else if raw_id == ID_PACK_TEMPERATURE {
        if payload.len() < 5 {
            Err(ParseError::TooShort)
        } else {
            Ok(
                RapidGroup {
                    pack_temp_dc: ((payload[4] - TEMPERATURE_ZERO_RAW) * 10) as i16,
                    ..group
                },
            )
        }
    } else if raw_id == ID_PACK_ENERGY {
        if payload.len() < 2 {
            Err(ParseError::TooShort)
        } else {
            Ok(RapidGroup { kwh_remaining_x100: (raw_energy(payload) * 10) as u16, ..group })
        }
    } else if raw_id == ID_GROUP_END {
        Ok(group)
    } else {
        Err(ParseError::UnknownId)
    }
}

impl RapidProcessor {
    /// Every broadcast of the group was seen.
    pub open spec fn all_seen(self) -> bool {
        self.seen_status && self.seen_temperature && self.seen_energy && self.seen_end
    }

    /// The processor with the broadcast under `raw_id` marked as seen.
    pub open spec fn marked(self, raw_id: u16) -> RapidProcessor {
        RapidProcessor {
            seen_status: self.seen_status || raw_id == ID_PACK_STATUS,
            seen_temperature: self.seen_temperature || raw_id == ID_PACK_TEMPERATURE,
            seen_energy: self.seen_energy || raw_id == ID_PACK_ENERGY,
            seen_end: self.seen_end || raw_id == ID_GROUP_END,
            ..self
        }
    }

    /// The processor with no broadcast marked as seen.
    pub open spec fn unmarked(self) -> RapidProcessor {
        RapidProcessor {
            seen_status: false,
            seen_temperature: false,
            seen_energy: false,
            seen_end: false,
            ..self
        }
    }

    /// The processor after a frame, and what `process` returns for it. A
    /// frame that cannot be decoded changes nothing. A decoded frame updates
    /// its fields and is marked; the frame that leaves every broadcast marked
    /// completes the group, and the marks are cleared.
    pub open spec fn after(self, frame: FrameView) -> (RapidProcessor, Result<bool, ParseError>) {
        match frame.id {
            CanId::Extended(_) => (self, Err(ParseError::UnknownId)),
            CanId::Standard(raw_id) => match decoded(self.group, raw_id, frame.payload) {
                Err(error) => (self, Err(error)),
                Ok(group) => {
                    let updated = RapidProcessor { group, ..self }.marked(raw_id);
                    if updated.all_seen() {
                        (updated.unmarked(), Ok(true))
                    } else {
                        (updated, Ok(false))
                    }
                },
            },
        }
    }

    /// The processor that has seen nothing; every field reads zero.
    pub open spec fn initial() -> RapidProcessor {
        RapidProcessor {
            group: RapidGroup {
                charge_limit_da: 0,
                current_ma: 0,
                soc_percent: 0,
                pack_temp_dc: 0,
                kwh_remaining_x100: 0,
            },
            seen_status: false,
            seen_temperature: false,
            seen_energy: false,
            seen_end: false,
        }
    }

    /// A processor that has seen nothing; every field reads zero.
    pub fn new() -> (processor: RapidProcessor)
        ensures
            processor == RapidProcessor::initial(),
    {
        RapidProcessor {
            group: RapidGroup {
                charge_limit_da: 0,
                current_ma: 0,
                soc_percent: 0,
                pack_temp_dc: 0,
                kwh_remaining_x100: 0,
            },
            seen_status: false,
            seen_temperature: false,
            seen_energy: false,
            seen_end: false,
        }
    }

    /// Decodes one broadcast frame. Returns whether the frame completed a
    /// group that is ready to be pushed to the battery state.
    pub fn process(&mut self, frame: &CanFrame) -> (done: Result<bool, ParseError>)
        ensures
            (*final(self), done) == old(self).after(frame@),
    {
        let raw_id = match frame.id() {
            CanId::Standard(raw) => raw,
            CanId::Extended(_) => {
                return Err(ParseError::UnknownId);
            },
        };
        let group = match decode(&self.group, raw_id, frame) {
            Ok(group) => group,
            Err(error) => {
                return Err(error);
            },
        };
        self.group = group;
        if raw_id == ID_PACK_STATUS {
            self.seen_status = true;
        } else if raw_id == ID_PACK_TEMPERATURE {
            self.seen_temperature = true;
        } else if raw_id == ID_PACK_ENERGY {
            self.seen_energy = true;
        } else {
            self.seen_end = true;
        }
        if self.seen_status && self.seen_temperature && self.seen_energy && self.seen_end {
            self.seen_status = false;
            self.seen_temperature = false;
            self.seen_energy = false;
            self.seen_end = false;
            Ok(true)
        } else {
            Ok(false)
        }
    }
}

/// Decodes the payload of `frame` under `raw_id` into a copy of `group`.
pub fn decode(group: &RapidGroup, raw_id: u16, frame: &CanFrame) -> (updated: Result<
    RapidGroup,
    ParseError,
>)
    ensures
        updated == decoded(*group, raw_id, frame@.payload),
{
    let len: usize = frame.len();
    let mut out: RapidGroup = *group;
    if raw_id == ID_PACK_STATUS {
        if len < 6 {
            return Err(ParseError::TooShort);
        }
        let soc: u16 = (frame.byte(4) as u16) * 256 + (frame.byte(5) as u16);
        if soc > 100 * SOC_STEPS_PER_PERCENT {
            return Err(ParseError::OutOfRange);
        }
        let current: i32 = ((frame.byte(1) % 16) as i32) * 256 + (frame.byte(2) as i32);
        out.charge_limit_da = (frame.byte(0) as u16) * 10;
        out.current_ma = (current - CURRENT_ZERO_RAW) * CURRENT_STEP_MA;
        out.soc_percent = (soc / SOC_STEPS_PER_PERCENT) as u8;
        Ok(out)
    } else if raw_id == ID_PACK_TEMPERATURE {
        if len < 5 {
            return Err(ParseError::TooShort);
        }
        out.pack_temp_dc = ((frame.byte(4) as i16) - TEMPERATURE_ZERO_RAW) * 10;
        Ok(out)
    } else if raw_id == ID_PACK_ENERGY {
        if len < 2 {
            return Err(ParseError::TooShort);
        }
        let energy: u16 = ((frame.byte(0) % 2) as u16) * 256 + (frame.byte(1) as u16);
        out.kwh_remaining_x100 = energy * 10;
        Ok(out)
    } else if raw_id == ID_GROUP_END {
        Ok(out)
    } else {
        Err(ParseError::UnknownId)
    }
}

} // verus!
