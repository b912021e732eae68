//! A second battery variant: a pack that reports itself through periodic
//! frames alone, each with its own little-endian layout.

use vstd::prelude::*;
use crate::frame::{CanFrame, CanId};
use crate::rapid::ParseError;
use crate::state::{pack_in_range, CanonicalBatteryState, PackReadings, StateError};

verus! {

/// Frame that carries the pack voltage and current.
pub const ID_PACK: u16 = 0x132;

/// Frame that carries, by turns, the cell voltage range and the temperature.
pub const ID_EXTREMES: u16 = 0x332;

/// Frame that carries the cell voltages, three at a time.
pub const ID_CELLS: u16 = 0x401;

/// Frame that carries the energy figures.
pub const ID_ENERGY: u16 = 0x352;

/// Frame that carries the state of the pack's own contactors.
pub const ID_CONTACTORS: u16 = 0x20A;

/// Frame that carries the pack's voltage and current limits.
pub const ID_LIMITS: u16 = 0x2D2;

/// Frame that carries the readings of the pack's converter.
pub const ID_CONVERTER: u16 = 0x2B4;

/// Frame that carries the charge and discharge totals.
pub const ID_TOTALS: u16 = 0x3D2;

/// The marks of the four frames whose values are pushed on: pack, extremes,
/// cells and energy.
pub const SEEN_GROUP: u8 = 15;

/// Raw temperature reading that stands for 0 degrees Celsius.
pub const TEMPERATURE_ZERO_RAW: u8 = 40;

/// Marker, in byte 1 of a cell frame, of a frame that carries voltages.
pub const CELL_VOLTAGES: u8 = 0x2A;

/// Highest group number that a cell frame can carry.
pub const CELL_GROUP_MAX: u8 = 84;

/// What the pack has reported.
#[derive(Debug)]
pub struct Data {
    pub cell_volts: [u16; 96],
    pub cell_bal: [bool; 96],
    pub soc_value: u16,
    /// Raw reading that stands for a current of zero.
    pub current_offset: u16,
    /// Pack current in tenths of an ampere.
    pub current_value: i32,
    pub max_charge_amps: u16,
    pub kwh_remaining: u16,
    pub pack_temp: i16,
    /// Pack voltage in tenths of a volt.
    pub pack_volts: u16,
    pub req_code: u8,
    /// Lowest cell voltage in millivolts.
    pub v_low_cell: u16,
    /// Highest cell voltage in millivolts.
    pub v_high_cell: u16,
    pub soh: u16,
    pub hv_interlock: bool,
    pub temp_min: i16,
    /// Highest temperature in tenths of a degree Celsius.
    pub temp_max: i16,
    pub temp_avg: i16,
}

/// The little-endian 16-bit value of two bytes of a payload.
pub open spec fn le_word(payload: Seq<u8>, at: int) -> int {
    payload[at] + payload[at + 1] * 256
}

/// A 16-bit value read as a signed number in two's complement.
pub open spec fn signed_word(word: int) -> int {
    if word < 32768 {
        word
    } else {
        word - 65536
    }
}

/// The 11-bit field of an energy payload that starts at bit 0: the nominal
/// energy of the full pack, in tenths of a kilowatt-hour.
pub open spec fn nominal_energy_raw(payload: Seq<u8>) -> int {
    (payload[0] + payload[1] * 256) % 2048
}

/// The 11-bit field of an energy payload that starts at bit 22: the energy
/// expected to remain, in tenths of a kilowatt-hour.
pub open spec fn remaining_energy_raw(payload: Seq<u8>) -> int {
    ((payload[2] + payload[3] * 256 + payload[4] * 65536) / 64) % 2048
}

/// What a frame does to the values, leaving the set of frames seen aside.
pub enum Update {
    /// The frame is none that the pack sends.
    Unknown,
    /// The frame is too short for its layout.
    TooShort,
    /// A field is out of range.
    OutOfRange,
    /// The frame is taken and changes no value.
    Unchanged,
    /// Pack voltage and current.
    Pack { volts: u16, current: i32 },
    /// Highest temperature.
    Temperature { temp_max: i16 },
    /// State of charge.
    Charge { soc: u16 },
}

/// What a frame under `raw_id` with `payload` does.
///
/// The pack frame carries the voltage in bytes 0 and 1 and the signed current
/// in bytes 2 and 3. The extremes frame carries in the low two bits of byte
/// 0 what it holds: 0 for the cell voltage range in its first four bytes,
/// 1 for the temperature in byte 2. The energy frame gives the state of
/// charge in percent: a hundred times the remaining energy over the nominal
/// energy, each in whole kilowatt-hours. The four status frames are taken
/// only with eight bytes and change no value.
pub open spec fn update_of(raw_id: u16, payload: Seq<u8>) -> Update {
    if raw_id == ID_PACK {
        if payload.len() < 4 {
            Update::TooShort
        } else {
            Update::Pack {
                volts: le_word(payload, 0) as u16,
                current: signed_word(le_word(payload, 2)) as i32,
            }
        }
    } else if raw_id == ID_EXTREMES {
        if payload.len() < 1 {
            Update::TooShort
        } else if payload[0] % 4 == 0 {
            if payload.len() < 4 {
                Update::TooShort
            } else {
                Update::Unchanged
            }
        } else if payload[0] % 4 == 1 {
            if payload.len() < 3 {
                Update::TooShort
            } else if payload[2] < TEMPERATURE_ZERO_RAW {
                Update::OutOfRange
            } else {
                Update::Temperature { temp_max: ((payload[2] - TEMPERATURE_ZERO_RAW) * 10) as i16 }
            }
        } else {
            Update::Unchanged
        }
    } else if raw_id == ID_CELLS {
        if payload.len() < 2 {
            Update::TooShort
        } else if payload[1] != CELL_VOLTAGES {
            Update::Unchanged
        } else if payload.len() < 8 {
            Update::TooShort
        } else if payload[0] > CELL_GROUP_MAX {
            Update::OutOfRange
        } else {
            Update::Unchanged
        }
    } else if raw_id == ID_ENERGY {
        if payload.len() != 8 {
            Update::TooShort
        } else if nominal_energy_raw(payload) / 10 == 0 {
            Update::OutOfRange
        } else {
            Update::Charge {
                soc: ((remaining_energy_raw(payload) / 10) * 100 / (nominal_energy_raw(payload)
                    / 10)) as u16,
            }
        }
    } else if raw_id == ID_CONTACTORS || raw_id == ID_LIMITS || raw_id == ID_CONVERTER || raw_id
        == ID_TOTALS {
        if payload.len() != 8 {
            Update::TooShort
        } else {
            Update::Unchanged
        }
    } else {
        Update::Unknown
    }
}

/// The mark that a frame leaves in the set of frames seen: one bit for each
/// of the eight frames that the pack sends, none for any other.
pub open spec fn mark_of(raw_id: u16) -> u8 {
    if raw_id == ID_PACK {
        1
    } else if raw_id == ID_EXTREMES {
        2
    } else if raw_id == ID_CELLS {
        4
    } else if raw_id == ID_ENERGY {
        8
    } else if raw_id == ID_CONTACTORS {
        16
    } else if raw_id == ID_LIMITS {
        32
    } else if raw_id == ID_CONVERTER {
        64
    } else if raw_id == ID_TOTALS {
        128
    } else {
        0
    }
}

/// The mark that a frame leaves in the set of frames seen.
pub fn mark(raw_id: u16) -> (bit: u8)
    ensures
        bit == mark_of(raw_id),
{
    if raw_id == ID_PACK {
        1
    } else if raw_id == ID_EXTREMES {
        2
    } else if raw_id == ID_CELLS {
        4
    } else if raw_id == ID_ENERGY {
        8
    } else if raw_id == ID_CONTACTORS {
        16
    } else if raw_id == ID_LIMITS {
        32
    } else if raw_id == ID_CONVERTER {
        64
    } else if raw_id == ID_TOTALS {
        128
    } else {
        0
    }
}

impl Data {
    /// The values before anything was reported: all zero, and request code 1.
    pub open spec fn is_initial(&self) -> bool {
        &&& forall|i: int| 0 <= i < 96 ==> self.cell_volts[i] == 0
        &&& forall|i: int| 0 <= i < 96 ==> !self.cell_bal[i]
        &&& self.soc_value == 0
        &&& self.current_offset == 0
        &&& self.current_value == 0
        &&& self.max_charge_amps == 0
        &&& self.kwh_remaining == 0
        &&& self.pack_temp == 0
        &&& self.pack_volts == 0
        &&& self.req_code == 1
        &&& self.v_low_cell == 0
        &&& self.v_high_cell == 0
        &&& self.soh == 0
        &&& !self.hv_interlock
        &&& self.temp_min == 0
        &&& self.temp_max == 0
        &&& self.temp_avg == 0
    }

    /// The values before anything was reported.
    pub fn new() -> (data: Data)
        ensures
            data.is_initial(),
    {
        Data {
            cell_volts: [0; 96],
            cell_bal: [false; 96],
            soc_value: 0,
            current_offset: 0,
            current_value: 0,
            max_charge_amps: 0,
            kwh_remaining: 0,
            pack_temp: 0,
            pack_volts: 0,
            req_code: 1,
            v_low_cell: 0,
            v_high_cell: 0,
            soh: 0,
            hv_interlock: false,
            temp_min: 0,
            temp_max: 0,
            temp_avg: 0,
        }
    }

    /// What the values give to merge into the battery state.
    pub open spec fn pack_readings(&self) -> PackReadings {
        PackReadings {
            pack_volts_dv: self.pack_volts,
            current_da: self.current_value,
            kwh_remaining_dkwh: self.kwh_remaining,
            soc_percent: self.soc_value,
        }
    }

    /// What the values give to merge into the battery state: voltage,
    /// current, remaining energy and state of charge.
    pub fn readings(&self) -> (pack: PackReadings)
        ensures
            pack == self.pack_readings(),
    {
        PackReadings {
            pack_volts_dv: self.pack_volts,
            current_da: self.current_value,
            kwh_remaining_dkwh: self.kwh_remaining,
            soc_percent: self.soc_value,
        }
    }

    /// Whether `self` is `before` with the values of `update` written in.
    pub open spec fn is_updated(&self, before: Data, update: Update) -> bool {
        &&& self.cell_volts == before.cell_volts
        &&& self.cell_bal == before.cell_bal
        &&& self.current_offset == before.current_offset
        &&& self.max_charge_amps == before.max_charge_amps
        &&& self.kwh_remaining == before.kwh_remaining
        &&& self.pack_temp == before.pack_temp
        &&& self.req_code == before.req_code
        &&& self.v_low_cell == before.v_low_cell
        &&& self.v_high_cell == before.v_high_cell
        &&& self.soh == before.soh
        &&& self.hv_interlock == before.hv_interlock
        &&& self.temp_min == before.temp_min
        &&& self.temp_avg == before.temp_avg
        &&& self.pack_volts == (match update {
            Update::Pack { volts, current } => volts,
            _ => before.pack_volts,
        })
        &&& self.current_value == (match update {
            Update::Pack { volts, current } => current,
            _ => before.current_value,
        })
        &&& self.temp_max == (match update {
            Update::Temperature { temp_max } => temp_max,
            _ => before.temp_max,
        })
        &&& self.soc_value == (match update {
            Update::Charge { soc } => soc,
            _ => before.soc_value,
        })
    }

    /// Writes the values of one frame in. A frame that is not of the group,
    /// is too short or holds a value out of range changes nothing.
    pub fn apply(&mut self, frame: &CanFrame) -> (done: Result<(), ParseError>)
        ensures
            match frame@.id {
                CanId::Extended(_) => done == Err::<(), ParseError>(ParseError::UnknownId)
                    && final(self).is_updated(*old(self), Update::Unknown),
                CanId::Standard(raw_id) => {
                    let update = update_of(raw_id, frame@.payload);
                    &&& final(self).is_updated(*old(self), update)
                    &&& done == (match update {
                        Update::Unknown => Err::<(), ParseError>(ParseError::UnknownId),
                        Update::TooShort => Err::<(), ParseError>(ParseError::TooShort),
                        Update::OutOfRange => Err::<(), ParseError>(ParseError::OutOfRange),
                        _ => Ok::<(), ParseError>(()),
                    })
                },
            },
    {
        let raw_id = match frame.id() {
            CanId::Standard(raw) => raw,
            CanId::Extended(_) => {
                return Err(ParseError::UnknownId);
            },
        };
        let len: usize = frame.len();
        if raw_id == ID_PACK {
            if len < 4 {
                return Err(ParseError::TooShort);
            }
            let volts: u16 = (frame.byte(0) as u16) + (frame.byte(1) as u16) * 256;
            let raw: i32 = (frame.byte(2) as i32) + (frame.byte(3) as i32) * 256;
            let current: i32 = if raw < 32768 {
                raw
            } else {
                raw - 65536
            };
            self.pack_volts = volts;
            self.current_value = current;
            Ok(())
        } else if raw_id == ID_EXTREMES {
            if len < 1 {
                return Err(ParseError::TooShort);
            }
            let kind: u8 = frame.byte(0) % 4;
            if kind == 0 {
                if len < 4 {
                    return Err(ParseError::TooShort);
                }
            } else if kind == 1 {
                if len < 3 {
                    return Err(ParseError::TooShort);
                }
                let raw: u8 = frame.byte(2);
                if raw < TEMPERATURE_ZERO_RAW {
                    return Err(ParseError::OutOfRange);
                }
                self.temp_max = ((raw - TEMPERATURE_ZERO_RAW) as i16) * 10;
            }
            Ok(())
        } else if raw_id == ID_CELLS {
            if len < 2 {
                return Err(ParseError::TooShort);
            }
            if frame.byte(1) == CELL_VOLTAGES {
                if len < 8 {
                    return Err(ParseError::TooShort);
                }
                if frame.byte(0) > CELL_GROUP_MAX {
                    return Err(ParseError::OutOfRange);
                }
            }
            Ok(())
        } else if raw_id == ID_ENERGY {
            if len != 8 {
                return Err(ParseError::TooShort);
            }
            let low: u32 = (frame.byte(0) as u32) + (frame.byte(1) as u32) * 256;
            let high: u32 = (frame.byte(2) as u32) + (frame.byte(3) as u32) * 256 + (frame.byte(
                4,
            ) as u32) * 65536;
            let nominal: u32 = (low % 2048) / 10;
            let remaining: u32 = ((high / 64) % 2048) / 10;
            if nominal == 0 {
                return Err(ParseError::OutOfRange);
            }
            let scaled: u32 = remaining * 100;
            let soc: u32 = scaled / nominal;
            assert(soc <= scaled) by (nonlinear_arith)
                requires
                    soc == scaled / nominal,
                    nominal >= 1,
                    scaled >= 0,
            ;
            self.soc_value = soc as u16;
            Ok(())
        } else if raw_id == ID_CONTACTORS || raw_id == ID_LIMITS || raw_id == ID_CONVERTER || raw_id
            == ID_TOTALS {
            if len != 8 {
                return Err(ParseError::TooShort);
            }
            Ok(())
        } else {
            Err(ParseError::UnknownId)
        }
    }
}

/// The pack's values and the set of frames seen.
#[derive(Debug)]
pub struct Collector {
    pub data: Data,
    /// The marks of the frames seen since the start.
    pub seen: u8,
}

impl Collector {
    /// Whether `self` is `before` after a frame was taken with the result
    /// `done`. A frame that is taken writes its values and leaves its mark,
    /// and the values are to be pushed on while the marks are exactly those
    /// of the pack, extremes, cells and energy frames. A frame that is not
    /// taken changes nothing.
    pub open spec fn is_processed(
        &self,
        before: Collector,
        id: CanId,
        payload: Seq<u8>,
        done: Result<bool, ParseError>,
    ) -> bool {
        match id {
            CanId::Extended(_) => done == Err::<bool, ParseError>(ParseError::UnknownId)
                && self.seen == before.seen && self.data.is_updated(before.data, Update::Unknown),
            CanId::Standard(raw_id) => {
                let update = update_of(raw_id, payload);
                &&& self.data.is_updated(before.data, update)
                &&& match update {
                    Update::Unknown => done == Err::<bool, ParseError>(ParseError::UnknownId)
                        && self.seen == before.seen,
                    Update::TooShort => done == Err::<bool, ParseError>(ParseError::TooShort)
                        && self.seen == before.seen,
                    Update::OutOfRange => done == Err::<bool, ParseError>(ParseError::OutOfRange)
                        && self.seen == before.seen,
                    _ => {
                        &&& self.seen == before.seen | mark_of(raw_id)
                        &&& done == Ok::<bool, ParseError>(self.seen == SEEN_GROUP)
                    },
                }
            },
        }
    }

    /// A collector that has seen nothing.
    pub fn new() -> (collector: Collector)
        ensures
            collector.seen == 0,
            collector.data.is_initial(),
    {
        Collector { data: Data::new(), seen: 0 }
    }

    /// Takes one frame. A frame that is taken leaves its mark, and the call
    /// returns whether the values are to be pushed on: they are while the
    /// marks are exactly those of the pack, extremes, cells and energy
    /// frames. A frame that is not taken changes nothing.
    pub fn process(&mut self, frame: &CanFrame) -> (done: Result<bool, ParseError>)
        ensures
            final(self).is_processed(*old(self), frame@.id, frame@.payload, done),
    {
        match self.data.apply(frame) {
            Err(error) => Err(error),
            Ok(()) => {
                let raw_id = match frame.id() {
                    CanId::Standard(raw) => raw,
                    CanId::Extended(_) => 0,
                };
                self.seen = self.seen | mark(raw_id);
                Ok(self.seen == SEEN_GROUP)
            },
        }
    }

    /// Takes one frame and, where the values are then to be pushed on,
    /// merges them into the battery state at time `now`. Hands back what
    /// `process` gives for the frame, and what became of the merge where
    /// there was one.
    pub fn process_into(
        &mut self,
        state: &mut CanonicalBatteryState,
        frame: &CanFrame,
        now: u64,
    ) -> (outcome: (Result<bool, ParseError>, Option<Result<(), StateError>>))
        ensures
            final(self).is_processed(*old(self), frame@.id, frame@.payload, outcome.0),
            outcome.0 == Ok::<bool, ParseError>(true) ==> {
                let pack = final(self).data.pack_readings();
                &&& pack_in_range(pack) ==> outcome.1.is_some() && outcome.1.unwrap().is_ok()
                    && final(state)@ == old(state)@.with_pack(pack, now)
                &&& !pack_in_range(pack) ==> outcome.1 == Some(
                    Err::<(), StateError>(StateError::OutOfRange),
                ) && final(state)@ == old(state)@.refused()
            },
            outcome.0 != Ok::<bool, ParseError>(true) ==> outcome.1.is_none() && final(state)@
                == old(state)@,
    {
        let done = self.process(frame);
        match done {
            Ok(true) => {
                let pack = self.data.readings();
                let merged = state.commit_pack(&pack, now);
                (done, Some(merged))
            },
            _ => (done, None),
        }
    }
}

} // verus!
