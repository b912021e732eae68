//! The inverter encoder: the frame set that tells the inverter of the pack.

use vstd::prelude::*;
use crate::frame::{CanFrame, CanId, FrameView};
use crate::state::{CanonicalBatteryState, StateView};

verus! {

/// Identifier under which the inverter asks for the pack's data.
pub const ID_DATA_REQUEST: u32 = 0x1871;

/// Identifier of the frame that carries the voltage and current limits.
pub const ID_LIMITS: u32 = 0x1872;

/// Identifier of the frame that carries voltage, current, charge and energy.
pub const ID_PACK_DATA: u32 = 0x1873;

/// Identifier of the frame that carries the cell temperature and voltage
/// ranges.
pub const ID_CELL_DATA: u32 = 0x1874;

/// Identifier of the frame that carries the pack temperature and status.
pub const ID_STATUS: u32 = 0x1875;

/// Identifier of the frame that carries the cell voltages in millivolts.
pub const ID_CELL_VOLTAGES: u32 = 0x1876;

/// Identifier of the frame that identifies the pack.
pub const ID_IDENTITY: u32 = 0x1877;

/// Identifier of the frame that carries the pack voltage and capacity.
pub const ID_PACK_STATS: u32 = 0x1878;

/// Identifier of the frame by which the pack announces itself to an
/// inverter that asks for the first time.
pub const ID_ANNOUNCE: u32 = 0x100A001;

/// Number of frames in the set.
pub const FRAME_COUNT: usize = 7;

/// Highest pack voltage to announce, in tenths of a volt.
pub const PACK_VOLTAGE_MAX_DV: u16 = 4000;

/// Lowest pack voltage to announce, in tenths of a volt.
pub const PACK_VOLTAGE_MIN_DV: u16 = 3000;

/// Capacity of the pack to announce, in watt-hours.
pub const PACK_CAPACITY_WH: u16 = 10000;

/// The word by which the pack identifies itself.
pub const PACK_IDENTITY: u16 = 0x16F7;

/// `x / d` rounded toward zero.
pub open spec fn toward_zero(x: int, d: int) -> int {
    if x >= 0 {
        x / d
    } else {
        -((-x) / d)
    }
}

/// The 16-bit word that stands for a signed value in two's complement.
pub open spec fn twos_complement(value: int) -> u16 {
    if value >= 0 {
        value as u16
    } else {
        (value + 65536) as u16
    }
}

/// Eight bytes that hold four 16-bit words, each low byte first.
pub open spec fn four_words(a: u16, b: u16, c: u16, d: u16) -> Seq<u8> {
    seq![
        (a % 256) as u8,
        (a / 256) as u8,
        (b % 256) as u8,
        (b / 256) as u8,
        (c % 256) as u8,
        (c / 256) as u8,
        (d % 256) as u8,
        (d / 256) as u8,
    ]
}

/// A frame of the set: an extended identifier and four words.
pub open spec fn word_frame(raw_id: u32, a: u16, b: u16, c: u16, d: u16) -> FrameView {
    FrameView { id: CanId::Extended(raw_id), payload: four_words(a, b, c, d) }
}

/// Pack current in tenths of an ampere, rounded toward zero.
pub open spec fn current_da(s: StateView) -> int {
    toward_zero(s.current_ma as int, 100)
}

/// The frame set of a state: seven frames in fixed order for a valid state,
/// none for another. Voltages and currents go out in tenths of a volt and of
/// an ampere, temperatures in tenths of a degree, energy in hundredths of a
/// kilowatt-hour; the cell range goes out both in tenths of a volt and in
/// millivolts.
pub open spec fn encoded(s: StateView) -> Seq<FrameView> {
    if !s.valid {
        Seq::<FrameView>::empty()
    } else {
        seq![
            word_frame(ID_IDENTITY, 0, 0, 0, PACK_IDENTITY),
            word_frame(
                ID_LIMITS,
                PACK_VOLTAGE_MAX_DV,
                PACK_VOLTAGE_MIN_DV,
                s.charge_limit_da,
                s.discharge_limit_da,
            ),
            word_frame(
                ID_PACK_DATA,
                (s.pack_voltage_cv / 10) as u16,
                twos_complement(current_da(s)),
                s.soc_percent as u16,
                s.kwh_remaining_x100,
            ),
            word_frame(
                ID_CELL_DATA,
                twos_complement(s.temp_max_c * 10),
                twos_complement(s.temp_min_c * 10),
                (s.cell_max_mv / 100) as u16,
                (s.cell_min_mv / 100) as u16,
            ),
            word_frame(ID_STATUS, twos_complement(s.pack_temp_dc as int), 1, 1, 0),
            word_frame(ID_CELL_VOLTAGES, 1, s.cell_max_mv, 0, s.cell_min_mv),
            word_frame(ID_PACK_STATS, (s.pack_voltage_cv / 10) as u16, 0, PACK_CAPACITY_WH, 0),
        ]
    }
}

/// The identifiers that frames of the set carry.
pub open spec fn in_frame_set(id: CanId) -> bool {
    ||| id == CanId::Extended(ID_LIMITS)
    ||| id == CanId::Extended(ID_PACK_DATA)
    ||| id == CanId::Extended(ID_CELL_DATA)
    ||| id == CanId::Extended(ID_STATUS)
    ||| id == CanId::Extended(ID_CELL_VOLTAGES)
    ||| id == CanId::Extended(ID_IDENTITY)
    ||| id == CanId::Extended(ID_PACK_STATS)
}

/// The announce frame: no payload under the announce identifier.
pub open spec fn announce_view() -> FrameView {
    FrameView { id: CanId::Extended(ID_ANNOUNCE), payload: Seq::<u8>::empty() }
}

/// The frame by which the pack announces itself.
pub fn announce_frame() -> (frame: CanFrame)
    ensures
        frame@ == announce_view(),
{
    let empty: [u8; 0] = [];
    let frame = CanFrame::from_slice(CanId::Extended(ID_ANNOUNCE), empty.as_slice());
    assert(frame@.payload =~= Seq::<u8>::empty());
    frame
}

/// The inverter protocols that the gateway speaks.
#[derive(Clone, Copy, Debug, PartialEq, Eq, Structural)]
pub enum Protocol {
    /// Seven frames under extended identifiers, words low byte first, sent
    /// when the inverter asks for them.
    Solax,
    /// Ten frames under standard identifiers, words high byte first, sent
    /// once a second.
    Byd,
}

/// Time, in milliseconds, between two frame sets of the periodic protocol.
pub const PERIOD_MS: u64 = 1000;

/// Number of frames in the set of the periodic protocol.
pub const BYD_FRAME_COUNT: usize = 10;

/// Highest charger voltage to announce, as the protocol counts it.
pub const CHARGER_VOLTS_HIGH: u16 = 6500;

/// Lowest charger voltage to announce, as the protocol counts it.
pub const CHARGER_VOLTS_LOW: u16 = 4800;

/// Capacity to announce to the periodic protocol.
pub const BYD_CAPACITY: u16 = 800;

/// Identifier of the first frame that spells the maker's name.
pub const ID_BYD_NAME: u16 = 0x618;

/// Identifier of the second frame that spells the maker's name.
pub const ID_BYD_NAME_2: u16 = 0x5D8;

/// Identifier of the frame that carries the capacity.
pub const ID_BYD_CAPACITY: u16 = 0x558;

/// Identifier of the frame that carries the version.
pub const ID_BYD_VERSION: u16 = 0x598;

/// Identifier of the frame that carries the voltage and current limits.
pub const ID_BYD_LIMITS: u16 = 0x358;

/// Identifier of the frame that carries the remaining energy.
pub const ID_BYD_ENERGY: u16 = 0x3D8;

/// Identifier of the frame that carries the serial number.
pub const ID_BYD_SERIAL: u16 = 0x458;

/// Identifier of the frame that carries the cell temperature range.
pub const ID_BYD_TEMPERATURES: u16 = 0x518;

/// Identifier of the frame that carries voltage, current and temperature.
pub const ID_BYD_PACK: u16 = 0x4D8;

/// Identifier of the frame that carries the alarms; none is ever raised.
pub const ID_BYD_ALARMS: u16 = 0x158;

/// Eight bytes that hold four 16-bit words, each high byte first.
pub open spec fn four_words_be(a: u16, b: u16, c: u16, d: u16) -> Seq<u8> {
    seq![
        (a / 256) as u8,
        (a % 256) as u8,
        (b / 256) as u8,
        (b % 256) as u8,
        (c / 256) as u8,
        (c % 256) as u8,
        (d / 256) as u8,
        (d % 256) as u8,
    ]
}

/// A frame of the periodic set: a standard identifier and four words.
pub open spec fn word_frame_be(raw_id: u16, a: u16, b: u16, c: u16, d: u16) -> FrameView {
    FrameView { id: CanId::Standard(raw_id), payload: four_words_be(a, b, c, d) }
}

/// The frame set of the periodic protocol: ten frames in fixed order for a
/// valid state, none for another. The name frames spell the maker's name;
/// the energy frame carries the remaining energy in tenths of a
/// kilowatt-hour twice.
pub open spec fn encoded_byd(s: StateView) -> Seq<FrameView> {
    if !s.valid {
        Seq::<FrameView>::empty()
    } else {
        seq![
            word_frame_be(ID_BYD_NAME, 0x0042, 0x5944, 0, 0),
            word_frame_be(ID_BYD_NAME_2, 0x0042, 0x5944, 0, 0),
            word_frame_be(ID_BYD_CAPACITY, 0x0313, 0x0004, BYD_CAPACITY, 0x0507),
            word_frame_be(ID_BYD_VERSION, 0, 0x1234, 0, 0x044F),
            word_frame_be(
                ID_BYD_LIMITS,
                CHARGER_VOLTS_HIGH,
                CHARGER_VOLTS_LOW,
                s.discharge_limit_da,
                s.charge_limit_da,
            ),
            word_frame_be(
                ID_BYD_ENERGY,
                (s.kwh_remaining_x100 / 10) as u16,
                (s.kwh_remaining_x100 / 10) as u16,
                0,
                0xF900,
            ),
            word_frame_be(ID_BYD_SERIAL, 0, 0x1234, 0, 0x5678),
            word_frame_be(
                ID_BYD_TEMPERATURES,
                twos_complement(s.temp_max_c * 10),
                twos_complement(s.temp_min_c * 10),
                0xFFFF,
                0xFFFF,
            ),
            word_frame_be(
                ID_BYD_PACK,
                (s.pack_voltage_cv / 10) as u16,
                twos_complement(current_da(s)),
                twos_complement(s.pack_temp_dc as int),
                0x0308,
            ),
            word_frame_be(ID_BYD_ALARMS, 0, 0, 0, 0),
        ]
    }
}

/// The identifiers that frames of the periodic set carry.
pub open spec fn in_byd_frame_set(id: CanId) -> bool {
    ||| id == CanId::Standard(ID_BYD_NAME)
    ||| id == CanId::Standard(ID_BYD_NAME_2)
    ||| id == CanId::Standard(ID_BYD_CAPACITY)
    ||| id == CanId::Standard(ID_BYD_VERSION)
    ||| id == CanId::Standard(ID_BYD_LIMITS)
    ||| id == CanId::Standard(ID_BYD_ENERGY)
    ||| id == CanId::Standard(ID_BYD_SERIAL)
    ||| id == CanId::Standard(ID_BYD_TEMPERATURES)
    ||| id == CanId::Standard(ID_BYD_PACK)
    ||| id == CanId::Standard(ID_BYD_ALARMS)
}

/// The frame set of a state in a protocol.
pub open spec fn encoded_for(protocol: Protocol, s: StateView) -> Seq<FrameView> {
    match protocol {
        Protocol::Solax => encoded(s),
        Protocol::Byd => encoded_byd(s),
    }
}

/// The number of frames that a protocol's set has.
pub open spec fn frame_count(protocol: Protocol) -> nat {
    match protocol {
        Protocol::Solax => FRAME_COUNT as nat,
        Protocol::Byd => BYD_FRAME_COUNT as nat,
    }
}

/// The identifiers that frames of a protocol's set carry.
pub open spec fn in_set_of(protocol: Protocol, id: CanId) -> bool {
    match protocol {
        Protocol::Solax => in_frame_set(id),
        Protocol::Byd => in_byd_frame_set(id),
    }
}

/// In either protocol every valid state has the same number of frames, each
/// of eight bytes under an identifier of the protocol's set, in the same
/// order; a state that is not valid has none.
pub proof fn lemma_protocol_frame_set_is_fixed(protocol: Protocol, s: StateView, t: StateView)
    ensures
        s.valid ==> encoded_for(protocol, s).len() == frame_count(protocol),
        !s.valid ==> encoded_for(protocol, s).len() == 0,
        forall|i: int|
            0 <= i < encoded_for(protocol, s).len() ==> in_set_of(
                protocol,
                #[trigger] encoded_for(protocol, s)[i].id,
            ) && encoded_for(protocol, s)[i].payload.len() == 8,
        s.valid && t.valid ==> forall|i: int|
            0 <= i < frame_count(protocol) ==> encoded_for(protocol, s)[i].id == encoded_for(
                protocol,
                t,
            )[i].id,
{
}

/// The word that stands for a signed value.
fn signed_word(value: i16) -> (word: u16)
    ensures
        word == twos_complement(value as int),
{
    if value >= 0 {
        value as u16
    } else {
        (value as i32 + 65536) as u16
    }
}

/// A frame of four words under an extended identifier of the set.
fn build(raw_id: u32, a: u16, b: u16, c: u16, d: u16) -> (frame: CanFrame)
    requires
        raw_id <= 0x1FFF_FFFF,
    ensures
        frame@ == word_frame(raw_id, a, b, c, d),
{
    let bytes: [u8; 8] = [
        (a % 256) as u8,
        (a / 256) as u8,
        (b % 256) as u8,
        (b / 256) as u8,
        (c % 256) as u8,
        (c / 256) as u8,
        (d % 256) as u8,
        (d / 256) as u8,
    ];
    CanFrame::from_array(CanId::Extended(raw_id), bytes)
}

/// The views of a list of frames.
pub open spec fn views(frames: Seq<CanFrame>) -> Seq<FrameView> {
    frames.map_values(|frame: CanFrame| frame@)
}

/// Encodes the state for the inverter.
pub fn encode(state: &CanonicalBatteryState) -> (frames: Vec<CanFrame>)
    ensures
        views(frames@) == encoded(state@),
        state@.valid ==> frames@.len() == FRAME_COUNT,
        !state@.valid ==> frames@.len() == 0,
        forall|i: int| 0 <= i < frames@.len() ==> in_frame_set(#[trigger] frames@[i]@.id),
{
    let mut frames: Vec<CanFrame> = Vec::new();
    if !state.valid() {
        return frames;
    }
    let voltage_dv: u16 = state.pack_voltage_cv() / 10;
    let current: i32 = state.current_ma();
    let current_da: i32 = if current >= 0 {
        current / 100
    } else {
        -((-current) / 100)
    };
    let temp_max: i16 = (state.temp_max_c() as i16) * 10;
    let temp_min: i16 = (state.temp_min_c() as i16) * 10;
    frames.push(build(ID_IDENTITY, 0, 0, 0, PACK_IDENTITY));
    frames.push(
        build(
            ID_LIMITS,
            PACK_VOLTAGE_MAX_DV,
            PACK_VOLTAGE_MIN_DV,
            state.charge_limit_da(),
            state.discharge_limit_da(),
        ),
    );
    frames.push(
        build(
            ID_PACK_DATA,
            voltage_dv,
            signed_word(current_da as i16),
            state.soc_percent() as u16,
            state.kwh_remaining_x100(),
        ),
    );
    frames.push(
        build(
            ID_CELL_DATA,
            signed_word(temp_max),
            signed_word(temp_min),
            state.cell_max_mv() / 100,
            state.cell_min_mv() / 100,
        ),
    );
    frames.push(build(ID_STATUS, signed_word(state.pack_temp_dc()), 1, 1, 0));
    frames.push(build(ID_CELL_VOLTAGES, 1, state.cell_max_mv(), 0, state.cell_min_mv()));
    frames.push(build(ID_PACK_STATS, voltage_dv, 0, PACK_CAPACITY_WH, 0));
    frames
}

/// A frame of four words, high byte first, under a standard identifier.
fn build_be(raw_id: u16, a: u16, b: u16, c: u16, d: u16) -> (frame: CanFrame)
    requires
        raw_id <= 0x7FF,
    ensures
        frame@ == word_frame_be(raw_id, a, b, c, d),
{
    let bytes: [u8; 8] = [
        (a / 256) as u8,
        (a % 256) as u8,
        (b / 256) as u8,
        (b % 256) as u8,
        (c / 256) as u8,
        (c % 256) as u8,
        (d / 256) as u8,
        (d % 256) as u8,
    ];
    CanFrame::from_array(CanId::Standard(raw_id), bytes)
}

/// Encodes the state for an inverter of the periodic protocol.
pub fn encode_byd(state: &CanonicalBatteryState) -> (frames: Vec<CanFrame>)
    ensures
        views(frames@) == encoded_byd(state@),
        state@.valid ==> frames@.len() == BYD_FRAME_COUNT,
        !state@.valid ==> frames@.len() == 0,
        forall|i: int| 0 <= i < frames@.len() ==> in_byd_frame_set(#[trigger] frames@[i]@.id),
{
    let mut frames: Vec<CanFrame> = Vec::new();
    if !state.valid() {
        return frames;
    }
    let voltage_dv: u16 = state.pack_voltage_cv() / 10;
    let current: i32 = state.current_ma();
    let current_da: i32 = if current >= 0 {
        current / 100
    } else {
        -((-current) / 100)
    };
    let temp_max: i16 = (state.temp_max_c() as i16) * 10;
    let temp_min: i16 = (state.temp_min_c() as i16) * 10;
    let energy: u16 = state.kwh_remaining_x100() / 10;
    frames.push(build_be(ID_BYD_NAME, 0x0042, 0x5944, 0, 0));
    frames.push(build_be(ID_BYD_NAME_2, 0x0042, 0x5944, 0, 0));
    frames.push(build_be(ID_BYD_CAPACITY, 0x0313, 0x0004, BYD_CAPACITY, 0x0507));
    frames.push(build_be(ID_BYD_VERSION, 0, 0x1234, 0, 0x044F));
    frames.push(
        build_be(
            ID_BYD_LIMITS,
            CHARGER_VOLTS_HIGH,
            CHARGER_VOLTS_LOW,
            state.discharge_limit_da(),
            state.charge_limit_da(),
        ),
    );
    frames.push(build_be(ID_BYD_ENERGY, energy, energy, 0, 0xF900));
    frames.push(build_be(ID_BYD_SERIAL, 0, 0x1234, 0, 0x5678));
    frames.push(
        build_be(ID_BYD_TEMPERATURES, signed_word(temp_max), signed_word(temp_min), 0xFFFF, 0xFFFF),
    );
    frames.push(
        build_be(
            ID_BYD_PACK,
            voltage_dv,
            signed_word(current_da as i16),
            signed_word(state.pack_temp_dc()),
            0x0308,
        ),
    );
    frames.push(build_be(ID_BYD_ALARMS, 0, 0, 0, 0));
    frames
}

/// Encodes the state for an inverter of the given protocol.
pub fn encode_for(protocol: Protocol, state: &CanonicalBatteryState) -> (frames: Vec<CanFrame>)
    ensures
        views(frames@) == encoded_for(protocol, state@),
        state@.valid ==> frames@.len() == frame_count(protocol),
        !state@.valid ==> frames@.len() == 0,
        forall|i: int| 0 <= i < frames@.len() ==> in_set_of(protocol, #[trigger] frames@[i]@.id),
{
    match protocol {
        Protocol::Solax => encode(state),
        Protocol::Byd => encode_byd(state),
    }
}

/// What answers the data requests of an inverter of the protocol that asks:
/// it remembers whether the pack has announced itself.
#[derive(Clone, Copy, Debug, PartialEq, Eq, Structural)]
pub struct Responder {
    /// The pack has announced itself since the last request that went
    /// unanswered.
    pub announced: bool,
}

impl Responder {
    /// The responder after a data request and the frames that answer it.
    /// While it is not safe to answer, nothing is sent and the pack has to
    /// announce itself anew. The first request that is safe to answer gets
    /// the announce frame, each one after it the frame set of the state.
    pub open spec fn answered(self, state: StateView, safe: bool) -> (Responder, Seq<FrameView>) {
        if !safe {
            (Responder { announced: false }, Seq::<FrameView>::empty())
        } else if !self.announced {
            (Responder { announced: true }, seq![announce_view()])
        } else {
            (self, encoded(state))
        }
    }

    /// A responder for a pack that has not announced itself.
    pub fn new() -> (responder: Responder)
        ensures
            !responder.announced,
    {
        Responder { announced: false }
    }

    /// Answers one data request.
    pub fn answer(&mut self, state: &CanonicalBatteryState, safe: bool) -> (frames: Vec<CanFrame>)
        ensures
            (*final(self), views(frames@)) == old(self).answered(state@, safe),
    {
        if !safe {
            self.announced = false;
            let frames: Vec<CanFrame> = Vec::new();
            assert(views(frames@) =~= Seq::<FrameView>::empty());
            frames
        } else if !self.announced {
            self.announced = true;
            let mut frames: Vec<CanFrame> = Vec::new();
            frames.push(announce_frame());
            assert(views(frames@) =~= seq![announce_view()]);
            frames
        } else {
            encode(state)
        }
    }
}

} // verus!
