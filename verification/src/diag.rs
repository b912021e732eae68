//! The diagnostic sequencer: block requests, multi-frame reassembly and
//! block decoding.

use vstd::prelude::*;
use vstd::slice::slice_subrange;
use crate::blocks::{
    balancing_count, be_words, cells_of, count_balancing, decode_cells, decode_temperatures,
    lemma_words_of_concat, lemma_words_of_prefix, temperature_range, word_after_cells,
    TemperatureRange, MAX_CELLS,
};
use crate::buffer::{
    buffer_as_slice, buffer_bytes, buffer_extend, buffer_new, cell_values, BUFFER_CAPACITY,
};
use crate::frame::{CanFrame, CanId, FrameView};

verus! {

/// Identifier that block requests and flow-control frames are sent to.
pub const REQUEST_ID: u16 = 0x79B;

/// Identifier that the battery answers block requests from.
pub const RESPONSE_ID: u16 = 0x7BB;

/// Service byte of a block read request.
pub const SERVICE_READ_BLOCK: u8 = 0x21;

/// Service byte that a positive answer to a block read carries.
pub const SERVICE_POSITIVE: u8 = 0x61;

/// Filler of unused request bytes.
pub const PAD: u8 = 0xFF;

/// What the sequencer is asking the battery for.
#[derive(Clone, Copy, Debug, PartialEq, Eq, Structural)]
pub enum Mode {
    CellBank1,
    CellBank2,
    Temperature,
    Balance,
    Idle,
}

impl Mode {
    /// The mode that follows in the read cycle.
    pub open spec fn spec_next(self) -> Mode {
        match self {
            Mode::CellBank1 => Mode::CellBank2,
            Mode::CellBank2 => Mode::Temperature,
            Mode::Temperature => Mode::Balance,
            Mode::Balance => Mode::Idle,
            Mode::Idle => Mode::CellBank1,
        }
    }

    /// The block number that a request in this mode names.
    pub open spec fn spec_block(self) -> Option<u8> {
        match self {
            Mode::CellBank1 => Some(0x41u8),
            Mode::CellBank2 => Some(0x42u8),
            Mode::Temperature => Some(0x04u8),
            Mode::Balance => Some(0x07u8),
            Mode::Idle => None,
        }
    }

    /// The mode that follows in the read cycle.
    pub fn next(self) -> (following: Mode)
        ensures
            following == self.spec_next(),
    {
        match self {
            Mode::CellBank1 => Mode::CellBank2,
            Mode::CellBank2 => Mode::Temperature,
            Mode::Temperature => Mode::Balance,
            Mode::Balance => Mode::Idle,
            Mode::Idle => Mode::CellBank1,
        }
    }

    /// The block number that a request in this mode names; none while idle.
    pub fn block(self) -> (number: Option<u8>)
        ensures
            number == self.spec_block(),
    {
        match self {
            Mode::CellBank1 => Some(0x41u8),
            Mode::CellBank2 => Some(0x42u8),
            Mode::Temperature => Some(0x04u8),
            Mode::Balance => Some(0x07u8),
            Mode::Idle => None,
        }
    }
}

/// Payload of the request that starts a block read.
pub open spec fn request_payload(block: u8) -> Seq<u8> {
    seq![0x02u8, SERVICE_READ_BLOCK, block, PAD, PAD, PAD, PAD, PAD]
}

/// Payload of the flow-control frame that asks for the next frame.
pub open spec fn continue_payload() -> Seq<u8> {
    seq![0x30u8, 0x01u8, 0x00u8, PAD, PAD, PAD, PAD, PAD]
}

/// The frame that asks the battery for block number `block`.
pub fn request_for_block(block: u8) -> (frame: CanFrame)
    ensures
        frame@ == (FrameView {
            id: CanId::Standard(REQUEST_ID),
            payload: request_payload(block),
        }),
{
    let bytes: [u8; 8] = [0x02, SERVICE_READ_BLOCK, block, PAD, PAD, PAD, PAD, PAD];
    assert(bytes@ =~= request_payload(block));
    CanFrame::from_array(CanId::Standard(REQUEST_ID), bytes)
}

/// The frame that asks the battery for the block of `mode`; none while idle.
pub fn request_frame(mode: Mode) -> (frame: Option<CanFrame>)
    ensures
        match mode.spec_block() {
            Some(block) => frame.is_some() && frame.unwrap()@ == (FrameView {
                id: CanId::Standard(REQUEST_ID),
                payload: request_payload(block),
            }),
            None => frame.is_none(),
        },
{
    match mode.block() {
        Some(block) => Some(request_for_block(block)),
        None => None,
    }
}

/// The flow-control frame that tells the battery to go on sending.
pub fn continue_frame() -> (frame: CanFrame)
    ensures
        frame@ == (FrameView { id: CanId::Standard(REQUEST_ID), payload: continue_payload() }),
{
    let bytes: [u8; 8] = [0x30, 0x01, 0x00, PAD, PAD, PAD, PAD, PAD];
    assert(bytes@ =~= continue_payload());
    CanFrame::from_array(CanId::Standard(REQUEST_ID), bytes)
}

/// Number of bytes, at the head of a reassembled answer, that echo the
/// request: the service byte and the block number. They are checked and not
/// stored.
pub const ANSWER_HEADER: u16 = 2;

/// Why a reassembly session was given up.
#[derive(Clone, Copy, Debug, PartialEq, Eq, Structural)]
pub enum DiagError {
    /// A consecutive frame did not carry the sequence number that was due.
    SequenceMismatch,
    /// The announced length is below the answer header or above the buffer.
    BadLength,
    /// The answer does not echo the block that was asked for.
    UnexpectedBlock,
}

/// What one frame did to the sequencer.
#[derive(Clone, Copy, Debug, PartialEq, Eq, Structural)]
pub enum DiagEvent {
    /// The frame was dropped and nothing changed.
    Ignored,
    /// The frame was taken and the block is not complete: send a flow-control
    /// frame.
    Continue,
    /// The block is complete and its values were stored in the cycle.
    BlockStored,
    /// The block is complete and could not be decoded; the cycle is unchanged.
    BlockRejected,
    /// The balance block is complete and every block of the cycle was read.
    CycleComplete,
    /// The session was given up; the sequencer is idle.
    Aborted(DiagError),
}

/// The reassembly session as a value.
pub struct SessionView {
    pub mode: Mode,
    pub buffer: Seq<u8>,
    pub expected_len: Option<u16>,
    pub sequence_index: u8,
}

impl SessionView {
    /// A session with nothing in flight.
    pub open spec fn at_rest(mode: Mode) -> SessionView {
        SessionView { mode, buffer: Seq::<u8>::empty(), expected_len: None, sequence_index: 0 }
    }

    /// While a block is in flight the buffer is short of the expected
    /// length; otherwise the buffer is empty.
    pub open spec fn wf(self) -> bool {
        match self.expected_len {
            Some(expected) => {
                &&& self.mode != Mode::Idle
                &&& self.buffer.len() < expected
                &&& expected <= BUFFER_CAPACITY
                &&& self.sequence_index < 16
            },
            None => self.buffer.len() == 0 && self.sequence_index == 0,
        }
    }
}

/// The values of one read cycle as a value.
pub struct CycleView {
    pub cells: Seq<u16>,
    pub pack_voltage_cv: Option<u16>,
    pub temperatures: Option<TemperatureRange>,
    pub balancing_cells: Option<u8>,
    pub have_bank1: bool,
    pub have_bank2: bool,
}

impl CycleView {
    /// A cycle of which nothing was read yet.
    pub open spec fn empty() -> CycleView {
        CycleView {
            cells: Seq::<u16>::empty(),
            pack_voltage_cv: None,
            temperatures: None,
            balancing_cells: None,
            have_bank1: false,
            have_bank2: false,
        }
    }

    /// At most as many cells as the pack has; a bank that was read gave at
    /// least one cell, and the second bank follows the first; the
    /// temperature range is ordered and no more cells balance than the pack
    /// has.
    pub open spec fn wf(self) -> bool {
        &&& self.cells.len() <= MAX_CELLS
        &&& self.have_bank1 ==> self.cells.len() >= 1
        &&& self.have_bank2 ==> self.have_bank1
        &&& self.temperatures.is_some() ==> self.temperatures.unwrap().min_c
            <= self.temperatures.unwrap().max_c
        &&& self.balancing_cells.is_some() ==> self.balancing_cells.unwrap() <= MAX_CELLS
    }

    /// Every block of the cycle was read.
    pub open spec fn complete(self) -> bool {
        &&& self.have_bank1
        &&& self.have_bank2
        &&& self.temperatures.is_some()
        &&& self.balancing_cells.is_some()
    }
}

/// Number of bytes that the cells of the pack take in the banks, two each.
pub const CELL_BYTES: usize = 192;

/// The values that the blocks of one read cycle gave. The cell voltages are
/// kept as the banks sent them, two bytes each, and decoded when read.
#[derive(Debug)]
pub struct CycleReadings {
    cell_bytes: heapless::Vec<u8, 255>,
    pack_voltage_cv: Option<u16>,
    temperatures: Option<TemperatureRange>,
    balancing_cells: Option<u8>,
    have_bank1: bool,
    have_bank2: bool,
}

impl View for CycleReadings {
    type V = CycleView;

    closed spec fn view(&self) -> CycleView {
        CycleView {
            cells: be_words(buffer_bytes(self.cell_bytes)),
            pack_voltage_cv: self.pack_voltage_cv,
            temperatures: self.temperatures,
            balancing_cells: self.balancing_cells,
            have_bank1: self.have_bank1,
            have_bank2: self.have_bank2,
        }
    }
}

/// Whether a complete block can be stored in the cycle.
pub open spec fn block_accepted(cycle: CycleView, mode: Mode, block: Seq<u8>) -> bool {
    match mode {
        Mode::CellBank1 => block.len() >= 2,
        Mode::CellBank2 => cycle.have_bank1 && !cycle.have_bank2,
        Mode::Temperature => temperature_range(block).is_some(),
        Mode::Balance => true,
        Mode::Idle => false,
    }
}

/// The cycle after a complete block of `mode` was decoded into it.
pub open spec fn cycle_after(cycle: CycleView, mode: Mode, block: Seq<u8>) -> CycleView {
    if !block_accepted(cycle, mode, block) {
        cycle
    } else {
        match mode {
            Mode::CellBank1 => CycleView {
                cells: cells_of(be_words(block)),
                pack_voltage_cv: word_after_cells(be_words(block)),
                have_bank1: true,
                have_bank2: false,
                ..cycle
            },
            Mode::CellBank2 => CycleView {
                cells: cells_of(cycle.cells + be_words(block)),
                pack_voltage_cv: match word_after_cells(cycle.cells + be_words(block)) {
                    Some(word) => Some(word),
                    None => cycle.pack_voltage_cv,
                },
                have_bank2: true,
                ..cycle
            },
            Mode::Temperature => CycleView { temperatures: temperature_range(block), ..cycle },
            Mode::Balance => CycleView {
                balancing_cells: Some(balancing_count(block) as u8),
                ..cycle
            },
            Mode::Idle => cycle,
        }
    }
}

/// What the completion of a block is reported as.
pub open spec fn completion_event(cycle: CycleView, mode: Mode, block: Seq<u8>) -> DiagEvent {
    if !block_accepted(cycle, mode, block) {
        DiagEvent::BlockRejected
    } else if mode == Mode::Balance && cycle_after(cycle, mode, block).complete() {
        DiagEvent::CycleComplete
    } else {
        DiagEvent::BlockStored
    }
}

impl CycleReadings {
    /// The cell bytes are whole pairs, no more than the pack's cells take.
    #[verifier::type_invariant]
    closed spec fn inv(self) -> bool {
        &&& buffer_bytes(self.cell_bytes).len() % 2 == 0
        &&& buffer_bytes(self.cell_bytes).len() <= CELL_BYTES
        &&& self@.wf()
    }

    /// A cycle of which nothing was read yet.
    pub fn new() -> (cycle: CycleReadings)
        ensures
            cycle@ == CycleView::empty(),
            cycle@.wf(),
    {
        let cycle = CycleReadings {
            cell_bytes: buffer_new(),
            pack_voltage_cv: None,
            temperatures: None,
            balancing_cells: None,
            have_bank1: false,
            have_bank2: false,
        };
        assert(cycle@.cells =~= Seq::<u16>::empty());
        cycle
    }

    /// The cell voltages read so far, in millivolts, both banks in order.
    pub fn cells(&self) -> (cells: heapless::Vec<u16, 96>)
        ensures
            cell_values(cells) == self@.cells,
            self@.wf(),
    {
        proof {
            use_type_invariant(self);
        }
        decode_cells(buffer_as_slice(&self.cell_bytes))
    }

    /// Pack voltage in hundredths of a volt, the word that follows the cells.
    pub fn pack_voltage_cv(&self) -> (voltage: Option<u16>)
        ensures
            voltage == self@.pack_voltage_cv,
    {
        self.pack_voltage_cv
    }

    /// The temperature range, once the temperature block was read.
    pub fn temperatures(&self) -> (range: Option<TemperatureRange>)
        ensures
            range == self@.temperatures,
            self@.wf(),
    {
        proof {
            use_type_invariant(self);
        }
        self.temperatures
    }

    /// The number of balancing cells, once the balance block was read.
    pub fn balancing_cells(&self) -> (count: Option<u8>)
        ensures
            count == self@.balancing_cells,
            self@.wf(),
    {
        proof {
            use_type_invariant(self);
        }
        self.balancing_cells
    }

    /// Whether the first cell bank was read.
    pub fn have_bank1(&self) -> (have: bool)
        ensures
            have == self@.have_bank1,
    {
        self.have_bank1
    }

    /// Whether the second cell bank was read.
    pub fn have_bank2(&self) -> (have: bool)
        ensures
            have == self@.have_bank2,
    {
        self.have_bank2
    }

    /// Whether every block of the cycle was read.
    pub fn is_complete(&self) -> (complete: bool)
        ensures
            complete == self@.complete(),
            self@.wf(),
    {
        proof {
            use_type_invariant(self);
        }
        self.have_bank1 && self.have_bank2 && self.temperatures.is_some()
            && self.balancing_cells.is_some()
    }

    /// Stores the first cell bank: its complete pairs of bytes up to the
    /// number of cells in the pack, and the word that follows them.
    fn store_first_bank(&mut self, block: &[u8])
        requires
            block@.len() >= 2,
        ensures
            final(self)@ == cycle_after(old(self)@, Mode::CellBank1, block@),
    {
        proof {
            use_type_invariant(&*self);
        }
        let pairs: usize = block.len() / 2 * 2;
        let take: usize = if pairs > CELL_BYTES {
            CELL_BYTES
        } else {
            pairs
        };
        let mut fresh = buffer_new();
        let data = slice_subrange(block, 0, take);
        let appended = buffer_extend(&mut fresh, data);
        let following: Option<u16> = if pairs > CELL_BYTES {
            Some((block[CELL_BYTES] as u16) * 256 + (block[CELL_BYTES + 1] as u16))
        } else {
            None
        };
        proof {
            lemma_words_of_prefix(block@, take as int / 2);
            assert(data@ =~= block@.take(take as int));
            assert(buffer_bytes(fresh) =~= data@);
            assert(be_words(block@).take(take as int / 2) =~= cells_of(be_words(block@)));
        }
        *self = CycleReadings {
            cell_bytes: fresh,
            pack_voltage_cv: following,
            temperatures: self.temperatures,
            balancing_cells: self.balancing_cells,
            have_bank1: true,
            have_bank2: false,
        };
    }

    /// Stores the second cell bank behind the first.
    fn store_second_bank(&mut self, block: &[u8])
        requires
            old(self)@.have_bank1,
            !old(self)@.have_bank2,
        ensures
            final(self)@ == cycle_after(old(self)@, Mode::CellBank2, block@),
    {
        proof {
            use_type_invariant(&*self);
        }
        let held = buffer_as_slice(&self.cell_bytes);
        let pairs: usize = block.len() / 2 * 2;
        let room: usize = CELL_BYTES - held.len();
        let take: usize = if pairs > room {
            room
        } else {
            pairs
        };
        let mut fresh = buffer_new();
        let kept = buffer_extend(&mut fresh, held);
        let data = slice_subrange(block, 0, take);
        let appended = buffer_extend(&mut fresh, data);
        let following: Option<u16> = if pairs > room {
            Some((block[take] as u16) * 256 + (block[take + 1] as u16))
        } else {
            self.pack_voltage_cv
        };
        proof {
            let before = held@;
            let all = be_words(before) + be_words(block@);
            lemma_words_of_prefix(block@, take as int / 2);
            lemma_words_of_concat(before, data@);
            assert(data@ =~= block@.take(take as int));
            assert(buffer_bytes(fresh) =~= before + data@);
            assert(be_words(before) + be_words(block@).take(take as int / 2) =~= cells_of(all));
            if pairs > room {
                assert(all[MAX_CELLS as int] == be_words(block@)[room as int / 2]);
            }
        }
        *self = CycleReadings {
            cell_bytes: fresh,
            pack_voltage_cv: following,
            temperatures: self.temperatures,
            balancing_cells: self.balancing_cells,
            have_bank1: true,
            have_bank2: true,
        };
    }

    /// Decodes a complete block of `mode` into the cycle. A block that cannot
    /// be decoded leaves the cycle as it was.
    pub fn store_block(&mut self, mode: Mode, block: &[u8]) -> (event: DiagEvent)
        ensures
            final(self)@.wf(),
            final(self)@ == cycle_after(old(self)@, mode, block@),
            event == completion_event(old(self)@, mode, block@),
    {
        proof {
            use_type_invariant(&*self);
        }
        let event = match mode {
            Mode::CellBank1 => {
                if block.len() < 2 {
                    DiagEvent::BlockRejected
                } else {
                    self.store_first_bank(block);
                    DiagEvent::BlockStored
                }
            },
            Mode::CellBank2 => {
                if !self.have_bank1 || self.have_bank2 {
                    DiagEvent::BlockRejected
                } else {
                    self.store_second_bank(block);
                    DiagEvent::BlockStored
                }
            },
            Mode::Temperature => {
                match decode_temperatures(block) {
                    Some(range) => {
                        self.temperatures = Some(range);
                        DiagEvent::BlockStored
                    },
                    None => DiagEvent::BlockRejected,
                }
            },
            Mode::Balance => {
                let count = count_balancing(block);
                self.balancing_cells = Some(count);
                if self.have_bank1 && self.have_bank2 && self.temperatures.is_some() {
                    DiagEvent::CycleComplete
                } else {
                    DiagEvent::BlockStored
                }
            },
            Mode::Idle => DiagEvent::BlockRejected,
        };
        proof {
            use_type_invariant(&*self);
        }
        event
    }
}

/// The sequencer as a value: the session in flight and the cycle read so far.
pub struct SequencerView {
    pub session: SessionView,
    pub cycle: CycleView,
}

impl SequencerView {
    /// Session and cycle are both well formed.
    pub open spec fn wf(self) -> bool {
        self.session.wf() && self.cycle.wf()
    }

    /// Whether a block is being reassembled.
    pub open spec fn in_flight(self) -> bool {
        self.session.expected_len.is_some()
    }
}

/// A first frame: eight bytes, the first with high nibble 1.
pub open spec fn is_first_frame(payload: Seq<u8>) -> bool {
    payload.len() == 8 && payload[0] / 16 == 1
}

/// A consecutive frame: at least one data byte behind a first byte with high
/// nibble 2.
pub open spec fn is_consecutive_frame(payload: Seq<u8>) -> bool {
    payload.len() >= 2 && payload[0] / 16 == 2
}

/// The 12-bit length that a first frame announces: the low nibble of byte 0
/// above byte 1.
pub open spec fn announced_len(payload: Seq<u8>) -> int {
    (payload[0] % 16) * 256 + payload[1]
}

/// The sequence number that is due after `index`.
pub open spec fn next_sequence(index: u8) -> u8 {
    if index >= 15 {
        0u8
    } else {
        (index + 1) as u8
    }
}

/// The first `room` bytes of `bytes`, or all of them where there are fewer.
pub open spec fn up_to(bytes: Seq<u8>, room: int) -> Seq<u8> {
    if bytes.len() > room {
        bytes.take(room)
    } else {
        bytes
    }
}

/// The sequencer and the event after a session was given up: idle, the
/// buffer discarded, the cycle as it was.
pub open spec fn aborted(s: SequencerView, error: DiagError) -> (SequencerView, DiagEvent) {
    (
        SequencerView { session: SessionView::at_rest(Mode::Idle), cycle: s.cycle },
        DiagEvent::Aborted(error),
    )
}

/// The sequencer and the event after `block` was completed in the current
/// mode: the block is decoded into the cycle and the session is at rest.
pub open spec fn completed(s: SequencerView, block: Seq<u8>) -> (SequencerView, DiagEvent) {
    (
        SequencerView {
            session: SessionView::at_rest(s.session.mode),
            cycle: cycle_after(s.cycle, s.session.mode, block),
        },
        completion_event(s.cycle, s.session.mode, block),
    )
}

/// What a first frame does.
pub open spec fn after_first_frame(s: SequencerView, payload: Seq<u8>) -> (
    SequencerView,
    DiagEvent,
) {
    let announced = announced_len(payload);
    if announced < ANSWER_HEADER || announced - ANSWER_HEADER > BUFFER_CAPACITY {
        aborted(s, DiagError::BadLength)
    } else if payload[2] != SERVICE_POSITIVE || Some(payload[3]) != s.session.mode.spec_block() {
        aborted(s, DiagError::UnexpectedBlock)
    } else {
        let expected = announced - ANSWER_HEADER;
        let data = up_to(payload.subrange(4, 8), expected);
        if data.len() >= expected {
            completed(s, data)
        } else {
            (
                SequencerView {
                    session: SessionView {
                        mode: s.session.mode,
                        buffer: data,
                        expected_len: Some(expected as u16),
                        sequence_index: 0,
                    },
                    cycle: s.cycle,
                },
                DiagEvent::Continue,
            )
        }
    }
}

/// What a consecutive frame does.
pub open spec fn after_consecutive_frame(s: SequencerView, payload: Seq<u8>) -> (
    SequencerView,
    DiagEvent,
) {
    match s.session.expected_len {
        None => (s, DiagEvent::Ignored),
        Some(expected) => {
            if payload[0] % 16 != next_sequence(s.session.sequence_index) {
                aborted(s, DiagError::SequenceMismatch)
            } else {
                let data = up_to(
                    payload.subrange(1, payload.len() as int),
                    expected - s.session.buffer.len(),
                );
                let buffer = s.session.buffer + data;
                if buffer.len() >= expected {
                    completed(s, buffer)
                } else {
                    (
                        SequencerView {
                            session: SessionView {
                                mode: s.session.mode,
                                buffer,
                                expected_len: Some(expected),
                                sequence_index: next_sequence(s.session.sequence_index),
                            },
                            cycle: s.cycle,
                        },
                        DiagEvent::Continue,
                    )
                }
            }
        },
    }
}

/// What one received frame does to the sequencer, and what it is reported
/// as. Frames under another identifier, frames while idle, and frames that
/// are neither first nor consecutive frames are dropped.
pub open spec fn after_frame(s: SequencerView, frame: FrameView) -> (SequencerView, DiagEvent) {
    if frame.id != CanId::Standard(RESPONSE_ID) || s.session.mode == Mode::Idle {
        (s, DiagEvent::Ignored)
    } else if is_first_frame(frame.payload) {
        after_first_frame(s, frame.payload)
    } else if is_consecutive_frame(frame.payload) {
        after_consecutive_frame(s, frame.payload)
    } else {
        (s, DiagEvent::Ignored)
    }
}

/// The sequencer after a tick of the request clock. A block still in flight
/// has timed out: its session is given up and the cycle starts over. Else
/// the mode moves on in the cycle. A new cycle starts with nothing read.
pub open spec fn after_tick(s: SequencerView) -> SequencerView {
    let base = if s.in_flight() {
        Mode::Idle
    } else {
        s.session.mode
    };
    let mode = base.spec_next();
    SequencerView {
        session: SessionView::at_rest(mode),
        cycle: if mode == Mode::CellBank1 {
            CycleView::empty()
        } else {
            s.cycle
        },
    }
}

/// The reassembly session: one block in flight at most.
#[derive(Debug)]
pub struct DiagSession {
    mode: Mode,
    buffer: heapless::Vec<u8, 255>,
    expected_len: Option<u16>,
    sequence_index: u8,
}

impl View for DiagSession {
    type V = SessionView;

    closed spec fn view(&self) -> SessionView {
        SessionView {
            mode: self.mode,
            buffer: buffer_bytes(self.buffer),
            expected_len: self.expected_len,
            sequence_index: self.sequence_index,
        }
    }
}

impl DiagSession {
    /// Every session that exists is well formed.
    #[verifier::type_invariant]
    closed spec fn inv(self) -> bool {
        self@.wf()
    }

    /// An idle session.
    pub fn new() -> (session: DiagSession)
        ensures
            session@ == SessionView::at_rest(Mode::Idle),
            session@.wf(),
    {
        DiagSession { mode: Mode::Idle, buffer: buffer_new(), expected_len: None, sequence_index: 0 }
    }

    /// The mode that the session is in.
    pub fn mode(&self) -> (mode: Mode)
        ensures
            mode == self@.mode,
            self@.wf(),
    {
        proof {
            use_type_invariant(self);
        }
        self.mode
    }

    /// The length that the block in flight is expected to reach.
    pub fn expected_len(&self) -> (expected: Option<u16>)
        ensures
            expected == self@.expected_len,
            self@.wf(),
    {
        proof {
            use_type_invariant(self);
        }
        self.expected_len
    }

    /// The sequence number of the last consecutive frame taken.
    pub fn sequence_index(&self) -> (index: u8)
        ensures
            index == self@.sequence_index,
            self@.wf(),
    {
        proof {
            use_type_invariant(self);
        }
        self.sequence_index
    }

    /// The bytes reassembled so far.
    pub fn buffered(&self) -> (bytes: &[u8])
        ensures
            bytes@ == self@.buffer,
            self@.wf(),
    {
        proof {
            use_type_invariant(self);
        }
        buffer_as_slice(&self.buffer)
    }

    /// Puts the session at rest in `mode`: the buffer is discarded.
    fn rest(&mut self, mode: Mode)
        ensures
            final(self)@ == SessionView::at_rest(mode),
    {
        *self = DiagSession { mode, buffer: buffer_new(), expected_len: None, sequence_index: 0 };
    }

    /// Puts a block in flight: `held` is what was reassembled of it, short
    /// of the `expected` length, and `index` the sequence number of the
    /// last consecutive frame taken.
    fn hold(&mut self, held: heapless::Vec<u8, 255>, expected: u16, index: u8)
        requires
            old(self)@.mode != Mode::Idle,
            buffer_bytes(held).len() < expected <= BUFFER_CAPACITY,
            index < 16,
        ensures
            final(self)@ == (SessionView {
                mode: old(self)@.mode,
                buffer: buffer_bytes(held),
                expected_len: Some(expected),
                sequence_index: index,
            }),
    {
        *self = DiagSession {
            mode: self.mode,
            buffer: held,
            expected_len: Some(expected),
            sequence_index: index,
        };
    }
}

/// The diagnostic sequencer: the session and the values of the cycle.
#[derive(Debug)]
pub struct Sequencer {
    session: DiagSession,
    cycle: CycleReadings,
}

impl View for Sequencer {
    type V = SequencerView;

    closed spec fn view(&self) -> SequencerView {
        SequencerView { session: self.session@, cycle: self.cycle@ }
    }
}

impl Sequencer {
    /// An idle sequencer with nothing read.
    pub fn new() -> (sequencer: Sequencer)
        ensures
            sequencer@.session == SessionView::at_rest(Mode::Idle),
            sequencer@.cycle == CycleView::empty(),
            sequencer@.wf(),
    {
        Sequencer { session: DiagSession::new(), cycle: CycleReadings::new() }
    }

    /// The session.
    pub fn session(&self) -> (session: &DiagSession)
        ensures
            session@ == self@.session,
    {
        &self.session
    }

    /// The values read in the current cycle.
    pub fn cycle(&self) -> (cycle: &CycleReadings)
        ensures
            cycle@ == self@.cycle,
    {
        &self.cycle
    }

    /// Whether a block is being reassembled.
    pub fn in_flight(&self) -> (busy: bool)
        ensures
            busy == self@.in_flight(),
    {
        self.session.expected_len.is_some()
    }

    /// Gives the session up.
    fn abort(&mut self, error: DiagError) -> (event: DiagEvent)
        ensures
            final(self)@.wf(),
            (final(self)@, event) == aborted(old(self)@, error),
    {
        self.session.rest(Mode::Idle);
        proof {
            use_type_invariant(&self.cycle);
        }
        DiagEvent::Aborted(error)
    }

    /// Decodes a reassembled block and puts the session at rest.
    fn complete(&mut self, block: &[u8]) -> (event: DiagEvent)
        ensures
            final(self)@.wf(),
            (final(self)@, event) == completed(old(self)@, block@),
    {
        let mode = self.session.mode;
        let event = self.cycle.store_block(mode, block);
        self.session.rest(mode);
        event
    }

    /// Takes one frame received from the battery.
    pub fn on_frame(&mut self, frame: &CanFrame) -> (event: DiagEvent)
        ensures
            final(self)@.wf(),
            (final(self)@, event) == after_frame(old(self)@, frame@),
    {
        proof {
            use_type_invariant(&self.session);
            use_type_invariant(&self.cycle);
        }
        let from_battery = match frame.id() {
            CanId::Standard(raw) => raw == RESPONSE_ID,
            CanId::Extended(_) => false,
        };
        if !from_battery {
            return DiagEvent::Ignored;
        }
        let block = match self.session.mode.block() {
            Some(block) => block,
            None => {
                return DiagEvent::Ignored;
            },
        };
        let payload = frame.payload();
        let len: usize = payload.len();
        if len == 8 && payload[0] / 16 == 1 {
            let announced: u16 = ((payload[0] % 16) as u16) * 256 + (payload[1] as u16);
            if announced < ANSWER_HEADER || announced - ANSWER_HEADER > BUFFER_CAPACITY as u16 {
                return self.abort(DiagError::BadLength);
            }
            if payload[2] != SERVICE_POSITIVE || payload[3] != block {
                return self.abort(DiagError::UnexpectedBlock);
            }
            let expected: u16 = announced - ANSWER_HEADER;
            let take: usize = if expected < 4 {
                expected as usize
            } else {
                4
            };
            let data = slice_subrange(payload.as_slice(), 4, 4 + take);
            assert(data@ =~= up_to(payload@.subrange(4, 8), expected as int));
            if take >= expected as usize {
                self.complete(data)
            } else {
                let mut held = buffer_new();
                let appended = buffer_extend(&mut held, data);
                assert(buffer_bytes(held) =~= data@);
                self.session.hold(held, expected, 0);
                DiagEvent::Continue
            }
        } else if len >= 2 && payload[0] / 16 == 2 {
            match self.session.expected_len {
                None => DiagEvent::Ignored,
                Some(expected) => {
                    let due: u8 = if self.session.sequence_index >= 15 {
                        0
                    } else {
                        self.session.sequence_index + 1
                    };
                    if payload[0] % 16 != due {
                        return self.abort(DiagError::SequenceMismatch);
                    }
                    let before = buffer_as_slice(&self.session.buffer);
                    let room: usize = expected as usize - before.len();
                    let take: usize = if len - 1 > room {
                        room
                    } else {
                        len - 1
                    };
                    let data = slice_subrange(payload.as_slice(), 1, 1 + take);
                    assert(data@ =~= up_to(payload@.subrange(1, len as int), room as int));
                    let mut held = buffer_new();
                    let kept = buffer_extend(&mut held, before);
                    let appended = buffer_extend(&mut held, data);
                    assert(buffer_bytes(held) =~= before@ + data@);
                    if take >= room {
                        self.complete(buffer_as_slice(&held))
                    } else {
                        self.session.hold(held, expected, due);
                        DiagEvent::Continue
                    }
                },
            }
        } else {
            DiagEvent::Ignored
        }
    }

    /// Takes one tick of the request clock and hands back the request to
    /// send, if the new mode asks for a block.
    pub fn tick(&mut self) -> (request: Option<CanFrame>)
        ensures
            final(self)@.wf(),
            final(self)@ == after_tick(old(self)@),
            match final(self)@.session.mode.spec_block() {
                Some(block) => request.is_some() && request.unwrap()@ == (FrameView {
                    id: CanId::Standard(REQUEST_ID),
                    payload: request_payload(block),
                }),
                None => request.is_none(),
            },
    {
        proof {
            use_type_invariant(&self.session);
            use_type_invariant(&self.cycle);
        }
        let base = if self.session.expected_len.is_some() {
            Mode::Idle
        } else {
            self.session.mode
        };
        let mode = base.next();
        self.session.rest(mode);
        match mode {
            Mode::CellBank1 => {
                self.cycle = CycleReadings::new();
            },
            _ => {},
        }
        request_frame(mode)
    }
}

/// The data bytes of a run of consecutive frames, in order: of each frame
/// all but its first byte.
pub open spec fn consecutive_data(frames: Seq<Seq<u8>>) -> Seq<u8>
    decreases frames.len(),
{
    if frames.len() == 0 {
        Seq::<u8>::empty()
    } else {
        consecutive_data(frames.drop_last()) + frames.last().subrange(
            1,
            frames.last().len() as int,
        )
    }
}

/// The data bytes of an answer: bytes 4 to 7 of the first frame, then those
/// of the consecutive frames.
pub open spec fn answer_data(first: Seq<u8>, following: Seq<Seq<u8>>) -> Seq<u8> {
    first.subrange(4, 8) + consecutive_data(following)
}

/// Each frame of the run is a consecutive frame and carries the sequence
/// number that is due: 1 for the first, one more for each that follows,
/// and 0 after 15.
pub open spec fn well_sequenced(frames: Seq<Seq<u8>>) -> bool {
    forall|k: int|
        0 <= k < frames.len() ==> is_consecutive_frame(#[trigger] frames[k]) && frames[k][0] % 16
            == (k + 1) % 16
}

/// The sequencer after a run of payloads, each received under the answer
/// identifier.
pub open spec fn after_payloads(s: SequencerView, payloads: Seq<Seq<u8>>) -> SequencerView
    decreases payloads.len(),
{
    if payloads.len() == 0 {
        s
    } else {
        after_frame(
            after_payloads(s, payloads.drop_last()),
            FrameView { id: CanId::Standard(RESPONSE_ID), payload: payloads.last() },
        ).0
    }
}

/// A first frame that opens an answer to the block asked for, of a length
/// that the buffer holds.
pub open spec fn opens_answer(s: SequencerView, first: Seq<u8>) -> bool {
    &&& s.session.mode != Mode::Idle
    &&& is_first_frame(first)
    &&& ANSWER_HEADER <= announced_len(first) <= ANSWER_HEADER + BUFFER_CAPACITY
    &&& first[2] == SERVICE_POSITIVE
    &&& Some(first[3]) == s.session.mode.spec_block()
}

/// While the frames of a well-sequenced answer have not brought the expected
/// length together, the buffer holds exactly their data bytes, the expected
/// length is the announced length less the header, and the sequence index
/// counts the consecutive frames.
pub proof fn lemma_reassembly_in_flight(s: SequencerView, first: Seq<u8>, following: Seq<Seq<u8>>)
    requires
        opens_answer(s, first),
        well_sequenced(following),
        answer_data(first, following).len() < announced_len(first) - ANSWER_HEADER,
    ensures
        after_payloads(s, seq![first] + following) == (SequencerView {
            session: SessionView {
                mode: s.session.mode,
                buffer: answer_data(first, following),
                expected_len: Some((announced_len(first) - ANSWER_HEADER) as u16),
                sequence_index: (following.len() % 16) as u8,
            },
            cycle: s.cycle,
        }),
    decreases following.len(),
{
    let all = seq![first] + following;
    if following.len() == 0 {
        assert(all.drop_last() =~= Seq::<Seq<u8>>::empty());
        assert(all.last() == first);
        assert(after_payloads(s, all.drop_last()) == s);
        assert(answer_data(first, following) =~= first.subrange(4, 8));
    } else {
        let front = following.drop_last();
        let last = following.last();
        assert(all.drop_last() =~= seq![first] + front);
        assert(all.last() == last);
        assert(well_sequenced(front)) by {
            assert forall|k: int| 0 <= k < front.len() implies is_consecutive_frame(
                #[trigger] front[k],
            ) && front[k][0] % 16 == (k + 1) % 16 by {
                assert(front[k] == following[k]);
            }
        }
        assert(answer_data(first, following) =~= answer_data(first, front) + last.subrange(
            1,
            last.len() as int,
        ));
        lemma_reassembly_in_flight(s, first, front);
        assert(last == following[following.len() - 1]);
        assert(last[0] % 16 == following.len() % 16);
    }
}

/// Reassembly gives back what was sent: after the first frame of an answer
/// and its consecutive frames, each with the sequence number that is due,
/// the last of which brings the expected length together, the block that is
/// decoded is the first bytes of the frames' data, as many as the first
/// frame announced less the header; the session is at rest in its mode.
pub proof fn lemma_reassembly_round_trip(s: SequencerView, first: Seq<u8>, following: Seq<Seq<u8>>)
    requires
        opens_answer(s, first),
        well_sequenced(following),
        answer_data(first, following).len() >= announced_len(first) - ANSWER_HEADER,
        following.len() > 0 ==> answer_data(first, following.drop_last()).len() < announced_len(
            first,
        ) - ANSWER_HEADER,
    ensures
        after_payloads(s, seq![first] + following) == completed(
            s,
            answer_data(first, following).take(announced_len(first) - ANSWER_HEADER),
        ).0,
{
    let all = seq![first] + following;
    let expected = announced_len(first) - ANSWER_HEADER;
    let block = answer_data(first, following).take(expected);
    if following.len() == 0 {
        assert(all.drop_last() =~= Seq::<Seq<u8>>::empty());
        assert(all.last() == first);
        assert(after_payloads(s, all.drop_last()) == s);
        assert(answer_data(first, following) =~= first.subrange(4, 8));
        assert(up_to(first.subrange(4, 8), expected) =~= block);
    } else {
        let front = following.drop_last();
        let last = following.last();
        assert(all.drop_last() =~= seq![first] + front);
        assert(all.last() == last);
        assert(well_sequenced(front)) by {
            assert forall|k: int| 0 <= k < front.len() implies is_consecutive_frame(
                #[trigger] front[k],
            ) && front[k][0] % 16 == (k + 1) % 16 by {
                assert(front[k] == following[k]);
            }
        }
        lemma_reassembly_in_flight(s, first, front);
        let held = answer_data(first, front);
        let data = last.subrange(1, last.len() as int);
        assert(answer_data(first, following) =~= held + data);
        assert(last == following[following.len() - 1]);
        assert(last[0] % 16 == following.len() % 16);
        assert(held + up_to(data, expected - held.len()) =~= block);
    }
}

} // verus!
