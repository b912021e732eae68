use battery_gateway::blocks::TemperatureRange;
use battery_gateway::diag::{CycleReadings, Mode};
use battery_gateway::encoder::{encode, encode_byd, encode_for, Protocol, Responder};
use battery_gateway::telemetry::{CommsState, Telemetry};
use battery_gateway::frame::{CanFrame, CanId};
use battery_gateway::rapid::{decode, ParseError, RapidGroup, RapidProcessor};
use battery_gateway::state::{CanonicalBatteryState, Limits, PackReadings, StateError};
use battery_gateway::supervisor::{
    classify_diag, classify_rapid, LinkHealth, SafetyLatch, SafetySupervisor,
};
use battery_gateway::diag::{DiagError, DiagEvent};

fn broadcast(raw: u16, payload: &[u8]) -> CanFrame {
    CanFrame::new(CanId::standard(raw).unwrap(), payload).unwrap()
}

fn group() -> RapidGroup {
    RapidGroup {
        charge_limit_da: 500,
        current_ma: 1000,
        soc_percent: 42,
        pack_temp_dc: 225,
        kwh_remaining_x100: 1250,
    }
}

/// The two cell banks of a pack whose cells read `low` but for the second,
/// which reads `high`, and the pack voltage behind them.
fn banks(low: u16, high: u16, voltage_cv: u16) -> (Vec<u8>, Vec<u8>) {
    let mut bytes = Vec::new();
    for i in 0..96 {
        let cell = if i == 1 { high } else { low };
        bytes.extend_from_slice(&cell.to_be_bytes());
    }
    bytes.extend_from_slice(&voltage_cv.to_be_bytes());
    let second = bytes.split_off(124);
    (bytes, second)
}

fn cycle_of(low: u16, high: u16, voltage_cv: u16, min_c: i8, max_c: i8) -> CycleReadings {
    let (first, second) = banks(low, high, voltage_cv);
    let mut cycle = CycleReadings::new();
    assert_eq!(cycle.store_block(Mode::CellBank1, &first), DiagEvent::BlockStored);
    assert_eq!(cycle.store_block(Mode::CellBank2, &second), DiagEvent::BlockStored);
    let temperatures = [0, 0, max_c as u8, 0, 0, min_c as u8];
    assert_eq!(cycle.store_block(Mode::Temperature, &temperatures), DiagEvent::BlockStored);
    assert_eq!(cycle.store_block(Mode::Balance, &[0xFF; 12]), DiagEvent::CycleComplete);
    cycle
}

fn cycle() -> CycleReadings {
    cycle_of(4000, 4100, 37550, 22, 23)
}

fn limits() -> Limits {
    Limits { max_charge_da: 660, max_discharge_da: 350, dod_min_percent: 0, dod_max_percent: 100 }
}

fn valid_state() -> CanonicalBatteryState {
    let mut state = CanonicalBatteryState::new();
    assert_eq!(state.commit_rapid(&group(), &limits(), 100), Ok(()));
    assert_eq!(state.commit_cycle(&cycle(), 200), Ok(()));
    state
}

#[test]
fn broadcast_group_decodes_to_hand_computed_values() {
    let mut processor = RapidProcessor::new();
    let r1 = processor.process(&broadcast(0x155, &[0x2E, 0x47, 0xCB, 0x54, 0x67, 0x00, 0x02, 0xD9]));
    assert_eq!(r1, Ok(false));
    let r2 = processor.process(&broadcast(0x424, &[0x11, 0x40, 0x56, 0x84, 0x39, 0x6C, 0xF8, 0x3C]));
    assert_eq!(r2, Ok(false));
    let r3 = processor.process(&broadcast(0x425, &[0x24, 0xDC, 0x44, 0x9C, 0x42, 0x2E, 0xE1, 0x15]));
    assert_eq!(r3, Ok(false));
    let r4 = processor.process(&broadcast(0x4AE, &[0x24, 0xDC, 0x44, 0x9C, 0x42, 0x2E, 0xE1, 0x15]));
    assert_eq!(r4, Ok(true));
    assert_eq!(processor.group.soc_percent, 65);
    assert_eq!(processor.group.charge_limit_da, 460);
    assert_eq!(processor.group.current_ma, -1250);
    assert_eq!(processor.group.kwh_remaining_x100, 2200);
    assert_eq!(processor.group.pack_temp_dc, 170);
    assert!(!processor.seen_status && !processor.seen_end);
    let again = processor.process(&broadcast(0x4AE, &[]));
    assert_eq!(again, Ok(false));
}

#[test]
fn group_completes_in_any_order_and_only_when_all_were_seen() {
    let mut processor = RapidProcessor::new();
    assert_eq!(processor.process(&broadcast(0x4AE, &[0; 8])), Ok(false));
    assert_eq!(processor.process(&broadcast(0x425, &[0x01, 0x00])), Ok(false));
    assert_eq!(processor.process(&broadcast(0x425, &[0x01, 0x02])), Ok(false));
    assert_eq!(processor.process(&broadcast(0x424, &[0, 0, 0, 0, 30])), Ok(false));
    assert_eq!(processor.process(&broadcast(0x155, &[10, 0x07, 0xD0, 0, 0x9C, 0x40])), Ok(true));
    assert_eq!(processor.group.kwh_remaining_x100, 2580);
    assert_eq!(processor.group.pack_temp_dc, -100);
    assert_eq!(processor.group.charge_limit_da, 100);
    assert_eq!(processor.group.current_ma, 0);
    assert_eq!(processor.group.soc_percent, 100);
}

#[test]
fn broadcast_that_cannot_be_decoded_changes_nothing() {
    let mut processor = RapidProcessor::new();
    assert_eq!(processor.process(&broadcast(0x155, &[0x2E, 0x47, 0xCB, 0x54, 0x67, 0x00])), Ok(false));
    let before = processor;
    assert_eq!(processor.process(&broadcast(0x155, &[1, 2, 3, 4, 5])), Err(ParseError::TooShort));
    assert_eq!(processor, before);
    assert_eq!(
        processor.process(&broadcast(0x155, &[1, 2, 3, 4, 0x9C, 0x41])),
        Err(ParseError::OutOfRange)
    );
    assert_eq!(processor, before);
    assert_eq!(processor.process(&broadcast(0x424, &[1, 2, 3, 4])), Err(ParseError::TooShort));
    assert_eq!(processor.process(&broadcast(0x425, &[1])), Err(ParseError::TooShort));
    assert_eq!(processor.process(&broadcast(0x7BB, &[0; 8])), Err(ParseError::UnknownId));
    let extended = CanFrame::new(CanId::extended(0x155).unwrap(), &[0; 8]).unwrap();
    assert_eq!(processor.process(&extended), Err(ParseError::UnknownId));
    assert_eq!(processor, before);
}

#[test]
fn current_field_covers_its_twelve_bits() {
    let base = RapidProcessor::new().group;
    let low = decode(&base, 0x155, &broadcast(0x155, &[0, 0xF0, 0x00, 0, 0, 0])).unwrap();
    assert_eq!(low.current_ma, -500_000);
    let high = decode(&base, 0x155, &broadcast(0x155, &[255, 0x0F, 0xFF, 0, 0, 0])).unwrap();
    assert_eq!(high.current_ma, 523_750);
    assert_eq!(high.charge_limit_da, 2550);
    let energy = decode(&base, 0x425, &broadcast(0x425, &[0xFF, 0xFF])).unwrap();
    assert_eq!(energy.kwh_remaining_x100, 5110);
    let warm = decode(&base, 0x424, &broadcast(0x424, &[0, 0, 0, 0, 255])).unwrap();
    assert_eq!(warm.pack_temp_dc, 2150);
}

#[test]
fn each_complete_update_leaves_the_state_valid() {
    let mut state = CanonicalBatteryState::new();
    assert!(!state.valid());
    assert!(!state.updated());
    assert_eq!(state.last_update_ms(), 0);
    assert_eq!(state.commit_rapid(&group(), &limits(), 100), Ok(()));
    assert!(state.valid());
    assert!(state.updated());
    assert_eq!(state.last_update_ms(), 100);
    assert_eq!(state.cell_max_mv(), 0);
    assert_eq!(state.commit_cycle(&cycle(), 200), Ok(()));
    assert!(state.valid());
    assert_eq!(state.last_update_ms(), 200);
    assert_eq!(state.pack_voltage_cv(), 37550);
    assert_eq!(state.current_ma(), 1000);
    assert_eq!(state.soc_percent(), 42);
    assert_eq!(state.cell_min_mv(), 4000);
    assert_eq!(state.cell_max_mv(), 4100);
    assert_eq!(state.temp_min_c(), 22);
    assert_eq!(state.temp_max_c(), 23);
    assert_eq!(state.pack_temp_dc(), 225);
    assert_eq!(state.balancing_cells(), 0);
    assert_eq!(state.kwh_remaining_x100(), 1250);
    assert_eq!(state.charge_limit_da(), 500);
    assert_eq!(state.discharge_limit_da(), 350);
    let mut other = CanonicalBatteryState::new();
    assert_eq!(other.commit_cycle(&cycle(), 5), Ok(()));
    assert!(other.valid());
    assert_eq!(other.soc_percent(), 0);
    assert_eq!(other.commit_rapid(&group(), &limits(), 6), Ok(()));
    assert!(other.valid());
}

#[test]
fn charge_limit_is_capped_by_the_installation() {
    let mut state = CanonicalBatteryState::new();
    let tight = Limits { max_charge_da: 300, max_discharge_da: 120, ..limits() };
    assert_eq!(state.commit_rapid(&group(), &tight, 1), Ok(()));
    assert_eq!(state.charge_limit_da(), 300);
    assert_eq!(state.discharge_limit_da(), 120);
}

#[test]
fn depth_of_discharge_window_stops_the_current_at_its_ends() {
    let window = Limits { dod_min_percent: 20, dod_max_percent: 80, ..limits() };
    assert!(window.is_window_ok());
    assert!(!Limits { dod_min_percent: 81, ..window }.is_window_ok());
    assert!(!Limits { dod_max_percent: 101, ..window }.is_window_ok());
    assert!(Limits { dod_min_percent: 80, ..window }.is_window_ok());
    let mut state = CanonicalBatteryState::new();
    let at = |soc: u8| RapidGroup { soc_percent: soc, ..group() };
    assert_eq!(state.commit_rapid(&at(42), &window, 1), Ok(()));
    assert_eq!((state.charge_limit_da(), state.discharge_limit_da()), (500, 350));
    assert_eq!(state.commit_rapid(&at(20), &window, 2), Ok(()));
    assert_eq!((state.charge_limit_da(), state.discharge_limit_da()), (500, 0));
    assert_eq!(state.commit_rapid(&at(21), &window, 3), Ok(()));
    assert_eq!((state.charge_limit_da(), state.discharge_limit_da()), (500, 350));
    assert_eq!(state.commit_rapid(&at(80), &window, 4), Ok(()));
    assert_eq!((state.charge_limit_da(), state.discharge_limit_da()), (0, 350));
    assert_eq!(state.commit_rapid(&at(79), &window, 5), Ok(()));
    assert_eq!((state.charge_limit_da(), state.discharge_limit_da()), (500, 350));
    assert_eq!(state.commit_rapid(&at(100), &limits(), 6), Ok(()));
    assert_eq!((state.charge_limit_da(), state.discharge_limit_da()), (0, 350));
    assert_eq!(state.commit_rapid(&at(0), &limits(), 7), Ok(()));
    assert_eq!((state.charge_limit_da(), state.discharge_limit_da()), (500, 0));
}

#[test]
fn pack_readings_merge_in_the_units_of_the_state() {
    let mut state = CanonicalBatteryState::new();
    let pack = PackReadings {
        pack_volts_dv: 3856,
        current_da: -10,
        kwh_remaining_dkwh: 125,
        soc_percent: 40,
    };
    assert_eq!(state.commit_pack(&pack, 50), Ok(()));
    assert!(state.valid());
    assert_eq!(state.last_update_ms(), 50);
    assert_eq!(state.pack_voltage_cv(), 38560);
    assert_eq!(state.current_ma(), -1000);
    assert_eq!(state.kwh_remaining_x100(), 1250);
    assert_eq!(state.soc_percent(), 40);
    let before = state;
    for bad in [
        PackReadings { pack_volts_dv: 6554, ..pack },
        PackReadings { current_da: 30001, ..pack },
        PackReadings { current_da: -30001, ..pack },
        PackReadings { kwh_remaining_dkwh: 6554, ..pack },
        PackReadings { soc_percent: 101, ..pack },
    ] {
        let mut state = before;
        assert_eq!(state.commit_pack(&bad, 60), Err(StateError::OutOfRange));
        assert!(!state.valid());
        assert!(state.updated());
        assert_eq!(state.pack_voltage_cv(), 38560);
        assert_eq!(state.last_update_ms(), 50);
    }
    let edge = PackReadings {
        pack_volts_dv: 6553,
        current_da: 30000,
        kwh_remaining_dkwh: 6553,
        soc_percent: 100,
    };
    assert_eq!(state.commit_pack(&edge, 70), Ok(()));
    assert_eq!(state.pack_voltage_cv(), 65530);
    assert_eq!(state.current_ma(), 3_000_000);
    assert_eq!(state.kwh_remaining_x100(), 65530);
}

#[test]
fn timestamp_never_goes_back() {
    let mut state = valid_state();
    assert_eq!(state.last_update_ms(), 200);
    assert_eq!(state.commit_rapid(&group(), &limits(), 150), Ok(()));
    assert_eq!(state.last_update_ms(), 200);
    assert_eq!(state.commit_cycle(&cycle(), 10), Ok(()));
    assert_eq!(state.last_update_ms(), 200);
    assert_eq!(state.commit_cycle(&cycle(), 201), Ok(()));
    assert_eq!(state.last_update_ms(), 201);
}

/// What the state reads, but for `valid`.
fn values(state: &CanonicalBatteryState) -> [i64; 13] {
    [
        state.pack_voltage_cv() as i64,
        state.current_ma() as i64,
        state.soc_percent() as i64,
        state.cell_min_mv() as i64,
        state.cell_max_mv() as i64,
        state.temp_min_c() as i64,
        state.temp_max_c() as i64,
        state.pack_temp_dc() as i64,
        state.balancing_cells() as i64,
        state.kwh_remaining_x100() as i64,
        state.charge_limit_da() as i64,
        state.discharge_limit_da() as i64,
        state.last_update_ms() as i64,
    ]
}

#[test]
fn refused_update_writes_nothing_and_clears_valid() {
    let before = valid_state();
    let mut bad = group();
    bad.soc_percent = 101;
    let mut state = before;
    assert_eq!(state.commit_rapid(&bad, &limits(), 900), Err(StateError::OutOfRange));
    assert!(!state.valid());
    assert!(state.updated());
    assert_eq!(values(&state), values(&before));
    assert!(encode(&state).is_empty());
    assert_eq!(state.commit_rapid(&group(), &limits(), 901), Ok(()));
    assert!(state.valid());
    assert_eq!(encode(&state).len(), 7);
    for current in [3_000_001, -3_000_001] {
        let mut state = before;
        bad = group();
        bad.current_ma = current;
        assert_eq!(state.commit_rapid(&bad, &limits(), 900), Err(StateError::OutOfRange));
        assert!(!state.valid());
        assert_eq!(values(&state), values(&before));
    }
    let (first, second) = banks(4000, 4100, 37550);
    let mut partial = CycleReadings::new();
    let mut state = before;
    assert_eq!(state.commit_cycle(&partial, 900), Err(StateError::IncompleteCycle));
    assert!(!state.valid());
    assert_eq!(values(&state), values(&before));
    partial.store_block(Mode::CellBank1, &first);
    assert_eq!(state.commit_cycle(&partial, 900), Err(StateError::IncompleteCycle));
    partial.store_block(Mode::CellBank2, &second);
    assert_eq!(state.commit_cycle(&partial, 900), Err(StateError::IncompleteCycle));
    partial.store_block(Mode::Balance, &[0xFF; 12]);
    assert_eq!(state.commit_cycle(&partial, 900), Err(StateError::IncompleteCycle));
    let mut partial = CycleReadings::new();
    partial.store_block(Mode::CellBank1, &first);
    partial.store_block(Mode::CellBank2, &second[..68]);
    partial.store_block(Mode::Temperature, &[0, 0, 23, 0, 0, 22]);
    assert_eq!(partial.store_block(Mode::Balance, &[0xFF; 12]), DiagEvent::CycleComplete);
    assert!(partial.is_complete());
    assert_eq!(partial.pack_voltage_cv(), None);
    let mut state = before;
    assert_eq!(state.commit_cycle(&partial, 900), Err(StateError::IncompleteCycle));
    assert!(!state.valid());
    assert_eq!(values(&state), values(&before));
    let mut fresh = CanonicalBatteryState::new();
    assert_eq!(fresh.commit_rapid(&bad, &limits(), 900), Err(StateError::OutOfRange));
    assert!(!fresh.valid());
    assert!(!fresh.updated());
}

#[test]
fn valid_state_encodes_to_the_fixed_frame_set() {
    let frames = encode(&valid_state());
    let expected: [(u32, [u8; 8]); 7] = [
        (0x1877, [0, 0, 0, 0, 0, 0, 247, 22]),
        (0x1872, [0xa0, 0x0f, 0xb8, 0x0b, 0xf4, 0x01, 0x5e, 0x01]),
        (0x1873, [0xab, 0x0e, 0x0a, 0x00, 0x2a, 0x00, 0xe2, 0x04]),
        (0x1874, [0xe6, 0x00, 0xdc, 0x00, 0x29, 0x00, 0x28, 0x00]),
        (0x1875, [0xe1, 0x00, 0x01, 0x00, 0x01, 0x00, 0x00, 0x00]),
        (0x1876, [0x01, 0x00, 0x04, 0x10, 0x00, 0x00, 0xa0, 0x0f]),
        (0x1878, [0xab, 0x0e, 0x00, 0x00, 0x10, 0x27, 0x00, 0x00]),
    ];
    assert_eq!(frames.len(), 7);
    for (frame, (raw, payload)) in frames.iter().zip(expected.iter()) {
        assert_eq!(frame.id(), CanId::Extended(*raw));
        assert_eq!(frame.len(), 8);
        assert_eq!(frame.payload(), payload.to_vec());
    }
}

#[test]
fn state_that_is_not_valid_encodes_to_nothing() {
    assert!(encode(&CanonicalBatteryState::new()).is_empty());
    assert!(encode_byd(&CanonicalBatteryState::new()).is_empty());
    let mut state = CanonicalBatteryState::new();
    assert_eq!(state.commit_rapid(&group(), &limits(), 100), Ok(()));
    assert_eq!(encode(&state).len(), 7);
    let mut bad = group();
    bad.soc_percent = 200;
    assert_eq!(state.commit_rapid(&bad, &limits(), 100), Err(StateError::OutOfRange));
    assert!(encode(&state).is_empty());
    assert!(encode_byd(&state).is_empty());
}

#[test]
fn negative_values_go_out_in_twos_complement() {
    let mut state = CanonicalBatteryState::new();
    let mut rapid = group();
    rapid.current_ma = -1250;
    rapid.pack_temp_dc = -15;
    let read = cycle_of(3771, 3797, 36377, -5, -1);
    assert_eq!(read.temperatures(), Some(TemperatureRange { min_c: -5, max_c: -1 }));
    assert_eq!(state.commit_rapid(&rapid, &limits(), 1), Ok(()));
    assert_eq!(state.commit_cycle(&read, 1), Ok(()));
    let frames = encode(&state);
    assert_eq!(frames[2].payload(), vec![0x35, 0x0e, 0xf4, 0xff, 0x2a, 0x00, 0xe2, 0x04]);
    assert_eq!(frames[3].payload(), vec![0xf6, 0xff, 0xce, 0xff, 37, 0, 37, 0]);
    assert_eq!(frames[4].payload(), vec![0xf1, 0xff, 1, 0, 1, 0, 0, 0]);
    assert_eq!(frames[5].payload(), vec![1, 0, 0xd5, 0x0e, 0, 0, 0xbb, 0x0e]);
    assert_eq!(frames[6].payload(), vec![0x35, 0x0e, 0, 0, 0x10, 0x27, 0, 0]);
}

#[test]
fn every_valid_state_gives_the_same_identifiers() {
    let a = encode(&valid_state());
    let mut state = valid_state();
    let mut rapid = group();
    rapid.soc_percent = 100;
    rapid.current_ma = -3_000_000;
    assert_eq!(state.commit_rapid(&rapid, &limits(), 500), Ok(()));
    let b = encode(&state);
    assert_eq!(a.len(), b.len());
    for (x, y) in a.iter().zip(b.iter()) {
        assert_eq!(x.id(), y.id());
    }
    assert_eq!(b[2].payload(), vec![0xab, 0x0e, 0xd0, 0x8a, 100, 0, 0xe2, 0x04]);
}

#[test]
fn stale_update_is_unsafe() {
    let supervisor = SafetySupervisor::default();
    assert_eq!(supervisor.threshold_ms, 10_000);
    let state = valid_state();
    assert!(supervisor.evaluate(200, 200, &state, LinkHealth::Nominal));
    assert!(supervisor.evaluate(10_200, 200, &state, LinkHealth::Nominal));
    assert!(!supervisor.evaluate(10_201, 200, &state, LinkHealth::Nominal));
    assert!(!supervisor.evaluate(u64::MAX, 200, &state, LinkHealth::Nominal));
    assert!(supervisor.evaluate(100, 200, &state, LinkHealth::Nominal));
    let quick = SafetySupervisor::new(0);
    assert!(quick.evaluate(200, 200, &state, LinkHealth::Nominal));
    assert!(!quick.evaluate(201, 200, &state, LinkHealth::Nominal));
}

#[test]
fn critical_error_and_a_state_never_updated_are_unsafe() {
    let supervisor = SafetySupervisor::default();
    let state = valid_state();
    assert!(supervisor.evaluate(300, 200, &state, LinkHealth::Warning));
    assert!(!supervisor.evaluate(300, 200, &state, LinkHealth::Critical));
    let mut fresh = CanonicalBatteryState::new();
    assert!(!supervisor.evaluate(0, 0, &fresh, LinkHealth::Nominal));
    assert_eq!(fresh.commit_rapid(&group(), &limits(), 10), Ok(()));
    assert!(supervisor.evaluate(10, 10, &fresh, LinkHealth::Nominal));
    let mut other = CanonicalBatteryState::new();
    assert_eq!(other.commit_cycle(&cycle(), 10), Ok(()));
    assert!(supervisor.evaluate(10, 10, &other, LinkHealth::Nominal));
    let mut bad = group();
    bad.soc_percent = 101;
    assert_eq!(fresh.commit_rapid(&bad, &limits(), 20), Err(StateError::OutOfRange));
    assert!(supervisor.evaluate(20, fresh.last_update_ms(), &fresh, LinkHealth::Warning));
}

#[test]
fn evaluation_repeats_itself() {
    let supervisor = SafetySupervisor::default();
    let state = valid_state();
    for now in [0u64, 200, 10_200, 10_201, 50_000] {
        for health in [LinkHealth::Nominal, LinkHealth::Warning, LinkHealth::Critical] {
            let first = supervisor.evaluate(now, 200, &state, health);
            let second = supervisor.evaluate(now, 200, &state, health);
            assert_eq!(first, second);
        }
    }
}

#[test]
fn errors_are_classified_by_their_kind() {
    assert_eq!(classify_diag(DiagEvent::Aborted(DiagError::UnexpectedBlock)), LinkHealth::Critical);
    assert_eq!(classify_diag(DiagEvent::Aborted(DiagError::SequenceMismatch)), LinkHealth::Warning);
    assert_eq!(classify_diag(DiagEvent::Aborted(DiagError::BadLength)), LinkHealth::Warning);
    assert_eq!(classify_diag(DiagEvent::BlockRejected), LinkHealth::Warning);
    assert_eq!(classify_diag(DiagEvent::Ignored), LinkHealth::Nominal);
    assert_eq!(classify_diag(DiagEvent::Continue), LinkHealth::Nominal);
    assert_eq!(classify_diag(DiagEvent::BlockStored), LinkHealth::Nominal);
    assert_eq!(classify_diag(DiagEvent::CycleComplete), LinkHealth::Nominal);
    assert_eq!(classify_rapid(Ok(true)), LinkHealth::Nominal);
    assert_eq!(classify_rapid(Ok(false)), LinkHealth::Nominal);
    assert_eq!(classify_rapid(Err(ParseError::TooShort)), LinkHealth::Warning);
    assert_eq!(classify_rapid(Err(ParseError::OutOfRange)), LinkHealth::Warning);
    assert_eq!(classify_rapid(Err(ParseError::UnknownId)), LinkHealth::Warning);
}

#[test]
fn latch_keeps_the_latest_value_only() {
    let mut latch = SafetyLatch::new();
    assert_eq!(latch.peek(), None);
    assert_eq!(latch.take(), None);
    latch.signal(true);
    latch.signal(false);
    assert_eq!(latch.peek(), Some(false));
    assert_eq!(latch.take(), Some(false));
    assert_eq!(latch.take(), None);
    latch.signal(false);
    latch.signal(true);
    assert_eq!(latch.take(), Some(true));
}

#[test]
fn valid_state_encodes_to_the_periodic_frame_set() {
    let frames = encode_byd(&valid_state());
    let expected: [(u16, [u8; 8]); 10] = [
        (0x618, [0x0, b'B', b'Y', b'D', 0x0, 0x0, 0x0, 0x0]),
        (0x5d8, [0x0, b'B', b'Y', b'D', 0x0, 0x0, 0x0, 0x0]),
        (0x558, [0x3, 0x13, 0x0, 0x4, 0x03, 0x20, 0x5, 0x7]),
        (0x598, [0x0, 0x0, 0x12, 0x34, 0x0, 0x0, 0x4, 0x4f]),
        (0x358, [0x19, 0x64, 0x12, 0xc0, 0x01, 0x5e, 0x01, 0xf4]),
        (0x3d8, [0x00, 0x7d, 0x00, 0x7d, 0x0, 0x0, 0xf9, 0x0]),
        (0x458, [0x0, 0x0, 0x12, 0x34, 0x0, 0x0, 0x56, 0x78]),
        (0x518, [0x00, 0xe6, 0x00, 0xdc, 0xff, 0xff, 0xff, 0xff]),
        (0x4d8, [0x0e, 0xab, 0x00, 0x0a, 0x00, 0xe1, 0x3, 0x8]),
        (0x158, [0x0, 0x0, 0x0, 0x0, 0x0, 0x0, 0x0, 0x0]),
    ];
    assert_eq!(frames.len(), 10);
    for (frame, (raw, payload)) in frames.iter().zip(expected.iter()) {
        assert_eq!(frame.id(), CanId::Standard(*raw));
        assert_eq!(frame.payload(), payload.to_vec());
    }
    assert!(encode_byd(&CanonicalBatteryState::new()).is_empty());
}

#[test]
fn protocol_selects_the_frame_set() {
    let state = valid_state();
    assert_eq!(encode_for(Protocol::Solax, &state), encode(&state));
    assert_eq!(encode_for(Protocol::Byd, &state), encode_byd(&state));
    assert!(encode_for(Protocol::Byd, &CanonicalBatteryState::new()).is_empty());
}

#[test]
fn snapshot_takes_the_state_over() {
    let mut snapshot = Telemetry::default();
    assert_eq!(snapshot.soc_percent, 0);
    assert!(!snapshot.valid);
    snapshot.update(&valid_state());
    assert_eq!(
        snapshot,
        Telemetry {
            soc_percent: 42,
            pack_voltage_cv: 37550,
            cell_mv_high: 4100,
            cell_mv_low: 4000,
            cell_temp_high_c: 23,
            cell_temp_low_c: 22,
            current_ma: 1000,
            kwh_x100: 1250,
            charge_da: 500,
            discharge_da: 350,
            bal: 0,
            valid: true,
        }
    );
    assert_ne!(CommsState::UpdateMqtt, CommsState::CAN1RX);
}

#[test]
fn export_is_due_once_the_period_has_passed() {
    assert!(!Telemetry::is_due(9_999, 0, 10_000));
    assert!(Telemetry::is_due(10_000, 0, 10_000));
    assert!(Telemetry::is_due(25_000, 15_000, 10_000));
    assert!(!Telemetry::is_due(5, 10, 0));
    assert!(Telemetry::is_due(10, 10, 0));
}

#[test]
fn solax_can_test() {
    let mut solax = Responder::new();
    let mut bms = CanonicalBatteryState::new();
    {
        let rapid = RapidGroup {
            soc_percent: 42,
            charge_limit_da: 500,
            current_ma: 1000,
            kwh_remaining_x100: 1250,
            pack_temp_dc: 225,
        };
        let limits = Limits {
            max_charge_da: 500,
            max_discharge_da: 350,
            dod_min_percent: 0,
            dod_max_percent: 100,
        };
        bms.commit_rapid(&rapid, &limits, 0).unwrap();
        bms.commit_cycle(&cycle_of(4000, 4100, 37550, 22, 23), 0).unwrap();
        assert!(bms.valid());
    }
    let response = solax.answer(&bms, true);
    {
        let mut testf = response.iter();
        let f = testf.next();
        assert_eq!(0, f.unwrap().len());
        assert!(CanId::Extended(0x100A001) == f.unwrap().id());
        let f = testf.next();
        assert_eq!(None, f);
    }
    let response = solax.answer(&bms, true);
    {
        let mut f = response.iter();

        let testf = f.next().unwrap();
        assert_eq!(8, testf.len());
        assert!(CanId::Extended(0x1877) == testf.id());
        assert_eq!([0, 0, 0, 0, 0, 0, 247, 22][..], testf.payload()[..]);

        let testf = f.next().unwrap();
        assert!(CanId::Extended(0x1872) == testf.id());
        assert_eq!([0xa0, 0x0f, 0xb8, 0x0b, 0xf4, 0x01, 0x5e, 0x01][..], testf.payload()[..]);

        let testf = f.next().unwrap();
        assert!(CanId::Extended(0x1873) == testf.id());
        assert_eq!([0xab, 0x0e, 0x0a, 0x00, 0x2a, 0x00, 0xe2, 0x04][..], testf.payload()[..]);

        let testf = f.next().unwrap();
        assert!(CanId::Extended(0x1874) == testf.id());
        assert_eq!([0xe6, 0x00, 0xdc, 0x00, 0x29, 0x00, 0x28, 0x00][..], testf.payload()[..]);

        let testf = f.next().unwrap();
        assert!(CanId::Extended(0x1875) == testf.id());
        assert_eq!([0xe1, 0x00, 0x01, 0x00, 0x01, 0x00, 0x00, 0x00][..], testf.payload()[..]);

        let testf = f.next().unwrap();
        assert!(CanId::Extended(0x1876) == testf.id());
        assert_eq!([0x01, 0x00, 0x04, 0x10, 0x00, 0x00, 0xa0, 0x0f][..], testf.payload()[..]);

        let testf = f.next().unwrap();
        assert!(CanId::Extended(0x1878) == testf.id());
        assert_eq!([0xab, 0x0e, 0x00, 0x00, 0x10, 0x27, 0x00, 0x00][..], testf.payload()[..]);
        assert_eq!(None, f.next());
    }
}

#[test]
fn responder_announces_anew_after_an_unsafe_request() {
    let mut responder = Responder::new();
    let state = valid_state();
    assert!(responder.answer(&state, false).is_empty());
    assert!(!responder.announced);
    assert_eq!(responder.answer(&state, true).len(), 1);
    assert!(responder.announced);
    assert_eq!(responder.answer(&state, true).len(), 7);
    assert_eq!(responder.answer(&state, true), encode(&state));
    assert!(responder.answer(&state, false).is_empty());
    assert_eq!(responder.answer(&state, true).len(), 1);
    assert_eq!(responder.answer(&CanonicalBatteryState::new(), true).len(), 0);
}
