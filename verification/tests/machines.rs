use battery_gateway::contactor::{
    ContactorAction, ContactorDriver, ContactorEvent, ContactorState, PULL_IN_DELAY_MS,
};
use battery_gateway::frame::{CanFrame, CanId};
use battery_gateway::keepalive::{keepalive_frames, update_flag, KEEPALIVE_PERIOD_MS};
use battery_gateway::leaf::{
    balancing, cell_pairs, group_reading, pack_current, rest_decision, temperatures, Activity,
    CellPairs, CellTemperatures, GroupReading, LeafMode, Rest,
};
use battery_gateway::state::{CanonicalBatteryState, PackReadings, StateError};
use battery_gateway::link::{BusLink, FrameQueue, LinkCounters, Received, TransmitOutcome};
use battery_gateway::rapid::ParseError;
use battery_gateway::router::Bus;
use battery_gateway::tesla::{mark, Collector, Data};

fn frame(raw: u16, payload: &[u8]) -> CanFrame {
    CanFrame::new(CanId::standard(raw).unwrap(), payload).unwrap()
}

#[test]
fn contactor_pulls_in_then_holds() {
    let mut driver = ContactorDriver::new(1000);
    assert_eq!(PULL_IN_DELAY_MS, 100);
    assert_eq!(driver.state(), ContactorState::Open);
    assert_eq!(driver.duty(), 0);
    assert_eq!(driver.step(ContactorEvent::Enable), ContactorAction::Energize);
    assert_eq!(driver.state(), ContactorState::Energizing);
    assert_eq!(driver.duty(), 1000);
    assert_eq!(driver.step(ContactorEvent::PullInElapsed), ContactorAction::Hold);
    assert_eq!(driver.state(), ContactorState::Holding);
    assert_eq!(driver.duty(), 750);
    assert_eq!(driver.step(ContactorEvent::Disable), ContactorAction::Release);
    assert_eq!(driver.state(), ContactorState::Open);
    assert_eq!(driver.duty(), 0);
}

#[test]
fn holding_duty_is_three_quarters_rounded_down_by_quarters() {
    let mut driver = ContactorDriver::new(1023);
    driver.step(ContactorEvent::Enable);
    driver.step(ContactorEvent::PullInElapsed);
    assert_eq!(driver.duty(), 765);
    let mut driver = ContactorDriver::new(u16::MAX);
    driver.step(ContactorEvent::Enable);
    assert_eq!(driver.duty(), 65535);
    driver.step(ContactorEvent::PullInElapsed);
    assert_eq!(driver.duty(), 49149);
    let mut driver = ContactorDriver::new(3);
    driver.step(ContactorEvent::Enable);
    driver.step(ContactorEvent::PullInElapsed);
    assert_eq!(driver.duty(), 0);
}

#[test]
fn disable_before_pull_in_completes_opens_at_once() {
    let mut driver = ContactorDriver::new(1000);
    assert_eq!(driver.on_verdict(true), ContactorAction::Energize);
    assert_eq!(driver.on_verdict(false), ContactorAction::Release);
    assert_eq!(driver.state(), ContactorState::Open);
    assert_eq!(driver.duty(), 0);
    assert_eq!(driver.step(ContactorEvent::PullInElapsed), ContactorAction::Unchanged);
    assert_eq!(driver.state(), ContactorState::Open);
    assert_eq!(driver.duty(), 0);
}

#[test]
fn repeated_enable_is_a_no_op() {
    let mut driver = ContactorDriver::new(1000);
    driver.step(ContactorEvent::Enable);
    assert_eq!(driver.step(ContactorEvent::Enable), ContactorAction::Unchanged);
    assert_eq!(driver.state(), ContactorState::Energizing);
    assert_eq!(driver.duty(), 1000);
    driver.step(ContactorEvent::PullInElapsed);
    for _ in 0..3 {
        assert_eq!(driver.on_verdict(true), ContactorAction::Unchanged);
        assert_eq!(driver.state(), ContactorState::Holding);
        assert_eq!(driver.duty(), 750);
    }
    assert_eq!(driver.step(ContactorEvent::PullInElapsed), ContactorAction::Unchanged);
    assert_eq!(driver.state(), ContactorState::Holding);
}

#[test]
fn disable_while_open_does_nothing() {
    let mut driver = ContactorDriver::new(1000);
    assert_eq!(driver.step(ContactorEvent::Disable), ContactorAction::Unchanged);
    assert_eq!(driver.state(), ContactorState::Open);
}

#[test]
fn queue_is_first_in_first_out_and_bounded() {
    let mut queue = FrameQueue::new(2);
    assert!(queue.is_empty());
    assert_eq!(queue.front(), None);
    assert_eq!(queue.pop(), None);
    assert!(queue.push(frame(1, &[1])));
    assert!(queue.push(frame(2, &[2])));
    assert!(queue.is_full());
    assert!(!queue.push(frame(3, &[3])));
    assert_eq!(queue.len(), 2);
    assert_eq!(queue.front(), Some(frame(1, &[1])));
    assert_eq!(queue.pop(), Some(frame(1, &[1])));
    assert_eq!(queue.pop(), Some(frame(2, &[2])));
    assert_eq!(queue.pop(), None);
    let mut none = FrameQueue::new(0);
    assert!(none.is_full());
    assert!(!none.push(frame(1, &[])));
}

#[test]
fn link_filters_and_counts_received_frames() {
    let mut link = BusLink::new(Bus::Battery, 2, 20);
    assert_eq!(link.on_received(frame(0x155, &[0; 8])), Received::Queued);
    assert_eq!(link.on_received(frame(0x123, &[0; 8])), Received::Filtered);
    assert_eq!(link.on_received(frame(0x7BB, &[1; 8])), Received::Queued);
    assert_eq!(link.on_received(frame(0x424, &[0; 8])), Received::Overrun);
    assert_eq!(link.inbound_len(), 2);
    assert_eq!(
        link.counters(),
        LinkCounters { filtered: 1, inbound_overruns: 1, outbound_overruns: 0, transmit_errors: 0 }
    );
    assert_eq!(link.next_received(), Some(frame(0x155, &[0; 8])));
    assert_eq!(link.next_received(), Some(frame(0x7BB, &[1; 8])));
    assert_eq!(link.next_received(), None);
    let mut inverter = BusLink::new(Bus::Inverter, 2, 20);
    assert_eq!(inverter.on_received(frame(0x155, &[0; 8])), Received::Filtered);
    let request = CanFrame::new(CanId::extended(0x1871).unwrap(), &[1, 0, 1, 0, 0, 0, 0, 0]).unwrap();
    assert_eq!(inverter.on_received(request), Received::Queued);
}

#[test]
fn link_sends_in_order_and_waits_for_the_transmitter() {
    let mut link = BusLink::new(Bus::Battery, 20, 2);
    assert_eq!(link.next_transmit(true), None);
    assert!(link.submit(frame(0x79B, &[1])));
    assert!(link.submit(frame(0x79B, &[2])));
    assert!(!link.submit(frame(0x79B, &[3])));
    assert_eq!(link.counters().outbound_overruns, 1);
    assert_eq!(link.outbound_len(), 2);
    assert_eq!(link.next_transmit(false), Some(frame(0x79B, &[1])));
    link.on_transmit(TransmitOutcome::WouldBlock);
    assert_eq!(link.outbound_len(), 2);
    assert_eq!(link.next_transmit(false), Some(frame(0x79B, &[1])));
    link.on_transmit(TransmitOutcome::Sent);
    assert_eq!(link.outbound_len(), 1);
    assert_eq!(link.next_transmit(false), None);
    assert_eq!(link.next_transmit(false), None);
    assert_eq!(link.next_transmit(true), Some(frame(0x79B, &[2])));
    link.on_transmit(TransmitOutcome::Failed);
    assert_eq!(link.outbound_len(), 0);
    assert_eq!(link.counters().transmit_errors, 1);
    assert_eq!(link.next_transmit(false), None);
    assert!(link.submit(frame(0x79B, &[4])));
    assert_eq!(link.next_transmit(false), Some(frame(0x79B, &[4])));
}

#[test]
fn new_data_is_zero_with_request_code_one() {
    let data = Data::new();
    assert_eq!(data.cell_volts, [0u16; 96]);
    assert_eq!(data.cell_bal, [false; 96]);
    assert_eq!(data.soc_value, 0);
    assert_eq!(data.current_offset, 0);
    assert_eq!(data.current_value, 0);
    assert_eq!(data.max_charge_amps, 0);
    assert_eq!(data.kwh_remaining, 0);
    assert_eq!(data.pack_temp, 0);
    assert_eq!(data.pack_volts, 0);
    assert_eq!(data.req_code, 1);
    assert_eq!(data.v_low_cell, 0);
    assert_eq!(data.v_high_cell, 0);
    assert_eq!(data.soh, 0);
    assert!(!data.hv_interlock);
    assert_eq!(data.temp_min, 0);
    assert_eq!(data.temp_max, 0);
    assert_eq!(data.temp_avg, 0);
}

#[test]
fn little_endian_frames_fill_the_data() {
    let mut data = Data::new();
    assert_eq!(data.apply(&frame(0x132, &[0x10, 0x0F, 0xF6, 0xFF])), Ok(()));
    assert_eq!(data.pack_volts, 3856);
    assert_eq!(data.current_value, -10);
    assert_eq!(data.apply(&frame(0x132, &[0xFF, 0xFF, 0xFF, 0x7F, 0, 0, 0, 0])), Ok(()));
    assert_eq!(data.pack_volts, 65535);
    assert_eq!(data.current_value, 32767);
    assert_eq!(data.apply(&frame(0x332, &[0x01, 0, 65])), Ok(()));
    assert_eq!(data.temp_max, 250);
    assert_eq!(data.apply(&frame(0x332, &[0x05, 0, 40])), Ok(()));
    assert_eq!(data.temp_max, 0);
    assert_eq!(data.apply(&frame(0x332, &[0x00, 0, 99, 0])), Ok(()));
    assert_eq!(data.temp_max, 0);
    assert_eq!(data.apply(&frame(0x332, &[0x02])), Ok(()));
    assert_eq!(data.apply(&frame(0x332, &[0x03])), Ok(()));
    assert_eq!(data.temp_max, 0);
    assert_eq!(data.apply(&frame(0x352, &[0xEE, 0x02, 0x80, 0xBB, 0, 0, 0, 0])), Ok(()));
    assert_eq!(data.soc_value, 100);
    assert_eq!(data.apply(&frame(0x352, &[0xEE, 0x02, 0x00, 0x4B, 0, 0, 0, 0])), Ok(()));
    assert_eq!(data.soc_value, 40);
    assert_eq!(data.apply(&frame(0x352, &[0xEE, 0x02, 0x00, 0x00, 0, 0, 0, 0])), Ok(()));
    assert_eq!(data.soc_value, 0);
    assert_eq!(data.apply(&frame(0x352, &[0x0A, 0xF8, 0xFF, 0xFF, 0xFF, 0xFF, 0xFF, 0xFF])), Ok(()));
    assert_eq!(data.soc_value, 20400);
    assert_eq!(data.apply(&frame(0x401, &[0, 0x2A, 1, 2, 3, 4, 5, 6])), Ok(()));
    assert_eq!(data.apply(&frame(0x401, &[84, 0x2A, 1, 2, 3, 4, 5, 6])), Ok(()));
    assert_eq!(data.apply(&frame(0x401, &[200, 0x2B])), Ok(()));
    for raw in [0x20Au16, 0x2D2, 0x2B4, 0x3D2] {
        assert_eq!(data.apply(&frame(raw, &[0xFF; 8])), Ok(()));
    }
    assert_eq!(data.soc_value, 20400);
    assert_eq!(data.pack_volts, 65535);
    assert_eq!(data.cell_volts, [0u16; 96]);
    assert_eq!(data.req_code, 1);
}

#[test]
fn frames_that_cannot_be_decoded_leave_the_data() {
    let mut data = Data::new();
    assert_eq!(data.apply(&frame(0x132, &[1, 2, 3])), Err(ParseError::TooShort));
    assert_eq!(data.apply(&frame(0x332, &[])), Err(ParseError::TooShort));
    assert_eq!(data.apply(&frame(0x332, &[1, 2])), Err(ParseError::TooShort));
    assert_eq!(data.apply(&frame(0x332, &[1, 2, 39])), Err(ParseError::OutOfRange));
    assert_eq!(data.apply(&frame(0x332, &[0, 1, 2])), Err(ParseError::TooShort));
    assert_eq!(data.apply(&frame(0x401, &[1])), Err(ParseError::TooShort));
    assert_eq!(data.apply(&frame(0x401, &[1, 0x2A, 0, 0, 0, 0, 0])), Err(ParseError::TooShort));
    assert_eq!(data.apply(&frame(0x401, &[85, 0x2A, 0, 0, 0, 0, 0, 0])), Err(ParseError::OutOfRange));
    assert_eq!(data.apply(&frame(0x352, &[1, 2, 3, 4, 5, 6, 7])), Err(ParseError::TooShort));
    assert_eq!(data.apply(&frame(0x352, &[9, 0, 0xFF, 0xFF, 0, 0, 0, 0])), Err(ParseError::OutOfRange));
    for raw in [0x20Au16, 0x2D2, 0x2B4, 0x3D2] {
        assert_eq!(data.apply(&frame(raw, &[0; 7])), Err(ParseError::TooShort));
    }
    assert_eq!(data.apply(&frame(0x123, &[0; 8])), Err(ParseError::UnknownId));
    let extended = CanFrame::new(CanId::extended(0x132).unwrap(), &[0; 8]).unwrap();
    assert_eq!(data.apply(&extended), Err(ParseError::UnknownId));
    assert_eq!(data.pack_volts, 0);
    assert_eq!(data.current_value, 0);
    assert_eq!(data.temp_max, 0);
    assert_eq!(data.soc_value, 0);
}

#[test]
fn collector_reports_the_group_while_exactly_its_four_frames_were_seen() {
    let mut collector = Collector::new();
    assert_eq!(collector.seen, 0);
    assert_eq!(collector.process(&frame(0x132, &[0x10, 0x0F, 0x0A, 0x00])), Ok(false));
    assert_eq!(collector.seen, 1);
    assert_eq!(collector.process(&frame(0x332, &[0x01, 0, 65])), Ok(false));
    assert_eq!(collector.seen, 3);
    assert_eq!(collector.process(&frame(0x332, &[0x01, 0, 10])), Err(ParseError::OutOfRange));
    assert_eq!(collector.seen, 3);
    assert_eq!(collector.process(&frame(0x401, &[0, 0x2B])), Ok(false));
    assert_eq!(collector.seen, 7);
    assert_eq!(collector.process(&frame(0x132, &[0x11, 0x0F, 0x0A, 0x00])), Ok(false));
    assert_eq!(collector.seen, 7);
    assert_eq!(
        collector.process(&frame(0x352, &[0xEE, 0x02, 0x80, 0xBB, 0, 0, 0, 0])),
        Ok(true)
    );
    assert_eq!(collector.seen, 15);
    assert_eq!(collector.data.pack_volts, 3857);
    assert_eq!(collector.data.current_value, 10);
    assert_eq!(collector.data.temp_max, 250);
    assert_eq!(collector.data.soc_value, 100);
    assert_eq!(collector.process(&frame(0x132, &[0x12, 0x0F, 0x0A, 0x00])), Ok(true));
    assert_eq!(collector.process(&frame(0x123, &[0; 8])), Err(ParseError::UnknownId));
    assert_eq!(collector.process(&frame(0x20A, &[0; 7])), Err(ParseError::TooShort));
    assert_eq!(collector.seen, 15);
    assert_eq!(collector.process(&frame(0x20A, &[0; 8])), Ok(false));
    assert_eq!(collector.seen, 31);
    assert_eq!(collector.process(&frame(0x132, &[0x12, 0x0F, 0x0A, 0x00])), Ok(false));
    assert_eq!(collector.process(&frame(0x3D2, &[0; 8])), Ok(false));
    assert_eq!(collector.seen, 159);
}

#[test]
fn marks_are_one_bit_for_each_frame() {
    let marks: Vec<u8> = [0x132u16, 0x332, 0x401, 0x352, 0x20A, 0x2D2, 0x2B4, 0x3D2, 0x155]
        .iter()
        .map(|raw| mark(*raw))
        .collect();
    assert_eq!(marks, vec![1, 2, 4, 8, 16, 32, 64, 128, 0]);
}

#[test]
fn keepalive_round_follows_the_flag() {
    assert_eq!(KEEPALIVE_PERIOD_MS, 100);
    let frames = keepalive_frames(true);
    assert_eq!(frames.len(), 4);
    assert_eq!(frames[0].id(), CanId::Standard(0x423));
    assert_eq!(frames[0].payload(), vec![0x03, 0x00, 0xFF, 0xFF, 0x5d, 0xE0, 0x5d, 0x00]);
    assert_eq!(frames[1].id(), CanId::Standard(0x597));
    assert_eq!(frames[1].payload(), vec![0x20, 0xE4, 0x03, 0xB1, 0x2F, 0x00, 0x01, 0x4E]);
    assert_eq!(frames[2].id(), CanId::Standard(0x426));
    assert_eq!(frames[2].payload(), vec![0x00, 0x18, 0x02, 0x00, 0x79, 0x18, 0x00]);
    assert_eq!(frames[3].id(), CanId::Standard(0x627));
    assert_eq!(frames[3].payload(), vec![0x00, 0x00, 0x00]);
    let frames = keepalive_frames(false);
    assert_eq!(frames[0].payload(), vec![0x03, 0x00, 0xFF, 0xFF, 0xb2, 0xE0, 0xb2, 0x00]);
    assert_eq!(frames[1], keepalive_frames(true)[1]);
}

#[test]
fn flag_follows_the_battery_broadcasts() {
    assert!(!update_flag(true, &frame(0x445, &[0, 0, 0x55])));
    assert!(update_flag(false, &frame(0x445, &[0, 0, 0x54])));
    assert!(update_flag(true, &frame(0x445, &[0, 0x55])));
    assert!(!update_flag(false, &frame(0x445, &[0, 0x54])));
    assert!(!update_flag(true, &frame(0x424, &[0x11, 0x40, 0x56, 0x84, 0x39, 0x6C, 0x55, 0x3C])));
    assert!(update_flag(false, &frame(0x424, &[0x11, 0x40, 0x56, 0x84, 0x39, 0x6C, 0xF8, 0x3C])));
    assert!(!update_flag(false, &frame(0x424, &[0x11, 0x40, 0x56, 0x84, 0x39, 0x6C])));
    assert!(update_flag(true, &frame(0x155, &[0x55; 8])));
    assert!(!update_flag(false, &frame(0x155, &[0; 8])));
    let extended = CanFrame::new(CanId::extended(0x445).unwrap(), &[0, 0, 0x54]).unwrap();
    assert!(!update_flag(false, &extended));
}

#[test]
fn current_broadcast_is_eleven_signed_bits() {
    assert_eq!(pack_current(&frame(0x1DB, &[0, 0x20, 0xaa, 0xaa, 0x12, 0, 0, 0x23])), Some(1));
    assert_eq!(pack_current(&frame(0x1DB, &[0x7F, 0xFF])), Some(1023));
    assert_eq!(pack_current(&frame(0x1DB, &[0x80, 0x00])), Some(-1024));
    assert_eq!(pack_current(&frame(0x1DB, &[0xFF, 0xE0])), Some(-1));
    assert_eq!(pack_current(&frame(0x1DB, &[0xFF, 0xDF])), Some(-2));
    assert_eq!(pack_current(&frame(0x1DB, &[0x00, 0x1F])), Some(0));
    assert_eq!(pack_current(&frame(0x1DB, &[0x01])), None);
    assert_eq!(pack_current(&frame(0x1DC, &[0x01, 0x02])), None);
    let extended = CanFrame::new(CanId::extended(0x1DB).unwrap(), &[1, 2]).unwrap();
    assert_eq!(pack_current(&extended), None);
}

#[test]
fn first_block_carries_accessory_voltage_and_charge() {
    let accessory = frame(0x7BB, &[0x23, 0, 0, 0x30, 0x10, 0, 0, 0]);
    assert_eq!(group_reading(&accessory), Some(GroupReading::Accessory(0x3010)));
    assert_eq!(group_reading(&frame(0x7BB, &[0x23, 0, 0, 0x30, 0x10])), Some(GroupReading::Accessory(0x3010)));
    assert_eq!(group_reading(&frame(0x7BB, &[0x23, 0, 0, 0x30])), None);
    let charge = frame(0x7BB, &[0x24, 0, 0, 0, 0x00, 0x0C, 0x35, 0x00]);
    assert_eq!(group_reading(&charge), Some(GroupReading::Charge(800_000)));
    let full = frame(0x7BB, &[0x24, 0, 0, 0, 0xFF, 0xFF, 0xFF, 0xFF]);
    assert_eq!(group_reading(&full), Some(GroupReading::Charge(u32::MAX)));
    assert_eq!(group_reading(&frame(0x7BB, &[0x24, 0, 0, 0, 1, 2, 3])), None);
    assert_eq!(group_reading(&frame(0x7BB, &[0x25, 0, 0, 0, 1, 2, 3, 4])), None);
    assert_eq!(group_reading(&frame(0x7BB, &[])), None);
}

#[test]
fn pack_at_rest_is_left_alone() {
    let resting = Activity {
        current_half_amps: 0,
        soc_raw: 800_000,
        accessory_raw: 13_000,
        cell_mv_high: 4100,
        pack_volts: 390,
    };
    assert_eq!(rest_decision(&resting), Rest::Sleep(15));
    assert_eq!(rest_decision(&Activity { accessory_raw: 12_288, ..resting }), Rest::Sleep(15));
    assert_eq!(rest_decision(&Activity { accessory_raw: 12_287, ..resting }), Rest::Sleep(60));
    assert_eq!(rest_decision(&Activity { current_half_amps: 1, ..resting }), Rest::KeepPolling);
    assert_eq!(rest_decision(&Activity { current_half_amps: -1, ..resting }), Rest::KeepPolling);
    assert_eq!(rest_decision(&Activity { soc_raw: 0, ..resting }), Rest::KeepPolling);
    assert_eq!(rest_decision(&Activity { accessory_raw: 0, ..resting }), Rest::KeepPolling);
    assert_eq!(rest_decision(&Activity { cell_mv_high: 0, ..resting }), Rest::KeepPolling);
    assert_eq!(rest_decision(&Activity { pack_volts: 0, ..resting }), Rest::KeepPolling);
}

#[test]
fn collector_merges_the_group_into_the_state() {
    let mut collector = Collector::new();
    let mut state = CanonicalBatteryState::new();
    let frames = [
        frame(0x132, &[0x10, 0x0F, 0xF6, 0xFF]),
        frame(0x332, &[0x01, 0, 65]),
        frame(0x401, &[0, 0x2B]),
    ];
    for (i, f) in frames.iter().enumerate() {
        assert_eq!(collector.process_into(&mut state, f, 10 + i as u64), (Ok(false), None));
        assert!(!state.updated());
    }
    let energy = frame(0x352, &[0xEE, 0x02, 0x00, 0x4B, 0, 0, 0, 0]);
    assert_eq!(collector.process_into(&mut state, &energy, 20), (Ok(true), Some(Ok(()))));
    assert_eq!(
        collector.data.readings(),
        PackReadings { pack_volts_dv: 3856, current_da: -10, kwh_remaining_dkwh: 0, soc_percent: 40 }
    );
    assert!(state.valid());
    assert_eq!(state.last_update_ms(), 20);
    assert_eq!(state.pack_voltage_cv(), 38560);
    assert_eq!(state.current_ma(), -1000);
    assert_eq!(state.soc_percent(), 40);
    assert_eq!(state.kwh_remaining_x100(), 0);
    let over = frame(0x352, &[0x0A, 0xF8, 0xFF, 0xFF, 0xFF, 0xFF, 0xFF, 0xFF]);
    assert_eq!(
        collector.process_into(&mut state, &over, 30),
        (Ok(true), Some(Err(StateError::OutOfRange)))
    );
    assert!(!state.valid());
    assert_eq!(state.soc_percent(), 40);
    assert_eq!(state.last_update_ms(), 20);
    assert_eq!(
        collector.process_into(&mut state, &frame(0x132, &[1]), 40),
        (Err(ParseError::TooShort), None)
    );
    assert_eq!(collector.process_into(&mut state, &energy, 50), (Ok(true), Some(Ok(()))));
    assert!(state.valid());
    assert_eq!(collector.process_into(&mut state, &frame(0x20A, &[0; 8]), 60), (Ok(false), None));
    assert_eq!(state.last_update_ms(), 50);
}

#[test]
fn other_variant_asks_for_its_own_blocks() {
    assert_eq!(LeafMode::Group1.next(), LeafMode::CellPairs);
    assert_eq!(LeafMode::CellPairs.next(), LeafMode::Temps);
    assert_eq!(LeafMode::Temps.next(), LeafMode::Bal);
    assert_eq!(LeafMode::Bal.next(), LeafMode::Sleep);
    assert_eq!(LeafMode::Sleep.next(), LeafMode::Group1);
    let blocks: Vec<Option<u8>> =
        [LeafMode::Group1, LeafMode::CellPairs, LeafMode::Temps, LeafMode::Bal, LeafMode::Sleep]
            .iter()
            .map(|mode| mode.block())
            .collect();
    assert_eq!(blocks, vec![Some(1), Some(2), Some(4), Some(6), None]);
    let request = LeafMode::Bal.request().unwrap();
    assert_eq!(request.id(), CanId::Standard(0x79B));
    assert_eq!(request.payload(), vec![0x02, 0x21, 6, 0xFF, 0xFF, 0xFF, 0xFF, 0xFF]);
    assert!(LeafMode::Sleep.request().is_none());
}

#[test]
fn other_variant_decodes_its_blocks_at_their_lengths() {
    let mut block = Vec::new();
    for i in 0..96u16 {
        block.extend_from_slice(&(3700 + i).to_be_bytes());
    }
    block.extend_from_slice(&36377u16.to_be_bytes());
    block.extend_from_slice(&[0; 6]);
    assert_eq!(block.len(), 200);
    assert_eq!(
        cell_pairs(&block),
        Some(CellPairs { cell_mv_high: 3795, cell_mv_low: 3700, pack_volts: 363 })
    );
    assert_eq!(cell_pairs(&block[..199]), None);
    let temps = [2, 16, 18, 2, 13, 19, 255, 255, 255, 2, 34, 17, 17, 0, 255, 255, 255, 255];
    assert_eq!(temperatures(&temps), Some(CellTemperatures { high_c: 18, low_c: 19 }));
    assert_eq!(temperatures(&temps[..17]), None);
    assert_eq!(balancing(&[0x0F; 25]), Some(0));
    assert_eq!(balancing(&[0xF0; 25]), Some(96));
    let mut shunts = [0x0F; 25];
    shunts[3] = 0x0E;
    shunts[23] = 0x0C;
    shunts[24] = 0x00;
    assert_eq!(balancing(&shunts), Some(3));
    assert_eq!(balancing(&[0x00; 24]), None);
}
