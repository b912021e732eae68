//! The gateway: the path of a frame from the router through the processors
//! and the battery state to the safety verdict.

use vstd::prelude::*;
use crate::diag::{
    after_frame, after_tick, continue_frame, continue_payload, is_consecutive_frame,
    next_sequence, request_payload, CycleView, DiagError, DiagEvent, Mode, Sequencer,
    SequencerView, SessionView, REQUEST_ID, RESPONSE_ID,
};
use crate::encoder::{encode_for, encoded_for, views, Protocol, Responder};
use crate::frame::{CanFrame, CanId, FrameView};
use crate::link::bumped;
use crate::rapid::{ParseError, RapidProcessor};
use crate::router::{destination, route, Destination};
use crate::state::{cycle_mergeable, group_in_range, CanonicalBatteryState, Limits, StateView};
use crate::supervisor::{
    classify_diag, classify_rapid, diag_health, rapid_health, verdict, LatchView, LinkHealth,
    SafetyLatch, SafetySupervisor,
};

verus! {

/// The gateway as a value.
pub struct GatewayView {
    pub sequencer: SequencerView,
    pub rapid: RapidProcessor,
    pub state: StateView,
    /// How the last decode went.
    pub health: LinkHealth,
    pub latch: LatchView,
    pub limits: Limits,
    pub threshold_ms: u64,
    /// The protocol that the inverter speaks.
    pub protocol: Protocol,
    /// What answers the inverter's data requests.
    pub responder: Responder,
    /// Frames that the router sent nowhere.
    pub dropped: u32,
}

impl GatewayView {
    /// The verdict at `now` on the gateway as it stands.
    pub open spec fn verdict_at(self, now: u64) -> bool {
        verdict(now, self.state.last_update_ms, self.state, self.health, self.threshold_ms)
    }

    /// The gateway with the verdict at `now` written to the latch.
    pub open spec fn judged(self, now: u64) -> GatewayView {
        GatewayView { latch: LatchView { pending: Some(self.verdict_at(now)) }, ..self }
    }

    /// The gateway after a broadcast frame went through the rapid processor:
    /// a frame that completes a group merges the group into the state; a
    /// group that is refused leaves the state not valid.
    pub open spec fn after_rapid(self, frame: FrameView, now: u64) -> GatewayView {
        let (rapid, done) = self.rapid.after(frame);
        if done == Ok::<bool, ParseError>(true) {
            if group_in_range(rapid.group) {
                GatewayView {
                    rapid,
                    state: self.state.with_rapid(rapid.group, self.limits, now),
                    health: LinkHealth::Nominal,
                    ..self
                }
            } else {
                GatewayView {
                    rapid,
                    state: self.state.refused(),
                    health: LinkHealth::Warning,
                    ..self
                }
            }
        } else {
            GatewayView { rapid, health: rapid_health(done), ..self }
        }
    }

    /// The gateway after a diagnostic frame went through the sequencer: the
    /// frame that completes a read cycle merges the cycle into the state; a
    /// cycle that is refused leaves the state not valid. A frame that the
    /// sequencer drops leaves the health as it was.
    pub open spec fn after_diagnostic(self, frame: FrameView, now: u64) -> GatewayView {
        let (sequencer, event) = after_frame(self.sequencer, frame);
        if event == DiagEvent::Ignored {
            GatewayView { sequencer, ..self }
        } else if event == DiagEvent::CycleComplete {
            if cycle_mergeable(sequencer.cycle) {
                GatewayView {
                    sequencer,
                    state: self.state.with_cycle(sequencer.cycle, now),
                    health: LinkHealth::Nominal,
                    ..self
                }
            } else {
                GatewayView {
                    sequencer,
                    state: self.state.refused(),
                    health: LinkHealth::Warning,
                    ..self
                }
            }
        } else {
            GatewayView { sequencer, health: diag_health(event), ..self }
        }
    }

    /// The gateway after a frame from the battery bus, taken at `now`.
    pub open spec fn after_battery_frame(self, frame: FrameView, now: u64) -> GatewayView {
        match destination(frame.id) {
            Destination::Rapid => self.after_rapid(frame, now).judged(now),
            Destination::Diagnostic => self.after_diagnostic(frame, now).judged(now),
            _ => GatewayView { dropped: bumped(self.dropped), ..self }.judged(now),
        }
    }

    /// The payload to send to the battery in answer to a frame, if any: a
    /// flow-control frame while a block is being reassembled.
    pub open spec fn reply_to(self, frame: FrameView) -> Option<FrameView> {
        if destination(frame.id) == Destination::Diagnostic && after_frame(
            self.sequencer,
            frame,
        ).1 == DiagEvent::Continue {
            Some(FrameView { id: CanId::Standard(REQUEST_ID), payload: continue_payload() })
        } else {
            None
        }
    }

    /// The gateway after a tick of the request clock at `now`.
    pub open spec fn after_request_tick(self, now: u64) -> GatewayView {
        GatewayView { sequencer: after_tick(self.sequencer), ..self }.judged(now)
    }

    /// The gateway after a frame from the inverter bus, taken at `now`: a
    /// data request has the verdict written to the latch, and the pack
    /// counts as announced from a request that is answered until one that is
    /// not; any other frame is dropped and counted.
    pub open spec fn after_inverter_frame(self, frame: FrameView, now: u64) -> GatewayView {
        if destination(frame.id) == Destination::Encoder {
            if self.protocol == Protocol::Solax {
                GatewayView {
                    responder: self.responder.answered(self.state, self.verdict_at(now)).0,
                    ..self
                }.judged(now)
            } else {
                self.judged(now)
            }
        } else {
            GatewayView { dropped: bumped(self.dropped), ..self }
        }
    }

    /// The frames to send to the inverter in answer to a frame, where the
    /// inverter speaks the protocol that asks, the frame is a data request
    /// and the verdict is safe: the announce frame where the pack has not
    /// announced itself, the frame set of the state where it has. Nothing
    /// otherwise.
    pub open spec fn answer_to(self, frame: FrameView, now: u64) -> Seq<FrameView> {
        if self.protocol == Protocol::Solax && destination(frame.id) == Destination::Encoder {
            self.responder.answered(self.state, self.verdict_at(now)).1
        } else {
            Seq::<FrameView>::empty()
        }
    }

    /// The frames to send to the inverter on a tick of the inverter clock:
    /// the frame set of the state where the inverter speaks the periodic
    /// protocol and the verdict is safe, and nothing otherwise.
    pub open spec fn periodic_frames(self, now: u64) -> Seq<FrameView> {
        if self.protocol == Protocol::Byd && self.verdict_at(now) {
            encoded_for(self.protocol, self.state)
        } else {
            Seq::<FrameView>::empty()
        }
    }
}

/// The gateway: sequencer, rapid processor, battery state, supervisor and
/// latch, owned together.
#[derive(Debug)]
pub struct Gateway {
    sequencer: Sequencer,
    rapid: RapidProcessor,
    state: CanonicalBatteryState,
    health: LinkHealth,
    latch: SafetyLatch,
    supervisor: SafetySupervisor,
    limits: Limits,
    protocol: Protocol,
    responder: Responder,
    dropped: u32,
}

impl View for Gateway {
    type V = GatewayView;

    closed spec fn view(&self) -> GatewayView {
        GatewayView {
            sequencer: self.sequencer@,
            rapid: self.rapid,
            state: self.state@,
            health: self.health,
            latch: self.latch@,
            limits: self.limits,
            threshold_ms: self.supervisor.threshold_ms,
            protocol: self.protocol,
            responder: self.responder,
            dropped: self.dropped,
        }
    }
}

impl Gateway {
    /// A gateway at start: nothing read, nothing seen, the state not valid,
    /// the latch empty, the pack not announced.
    pub fn new(limits: Limits, threshold_ms: u64, protocol: Protocol) -> (gateway: Gateway)
        ensures
            gateway@.sequencer.wf(),
            gateway@.sequencer.session == SessionView::at_rest(Mode::Idle),
            gateway@.sequencer.cycle == CycleView::empty(),
            gateway@.rapid == RapidProcessor::initial(),
            gateway@.state == StateView::initial(),
            !gateway@.responder.announced,
            gateway@.health == LinkHealth::Nominal,
            gateway@.latch.pending == None::<bool>,
            gateway@.limits == limits,
            gateway@.threshold_ms == threshold_ms,
            gateway@.protocol == protocol,
            gateway@.dropped == 0,
    {
        Gateway {
            sequencer: Sequencer::new(),
            rapid: RapidProcessor::new(),
            state: CanonicalBatteryState::new(),
            health: LinkHealth::Nominal,
            latch: SafetyLatch::new(),
            supervisor: SafetySupervisor::new(threshold_ms),
            limits,
            protocol,
            responder: Responder::new(),
            dropped: 0,
        }
    }

    /// The battery state, to read.
    pub fn state(&self) -> (state: &CanonicalBatteryState)
        ensures
            state@ == self@.state,
    {
        &self.state
    }

    /// The diagnostic sequencer, to read.
    pub fn sequencer(&self) -> (sequencer: &Sequencer)
        ensures
            sequencer@ == self@.sequencer,
    {
        &self.sequencer
    }

    /// How the last decode went.
    pub fn health(&self) -> (health: LinkHealth)
        ensures
            health == self@.health,
    {
        self.health
    }

    /// Number of frames that the router sent nowhere.
    pub fn dropped(&self) -> (count: u32)
        ensures
            count == self@.dropped,
    {
        self.dropped
    }

    /// Takes new limits and a new staleness threshold over; they hold from
    /// the next merge and the next verdict on. Limits whose
    /// depth-of-discharge window is not ordered within 0 to 100 percent are
    /// refused, and nothing changes.
    pub fn configure(&mut self, limits: Limits, threshold_ms: u64) -> (accepted: bool)
        ensures
            accepted == limits.window_ok(),
            accepted ==> final(self)@ == (GatewayView { limits, threshold_ms, ..old(self)@ }),
            !accepted ==> final(self)@ == old(self)@,
    {
        if !limits.is_window_ok() {
            return false;
        }
        self.limits = limits;
        self.supervisor = SafetySupervisor::new(threshold_ms);
        true
    }

    /// Takes the verdict that waits in the latch, if any.
    pub fn take_verdict(&mut self) -> (taken: Option<bool>)
        ensures
            taken == old(self)@.latch.pending,
            final(self)@ == (GatewayView { latch: LatchView { pending: None }, ..old(self)@ }),
    {
        self.latch.take()
    }

    /// Writes the verdict at `now` to the latch.
    fn judge(&mut self, now: u64) -> (safe: bool)
        ensures
            final(self)@ == old(self)@.judged(now),
            safe == old(self)@.verdict_at(now),
    {
        let safe = self.supervisor.evaluate(
            now,
            self.state.last_update_ms(),
            &self.state,
            self.health,
        );
        self.latch.signal(safe);
        safe
    }

    /// Takes one frame from the battery bus at time `now` and hands back the
    /// frame to send to the battery in answer, if any.
    pub fn on_battery_frame(&mut self, frame: &CanFrame, now: u64) -> (reply: Option<CanFrame>)
        ensures
            final(self)@ == old(self)@.after_battery_frame(frame@, now),
            match old(self)@.reply_to(frame@) {
                Some(view) => reply.is_some() && reply.unwrap()@ == view,
                None => reply.is_none(),
            },
    {
        let mut reply: Option<CanFrame> = None;
        match route(frame) {
            Destination::Rapid => {
                let done = self.rapid.process(frame);
                match done {
                    Ok(true) => {
                        match self.state.commit_rapid(&self.rapid.group, &self.limits, now) {
                            Ok(()) => {
                                self.health = LinkHealth::Nominal;
                            },
                            Err(_) => {
                                self.health = LinkHealth::Warning;
                            },
                        }
                    },
                    _ => {
                        self.health = classify_rapid(done);
                    },
                }
            },
            Destination::Diagnostic => {
                let event = self.sequencer.on_frame(frame);
                match event {
                    DiagEvent::CycleComplete => {
                        match self.state.commit_cycle(self.sequencer.cycle(), now) {
                            Ok(()) => {
                                self.health = LinkHealth::Nominal;
                            },
                            Err(_) => {
                                self.health = LinkHealth::Warning;
                            },
                        }
                    },
                    DiagEvent::Continue => {
                        self.health = LinkHealth::Nominal;
                        reply = Some(continue_frame());
                    },
                    DiagEvent::Ignored => {},
                    _ => {
                        self.health = classify_diag(event);
                    },
                }
            },
            _ => {
                if self.dropped < u32::MAX {
                    self.dropped = self.dropped + 1;
                }
            },
        }
        let _ = self.judge(now);
        reply
    }

    /// Takes one tick of the request clock at time `now` and hands back the
    /// block request to send to the battery, if the new mode asks for one.
    pub fn on_tick(&mut self, now: u64) -> (request: Option<CanFrame>)
        ensures
            final(self)@ == old(self)@.after_request_tick(now),
            match final(self)@.sequencer.session.mode.spec_block() {
                Some(block) => request.is_some() && request.unwrap()@ == (FrameView {
                    id: CanId::Standard(REQUEST_ID),
                    payload: request_payload(block),
                }),
                None => request.is_none(),
            },
    {
        let request = self.sequencer.tick();
        let _ = self.judge(now);
        request
    }

    /// Takes one frame from the inverter bus at time `now` and hands back
    /// the frames to send to the inverter in answer.
    pub fn on_inverter_frame(&mut self, frame: &CanFrame, now: u64) -> (frames: Vec<CanFrame>)
        ensures
            final(self)@ == old(self)@.after_inverter_frame(frame@, now),
            views(frames@) == old(self)@.answer_to(frame@, now),
    {
        match route(frame) {
            Destination::Encoder => {
                let safe = self.judge(now);
                match self.protocol {
                    Protocol::Solax => self.responder.answer(&self.state, safe),
                    Protocol::Byd => Vec::new(),
                }
            },
            _ => {
                if self.dropped < u32::MAX {
                    self.dropped = self.dropped + 1;
                }
                let frames: Vec<CanFrame> = Vec::new();
                frames
            },
        }
    }

    /// Takes one tick of the inverter clock at time `now` and hands back the
    /// frames to send to the inverter. The verdict at `now` is written to
    /// the latch.
    pub fn on_inverter_tick(&mut self, now: u64) -> (frames: Vec<CanFrame>)
        ensures
            final(self)@ == old(self)@.judged(now),
            views(frames@) == old(self)@.periodic_frames(now),
    {
        let safe = self.judge(now);
        let periodic = match self.protocol {
            Protocol::Solax => false,
            Protocol::Byd => true,
        };
        if safe && periodic {
            encode_for(self.protocol, &self.state)
        } else {
            let frames: Vec<CanFrame> = Vec::new();
            assert(views(frames@) =~= Seq::<FrameView>::empty());
            frames
        }
    }
}

/// A session that is given up leaves the battery state as it was, values and
/// validity alike, and leaves the sequencer idle with an empty buffer and
/// the cycle as it was.
pub proof fn lemma_abort_keeps_state(g: GatewayView, frame: FrameView, now: u64, error: DiagError)
    requires
        destination(frame.id) == Destination::Diagnostic,
        after_frame(g.sequencer, frame).1 == DiagEvent::Aborted(error),
    ensures
        g.after_battery_frame(frame, now).state == g.state,
        g.after_battery_frame(frame, now).sequencer.session == SessionView::at_rest(Mode::Idle),
        g.after_battery_frame(frame, now).sequencer.cycle == g.sequencer.cycle,
        g.reply_to(frame).is_none(),
{
}

/// A consecutive frame whose sequence number is not the one that is due,
/// while a block is in flight, gives the session up and leaves the battery
/// state as it was.
pub proof fn lemma_sequence_mismatch_aborts(g: GatewayView, frame: FrameView, now: u64)
    requires
        frame.id == CanId::Standard(RESPONSE_ID),
        g.sequencer.session.mode != Mode::Idle,
        g.sequencer.in_flight(),
        is_consecutive_frame(frame.payload),
        frame.payload[0] % 16 != next_sequence(g.sequencer.session.sequence_index),
    ensures
        after_frame(g.sequencer, frame).1 == DiagEvent::Aborted(DiagError::SequenceMismatch),
        g.after_battery_frame(frame, now).state == g.state,
        g.after_battery_frame(frame, now).sequencer.session == SessionView::at_rest(Mode::Idle),
        g.after_battery_frame(frame, now).sequencer.cycle == g.sequencer.cycle,
{
}

/// Judging twice at the same time, with nothing changed in between, gives
/// the same verdict and the same gateway.
pub proof fn lemma_judging_is_idempotent(g: GatewayView, now: u64)
    ensures
        g.judged(now).verdict_at(now) == g.verdict_at(now),
        g.judged(now).judged(now) == g.judged(now),
{
}

/// While the last update is stale the inverter gets no frames, and the
/// latch carries an unsafe verdict after every data request.
pub proof fn lemma_stale_gateway_is_silent(g: GatewayView, frame: FrameView, now: u64)
    requires
        now - g.state.last_update_ms > g.threshold_ms,
        destination(frame.id) == Destination::Encoder,
    ensures
        g.answer_to(frame, now).len() == 0,
        g.periodic_frames(now).len() == 0,
        g.after_inverter_frame(frame, now).latch.pending == Some(false),
        g.judged(now).latch.pending == Some(false),
{
}

/// The frame that completes a rapid group whose fields are in range, at a
/// time not before the state's last update, leaves the state valid and
/// stamped with that time, and the latch carries a safe verdict.
pub proof fn lemma_complete_group_restores_safety(g: GatewayView, frame: FrameView, now: u64)
    requires
        destination(frame.id) == Destination::Rapid,
        g.rapid.after(frame).1 == Ok::<bool, ParseError>(true),
        group_in_range(g.rapid.after(frame).0.group),
        now >= g.state.last_update_ms,
    ensures
        g.after_battery_frame(frame, now).state.valid,
        g.after_battery_frame(frame, now).state.last_update_ms == now,
        g.after_battery_frame(frame, now).latch.pending == Some(true),
{
}

/// The frame that completes a read cycle which can be merged, at a time not
/// before the state's last update, leaves the state valid and stamped with
/// that time, and the latch carries a safe verdict.
pub proof fn lemma_complete_cycle_restores_safety(g: GatewayView, frame: FrameView, now: u64)
    requires
        destination(frame.id) == Destination::Diagnostic,
        after_frame(g.sequencer, frame).1 == DiagEvent::CycleComplete,
        cycle_mergeable(after_frame(g.sequencer, frame).0.cycle),
        now >= g.state.last_update_ms,
    ensures
        g.after_battery_frame(frame, now).state.valid,
        g.after_battery_frame(frame, now).state.last_update_ms == now,
        g.after_battery_frame(frame, now).latch.pending == Some(true),
{
}

/// An update that is refused writes no value and leaves the state not
/// valid: the inverter gets no frame set until an update is merged whole.
pub proof fn lemma_refused_update_silences_encoder(g: GatewayView, frame: FrameView, now: u64)
    requires
        (destination(frame.id) == Destination::Rapid && g.rapid.after(frame).1 == Ok::<
            bool,
            ParseError,
        >(true) && !group_in_range(g.rapid.after(frame).0.group)) || (destination(frame.id)
            == Destination::Diagnostic && after_frame(g.sequencer, frame).1
            == DiagEvent::CycleComplete && !cycle_mergeable(
            after_frame(g.sequencer, frame).0.cycle,
        )),
    ensures
        g.after_battery_frame(frame, now).state == g.state.refused(),
        !g.after_battery_frame(frame, now).state.valid,
        encoded_for(g.protocol, g.after_battery_frame(frame, now).state).len() == 0,
{
}

} // verus!
