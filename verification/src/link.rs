//! The bus link: the bounded queues between one CAN controller and the
//! gateway, and the rule by which frames go out one at a time.

use vstd::prelude::*;
use crate::frame::CanFrame;
use crate::router::{admitted, admits, Bus};

verus! {

/// A bounded queue of frames as a value: oldest first.
pub struct QueueView {
    pub frames: Seq<CanFrame>,
    pub capacity: nat,
}

impl QueueView {
    /// No more frames wait than the queue holds.
    pub open spec fn wf(self) -> bool {
        self.frames.len() <= self.capacity
    }

    /// The queue can take no more.
    pub open spec fn is_full(self) -> bool {
        self.frames.len() >= self.capacity
    }
}

/// A bounded first-in first-out queue of frames.
#[derive(Debug)]
pub struct FrameQueue {
    frames: Vec<CanFrame>,
    capacity: usize,
}

impl View for FrameQueue {
    type V = QueueView;

    closed spec fn view(&self) -> QueueView {
        QueueView { frames: self.frames@, capacity: self.capacity as nat }
    }
}

impl FrameQueue {
    /// An empty queue that holds up to `capacity` frames.
    pub fn new(capacity: usize) -> (queue: FrameQueue)
        ensures
            queue@.frames == Seq::<CanFrame>::empty(),
            queue@.capacity == capacity,
            queue@.wf(),
    {
        FrameQueue { frames: Vec::new(), capacity }
    }

    /// Number of frames that wait.
    pub fn len(&self) -> (n: usize)
        ensures
            n == self@.frames.len(),
    {
        self.frames.len()
    }

    /// Whether no frame waits.
    pub fn is_empty(&self) -> (empty: bool)
        ensures
            empty == (self@.frames.len() == 0),
    {
        self.frames.len() == 0
    }

    /// Whether the queue can take no more.
    pub fn is_full(&self) -> (full: bool)
        ensures
            full == self@.is_full(),
    {
        self.frames.len() >= self.capacity
    }

    /// Appends a frame, unless the queue is full: then nothing changes.
    pub fn push(&mut self, frame: CanFrame) -> (queued: bool)
        ensures
            old(self)@.wf() ==> final(self)@.wf(),
            queued == !old(self)@.is_full(),
            final(self)@.capacity == old(self)@.capacity,
            queued ==> final(self)@.frames == old(self)@.frames.push(frame),
            !queued ==> final(self)@.frames == old(self)@.frames,
    {
        if self.frames.len() >= self.capacity {
            false
        } else {
            self.frames.push(frame);
            true
        }
    }

    /// The oldest frame, if any.
    pub fn front(&self) -> (frame: Option<CanFrame>)
        ensures
            frame == (if self@.frames.len() > 0 {
                Some(self@.frames[0])
            } else {
                None
            }),
    {
        if self.frames.len() > 0 {
            Some(self.frames[0])
        } else {
            None
        }
    }

    /// Takes the oldest frame out, if any.
    pub fn pop(&mut self) -> (frame: Option<CanFrame>)
        ensures
            old(self)@.wf() ==> final(self)@.wf(),
            final(self)@.capacity == old(self)@.capacity,
            old(self)@.frames.len() > 0 ==> frame == Some(old(self)@.frames[0]) && final(self)@.frames == old(self)@.frames.subrange(1, old(self)@.frames.len() as int),
            old(self)@.frames.len() == 0 ==> frame.is_none() && final(self)@.frames == old(self)@.frames,
    {
        if self.frames.len() > 0 {
            let frame = self.frames.remove(0);
            assert(self.frames@ =~= old(self)@.frames.subrange(
                1,
                old(self)@.frames.len() as int,
            ));
            Some(frame)
        } else {
            None
        }
    }
}

/// What the controller said of a frame handed to it.
#[derive(Clone, Copy, Debug, PartialEq, Eq, Structural)]
pub enum TransmitOutcome {
    /// The controller took the frame.
    Sent,
    /// The controller is busy; the frame is to be offered again.
    WouldBlock,
    /// The controller reported an error; the frame is given up.
    Failed,
}

/// What became of a received frame.
#[derive(Clone, Copy, Debug, PartialEq, Eq, Structural)]
pub enum Received {
    /// The frame waits in the inbound queue.
    Queued,
    /// The bus does not take frames under this identifier in.
    Filtered,
    /// The inbound queue was full.
    Overrun,
}

/// The counters of a link.
#[derive(Clone, Copy, Debug, PartialEq, Eq, Structural)]
pub struct LinkCounters {
    /// Received frames that the bus does not take in.
    pub filtered: u32,
    /// Received frames lost to a full inbound queue.
    pub inbound_overruns: u32,
    /// Frames to send lost to a full outbound queue.
    pub outbound_overruns: u32,
    /// Frames given up after the controller reported an error.
    pub transmit_errors: u32,
}

/// The link as a value.
pub struct LinkView {
    pub bus: Bus,
    pub inbound: QueueView,
    pub outbound: QueueView,
    /// A frame went out and the transmitter was not yet seen idle again.
    pub awaiting_idle: bool,
    pub counters: LinkCounters,
}

/// One step up, staying at the largest value.
pub open spec fn bumped(count: u32) -> u32 {
    if count < u32::MAX {
        (count + 1) as u32
    } else {
        count
    }
}

impl LinkView {
    /// Both queues are well formed.
    pub open spec fn wf(self) -> bool {
        self.inbound.wf() && self.outbound.wf()
    }

    /// Whether a frame may be offered to the controller now.
    pub open spec fn may_transmit(self, transmitter_idle: bool) -> bool {
        !self.awaiting_idle || transmitter_idle
    }
}

/// The link of one bus.
#[derive(Debug)]
pub struct BusLink {
    bus: Bus,
    inbound: FrameQueue,
    outbound: FrameQueue,
    awaiting_idle: bool,
    counters: LinkCounters,
}

impl View for BusLink {
    type V = LinkView;

    closed spec fn view(&self) -> LinkView {
        LinkView {
            bus: self.bus,
            inbound: self.inbound@,
            outbound: self.outbound@,
            awaiting_idle: self.awaiting_idle,
            counters: self.counters,
        }
    }
}

/// Counts one up, staying at the largest value.
fn bump(count: u32) -> (next: u32)
    ensures
        next == bumped(count),
{
    if count < u32::MAX {
        count + 1
    } else {
        count
    }
}

impl BusLink {
    /// A link with empty queues of the given capacities.
    pub fn new(bus: Bus, inbound_capacity: usize, outbound_capacity: usize) -> (link: BusLink)
        ensures
            link@.wf(),
            link@.bus == bus,
            link@.inbound.frames.len() == 0,
            link@.inbound.capacity == inbound_capacity,
            link@.outbound.frames.len() == 0,
            link@.outbound.capacity == outbound_capacity,
            !link@.awaiting_idle,
            link@.counters == (LinkCounters {
                filtered: 0,
                inbound_overruns: 0,
                outbound_overruns: 0,
                transmit_errors: 0,
            }),
    {
        BusLink {
            bus,
            inbound: FrameQueue::new(inbound_capacity),
            outbound: FrameQueue::new(outbound_capacity),
            awaiting_idle: false,
            counters: LinkCounters {
                filtered: 0,
                inbound_overruns: 0,
                outbound_overruns: 0,
                transmit_errors: 0,
            },
        }
    }

    /// The counters.
    pub fn counters(&self) -> (counters: LinkCounters)
        ensures
            counters == self@.counters,
    {
        self.counters
    }

    /// Number of frames that wait to be processed.
    pub fn inbound_len(&self) -> (n: usize)
        ensures
            n == self@.inbound.frames.len(),
    {
        self.inbound.len()
    }

    /// Number of frames that wait to be sent.
    pub fn outbound_len(&self) -> (n: usize)
        ensures
            n == self@.outbound.frames.len(),
    {
        self.outbound.len()
    }

    /// Takes a frame that the controller received. A frame that the bus
    /// admits is queued behind those that wait; one that it does not admit,
    /// or that finds the queue full, is dropped and counted.
    pub fn on_received(&mut self, frame: CanFrame) -> (outcome: Received)
        ensures
            old(self)@.wf() ==> final(self)@.wf(),
            final(self)@.bus == old(self)@.bus,
            final(self)@.outbound == old(self)@.outbound,
            final(self)@.awaiting_idle == old(self)@.awaiting_idle,
            final(self)@.inbound.capacity == old(self)@.inbound.capacity,
            outcome == (if !admitted(old(self)@.bus, frame@.id) {
                Received::Filtered
            } else if old(self)@.inbound.is_full() {
                Received::Overrun
            } else {
                Received::Queued
            }),
            final(self)@.inbound.frames == (if outcome == Received::Queued {
                old(self)@.inbound.frames.push(frame)
            } else {
                old(self)@.inbound.frames
            }),
            final(self)@.counters == (LinkCounters {
                filtered: if outcome == Received::Filtered {
                    bumped(old(self)@.counters.filtered)
                } else {
                    old(self)@.counters.filtered
                },
                inbound_overruns: if outcome == Received::Overrun {
                    bumped(old(self)@.counters.inbound_overruns)
                } else {
                    old(self)@.counters.inbound_overruns
                },
                ..old(self)@.counters
            }),
    {
        if !admits(self.bus, &frame) {
            self.counters.filtered = bump(self.counters.filtered);
            Received::Filtered
        } else if self.inbound.push(frame) {
            Received::Queued
        } else {
            self.counters.inbound_overruns = bump(self.counters.inbound_overruns);
            Received::Overrun
        }
    }

    /// Takes the oldest received frame out for processing.
    pub fn next_received(&mut self) -> (frame: Option<CanFrame>)
        ensures
            old(self)@.wf() ==> final(self)@.wf(),
            final(self)@ == (LinkView { inbound: final(self)@.inbound, ..old(self)@ }),
            final(self)@.inbound.capacity == old(self)@.inbound.capacity,
            old(self)@.inbound.frames.len() > 0 ==> frame == Some(old(self)@.inbound.frames[0])
                && final(self)@.inbound.frames == old(self)@.inbound.frames.subrange(
                1,
                old(self)@.inbound.frames.len() as int,
            ),
            old(self)@.inbound.frames.len() == 0 ==> frame.is_none() && final(self)@.inbound.frames
                == old(self)@.inbound.frames,
    {
        self.inbound.pop()
    }

    /// Queues a frame for sending. The call never waits: a frame that finds
    /// the queue full is dropped and counted.
    pub fn submit(&mut self, frame: CanFrame) -> (queued: bool)
        ensures
            old(self)@.wf() ==> final(self)@.wf(),
            queued == !old(self)@.outbound.is_full(),
            final(self)@.bus == old(self)@.bus,
            final(self)@.inbound == old(self)@.inbound,
            final(self)@.awaiting_idle == old(self)@.awaiting_idle,
            final(self)@.outbound.capacity == old(self)@.outbound.capacity,
            final(self)@.outbound.frames == (if queued {
                old(self)@.outbound.frames.push(frame)
            } else {
                old(self)@.outbound.frames
            }),
            final(self)@.counters == (LinkCounters {
                outbound_overruns: if queued {
                    old(self)@.counters.outbound_overruns
                } else {
                    bumped(old(self)@.counters.outbound_overruns)
                },
                ..old(self)@.counters
            }),
    {
        if self.outbound.push(frame) {
            true
        } else {
            self.counters.outbound_overruns = bump(self.counters.outbound_overruns);
            false
        }
    }

    /// The frame to offer to the controller now, if any: the oldest that
    /// waits, and none while the transmitter is still busy with the frame
    /// before it. The frame stays queued until the controller's answer is
    /// reported.
    pub fn next_transmit(&mut self, transmitter_idle: bool) -> (frame: Option<CanFrame>)
        ensures
            final(self)@ == (LinkView {
                awaiting_idle: old(self)@.awaiting_idle && !transmitter_idle,
                ..old(self)@
            }),
            frame == (if old(self)@.may_transmit(transmitter_idle) && old(self)@.outbound.frames.len() > 0 {
                Some(old(self)@.outbound.frames[0])
            } else {
                None
            }),
    {
        if self.awaiting_idle {
            if !transmitter_idle {
                return None;
            }
            self.awaiting_idle = false;
        }
        self.outbound.front()
    }

    /// Takes the controller's answer to the frame last offered. A frame that
    /// was sent leaves the queue, and no other is offered until the
    /// transmitter is idle again. A frame that met a busy controller stays
    /// and is offered again. A frame that met an error is given up and
    /// counted.
    pub fn on_transmit(&mut self, outcome: TransmitOutcome)
        ensures
            old(self)@.wf() ==> final(self)@.wf(),
            final(self)@.bus == old(self)@.bus,
            final(self)@.inbound == old(self)@.inbound,
            final(self)@.outbound.capacity == old(self)@.outbound.capacity,
            final(self)@.outbound.frames == (if outcome != TransmitOutcome::WouldBlock && old(self)@.outbound.frames.len() > 0 {
                old(self)@.outbound.frames.subrange(1, old(self)@.outbound.frames.len() as int)
            } else {
                old(self)@.outbound.frames
            }),
            final(self)@.awaiting_idle == (old(self)@.awaiting_idle || outcome
                == TransmitOutcome::Sent),
            final(self)@.counters == (LinkCounters {
                transmit_errors: if outcome == TransmitOutcome::Failed {
                    bumped(old(self)@.counters.transmit_errors)
                } else {
                    old(self)@.counters.transmit_errors
                },
                ..old(self)@.counters
            }),
    {
        match outcome {
            TransmitOutcome::Sent => {
                let _ = self.outbound.pop();
                self.awaiting_idle = true;
            },
            TransmitOutcome::WouldBlock => {},
            TransmitOutcome::Failed => {
                let _ = self.outbound.pop();
                self.counters.transmit_errors = bump(self.counters.transmit_errors);
            },
        }
    }
}

} // verus!
