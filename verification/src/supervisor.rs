//! The safety supervisor: the verdict on whether the contactor may be
//! energized, and the latch that carries it to the contactor driver.

use vstd::prelude::*;
use crate::diag::{DiagError, DiagEvent};
use crate::rapid::ParseError;
use crate::state::{CanonicalBatteryState, StateView};

verus! {

/// Age, in milliseconds, beyond which the last update is stale.
pub const STALENESS_THRESHOLD_MS: u64 = 10_000;

/// How the last decode went, as far as safety is concerned.
#[derive(Clone, Copy, Debug, PartialEq, Eq, Structural)]
pub enum LinkHealth {
    /// Nothing to report.
    Nominal,
    /// A frame or a block was dropped, or a session was given up; reading
    /// recovers by itself.
    Warning,
    /// The battery answered with something that was not asked for.
    Critical,
}

/// The health that an event of the diagnostic sequencer stands for.
pub open spec fn diag_health(event: DiagEvent) -> LinkHealth {
    match event {
        DiagEvent::Aborted(DiagError::UnexpectedBlock) => LinkHealth::Critical,
        DiagEvent::Aborted(_) => LinkHealth::Warning,
        DiagEvent::BlockRejected => LinkHealth::Warning,
        _ => LinkHealth::Nominal,
    }
}

/// The health that a result of the rapid processor stands for.
pub open spec fn rapid_health(done: Result<bool, ParseError>) -> LinkHealth {
    match done {
        Ok(_) => LinkHealth::Nominal,
        Err(_) => LinkHealth::Warning,
    }
}

/// Classifies an event of the diagnostic sequencer.
pub fn classify_diag(event: DiagEvent) -> (health: LinkHealth)
    ensures
        health == diag_health(event),
{
    match event {
        DiagEvent::Aborted(DiagError::UnexpectedBlock) => LinkHealth::Critical,
        DiagEvent::Aborted(_) => LinkHealth::Warning,
        DiagEvent::BlockRejected => LinkHealth::Warning,
        _ => LinkHealth::Nominal,
    }
}

/// Classifies a result of the rapid processor.
pub fn classify_rapid(done: Result<bool, ParseError>) -> (health: LinkHealth)
    ensures
        health == rapid_health(done),
{
    match done {
        Ok(_) => LinkHealth::Nominal,
        Err(_) => LinkHealth::Warning,
    }
}

/// Whether an update at `last_update` is stale at `now`.
pub open spec fn is_stale(now: u64, last_update: u64, threshold_ms: u64) -> bool {
    now - last_update > threshold_ms
}

/// Whether the contactor may be energized: it may, unless no complete update
/// was ever merged, the last update is stale, or the last decode met a
/// critical error.
pub open spec fn verdict(
    now: u64,
    last_update: u64,
    state: StateView,
    health: LinkHealth,
    threshold_ms: u64,
) -> bool {
    &&& state.updated
    &&& !is_stale(now, last_update, threshold_ms)
    &&& health != LinkHealth::Critical
}

/// The safety supervisor.
#[derive(Clone, Copy, Debug, PartialEq, Eq, Structural)]
pub struct SafetySupervisor {
    /// Age, in milliseconds, beyond which the last update is stale.
    pub threshold_ms: u64,
}

impl SafetySupervisor {
    /// A supervisor with the given staleness threshold.
    pub fn new(threshold_ms: u64) -> (supervisor: SafetySupervisor)
        ensures
            supervisor.threshold_ms == threshold_ms,
    {
        SafetySupervisor { threshold_ms }
    }

    /// Whether the contactor may be energized at `now`.
    pub fn evaluate(
        &self,
        now: u64,
        last_update: u64,
        state: &CanonicalBatteryState,
        health: LinkHealth,
    ) -> (safe: bool)
        ensures
            safe == verdict(now, last_update, state@, health, self.threshold_ms),
    {
        let stale = now > last_update && now - last_update > self.threshold_ms;
        let critical = match health {
            LinkHealth::Critical => true,
            _ => false,
        };
        state.updated() && !stale && !critical
    }
}

impl Default for SafetySupervisor {
    /// A supervisor with the staleness threshold of ten seconds.
    fn default() -> (supervisor: SafetySupervisor)
        ensures
            supervisor.threshold_ms == STALENESS_THRESHOLD_MS,
    {
        SafetySupervisor { threshold_ms: STALENESS_THRESHOLD_MS }
    }
}

/// A stale update is never safe, whatever the state and the health.
pub proof fn lemma_stale_is_unsafe(
    now: u64,
    last_update: u64,
    state: StateView,
    health: LinkHealth,
    threshold_ms: u64,
)
    requires
        is_stale(now, last_update, threshold_ms),
    ensures
        !verdict(now, last_update, state, health, threshold_ms),
{
}

/// While no complete update was merged the verdict is unsafe.
pub proof fn lemma_never_updated_is_unsafe(
    now: u64,
    last_update: u64,
    state: StateView,
    health: LinkHealth,
    threshold_ms: u64,
)
    requires
        !state.updated,
    ensures
        !verdict(now, last_update, state, health, threshold_ms),
{
}

/// Once stale, an update stays stale as time goes on: the verdict stays
/// unsafe at every later time until the state is updated.
pub proof fn lemma_stale_stays_unsafe(
    now: u64,
    later: u64,
    last_update: u64,
    state: StateView,
    health: LinkHealth,
    threshold_ms: u64,
)
    requires
        is_stale(now, last_update, threshold_ms),
        now <= later,
    ensures
        !verdict(later, last_update, state, health, threshold_ms),
{
}

/// At the moment of an update the state is safe, unless the last decode met
/// a critical error.
pub proof fn lemma_fresh_update_is_safe(
    now: u64,
    state: StateView,
    health: LinkHealth,
    threshold_ms: u64,
)
    requires
        state.updated,
        state.last_update_ms == now,
        health != LinkHealth::Critical,
    ensures
        verdict(now, state.last_update_ms, state, health, threshold_ms),
{
}

/// The verdict is a function of the times, of whether the state was ever
/// updated, of the health and of the threshold: judging again with these
/// unchanged gives the same answer, whatever else the state holds.
pub proof fn lemma_verdict_is_repeatable(
    now: u64,
    last_update: u64,
    first: StateView,
    second: StateView,
    health: LinkHealth,
    threshold_ms: u64,
)
    requires
        first.updated == second.updated,
    ensures
        verdict(now, last_update, first, health, threshold_ms) == verdict(
            now,
            last_update,
            second,
            health,
            threshold_ms,
        ),
{
}

/// A critical error makes the verdict unsafe whatever the age of the update.
pub proof fn lemma_critical_is_unsafe(
    now: u64,
    last_update: u64,
    state: StateView,
    threshold_ms: u64,
)
    ensures
        !verdict(now, last_update, state, LinkHealth::Critical, threshold_ms),
{
}

/// The slot of a latch as a value: the verdict that waits, if any.
pub struct LatchView {
    pub pending: Option<bool>,
}

/// The safety latch: a single slot that holds the latest verdict until the
/// contactor driver takes it. A new verdict replaces one that still waits.
#[derive(Clone, Copy, Debug, PartialEq, Eq)]
pub struct SafetyLatch {
    pending: Option<bool>,
}

impl View for SafetyLatch {
    type V = LatchView;

    closed spec fn view(&self) -> LatchView {
        LatchView { pending: self.pending }
    }
}

impl SafetyLatch {
    /// An empty latch.
    pub fn new() -> (latch: SafetyLatch)
        ensures
            latch@.pending == None::<bool>,
    {
        SafetyLatch { pending: None }
    }

    /// Writes a verdict; one that still waits is lost.
    pub fn signal(&mut self, safe: bool)
        ensures
            final(self)@.pending == Some(safe),
    {
        self.pending = Some(safe);
    }

    /// Takes the verdict that waits, if any, and leaves the latch empty.
    pub fn take(&mut self) -> (taken: Option<bool>)
        ensures
            taken == old(self)@.pending,
            final(self)@.pending == None::<bool>,
    {
        let taken = self.pending;
        self.pending = None;
        taken
    }

    /// The verdict that waits, if any.
    pub fn peek(&self) -> (pending: Option<bool>)
        ensures
            pending == self@.pending,
    {
        self.pending
    }
}

} // verus!
