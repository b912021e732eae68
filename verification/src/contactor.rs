//! The contactor driver: the sequence that pulls the main relay in, holds it
//! and lets it go.

use vstd::prelude::*;

verus! {

/// Time, in milliseconds, for which the coil is driven at full duty.
pub const PULL_IN_DELAY_MS: u64 = 100;

/// Where the contactor is in its sequence.
#[derive(Clone, Copy, Debug, PartialEq, Eq, Structural)]
pub enum ContactorState {
    /// The output is off.
    Open,
    /// The coil is driven at full duty until the pull-in delay has passed.
    Energizing,
    /// The coil is held at reduced duty.
    Holding,
}

/// What the driver is told.
#[derive(Clone, Copy, Debug, PartialEq, Eq, Structural)]
pub enum ContactorEvent {
    /// The latch carried a safe verdict.
    Enable,
    /// The latch carried an unsafe verdict.
    Disable,
    /// The pull-in delay has passed.
    PullInElapsed,
}

/// What the caller has to do to the output.
#[derive(Clone, Copy, Debug, PartialEq, Eq, Structural)]
pub enum ContactorAction {
    /// Leave the output as it is.
    Unchanged,
    /// Enable the output at full duty and start the pull-in delay.
    Energize,
    /// Reduce the output to the holding duty.
    Hold,
    /// Set the duty to zero and disable the output.
    Release,
}

/// The duty at which the coil is held: three quarters of full duty.
pub open spec fn holding_duty(full_duty: u16) -> u16 {
    (full_duty / 4 * 3) as u16
}

/// The duty that the output has in a state.
pub open spec fn duty_in(state: ContactorState, full_duty: u16) -> u16 {
    match state {
        ContactorState::Open => 0,
        ContactorState::Energizing => full_duty,
        ContactorState::Holding => holding_duty(full_duty),
    }
}

/// The state that follows an event.
pub open spec fn next_state(state: ContactorState, event: ContactorEvent) -> ContactorState {
    match (state, event) {
        (_, ContactorEvent::Disable) => ContactorState::Open,
        (ContactorState::Open, ContactorEvent::Enable) => ContactorState::Energizing,
        (ContactorState::Energizing, ContactorEvent::PullInElapsed) => ContactorState::Holding,
        _ => state,
    }
}

/// What has to be done to the output on an event.
pub open spec fn action_on(state: ContactorState, event: ContactorEvent) -> ContactorAction {
    match (state, event) {
        (ContactorState::Open, ContactorEvent::Enable) => ContactorAction::Energize,
        (ContactorState::Energizing, ContactorEvent::PullInElapsed) => ContactorAction::Hold,
        (ContactorState::Energizing, ContactorEvent::Disable) => ContactorAction::Release,
        (ContactorState::Holding, ContactorEvent::Disable) => ContactorAction::Release,
        _ => ContactorAction::Unchanged,
    }
}

/// The driver as a value.
pub struct ContactorView {
    pub state: ContactorState,
    pub full_duty: u16,
}

impl ContactorView {
    /// The duty that the output has.
    pub open spec fn duty(self) -> u16 {
        duty_in(self.state, self.full_duty)
    }

    /// The driver after an event.
    pub open spec fn after(self, event: ContactorEvent) -> ContactorView {
        ContactorView { state: next_state(self.state, event), full_duty: self.full_duty }
    }
}

/// The contactor driver.
#[derive(Clone, Copy, Debug, PartialEq, Eq)]
pub struct ContactorDriver {
    state: ContactorState,
    full_duty: u16,
}

impl View for ContactorDriver {
    type V = ContactorView;

    closed spec fn view(&self) -> ContactorView {
        ContactorView { state: self.state, full_duty: self.full_duty }
    }
}

impl ContactorDriver {
    /// A driver with the contactor open.
    pub fn new(full_duty: u16) -> (driver: ContactorDriver)
        ensures
            driver@ == (ContactorView { state: ContactorState::Open, full_duty }),
    {
        ContactorDriver { state: ContactorState::Open, full_duty }
    }

    /// Where the contactor is in its sequence.
    pub fn state(&self) -> (state: ContactorState)
        ensures
            state == self@.state,
    {
        self.state
    }

    /// The duty that the output has.
    pub fn duty(&self) -> (duty: u16)
        ensures
            duty == self@.duty(),
    {
        match self.state {
            ContactorState::Open => 0,
            ContactorState::Energizing => self.full_duty,
            ContactorState::Holding => self.full_duty / 4 * 3,
        }
    }

    /// Takes an event and says what to do to the output.
    pub fn step(&mut self, event: ContactorEvent) -> (action: ContactorAction)
        ensures
            final(self)@ == old(self)@.after(event),
            action == action_on(old(self)@.state, event),
    {
        match (self.state, event) {
            (ContactorState::Open, ContactorEvent::Enable) => {
                self.state = ContactorState::Energizing;
                ContactorAction::Energize
            },
            (ContactorState::Energizing, ContactorEvent::PullInElapsed) => {
                self.state = ContactorState::Holding;
                ContactorAction::Hold
            },
            (ContactorState::Energizing, ContactorEvent::Disable) => {
                self.state = ContactorState::Open;
                ContactorAction::Release
            },
            (ContactorState::Holding, ContactorEvent::Disable) => {
                self.state = ContactorState::Open;
                ContactorAction::Release
            },
            _ => ContactorAction::Unchanged,
        }
    }

    /// Takes a verdict from the latch.
    pub fn on_verdict(&mut self, safe: bool) -> (action: ContactorAction)
        ensures
            final(self)@ == old(self)@.after(verdict_event(safe)),
            action == action_on(old(self)@.state, verdict_event(safe)),
    {
        if safe {
            self.step(ContactorEvent::Enable)
        } else {
            self.step(ContactorEvent::Disable)
        }
    }
}

/// The event that a verdict stands for.
pub open spec fn verdict_event(safe: bool) -> ContactorEvent {
    if safe {
        ContactorEvent::Enable
    } else {
        ContactorEvent::Disable
    }
}

/// A disable opens the contactor from every state, and the output is then
/// at zero duty.
pub proof fn lemma_disable_opens(driver: ContactorView)
    ensures
        driver.after(ContactorEvent::Disable).state == ContactorState::Open,
        driver.after(ContactorEvent::Disable).duty() == 0,
{
}

/// An enable that is followed by a disable before the pull-in delay has
/// passed leaves the contactor open at zero duty, and a pull-in delay that
/// runs out afterwards changes nothing.
pub proof fn lemma_enable_then_disable_opens(driver: ContactorView)
    ensures
        driver.after(ContactorEvent::Enable).after(ContactorEvent::Disable).state
            == ContactorState::Open,
        driver.after(ContactorEvent::Enable).after(ContactorEvent::Disable).duty() == 0,
        driver.after(ContactorEvent::Enable).after(ContactorEvent::Disable).after(
            ContactorEvent::PullInElapsed,
        ) == driver.after(ContactorEvent::Enable).after(ContactorEvent::Disable),
        action_on(
            driver.after(ContactorEvent::Enable).after(ContactorEvent::Disable).state,
            ContactorEvent::PullInElapsed,
        ) == ContactorAction::Unchanged,
{
}

/// An enable while the contactor is holding, or still pulling in, changes
/// nothing and asks for nothing.
pub proof fn lemma_repeated_enable_is_no_op(driver: ContactorView)
    requires
        driver.state != ContactorState::Open,
    ensures
        driver.after(ContactorEvent::Enable) == driver,
        driver.after(ContactorEvent::Enable).duty() == driver.duty(),
        action_on(driver.state, ContactorEvent::Enable) == ContactorAction::Unchanged,
{
}

/// The output only ever has one of three duties: zero, full, or holding.
pub proof fn lemma_duty_is_one_of_three(driver: ContactorView)
    ensures
        driver.duty() == 0 || driver.duty() == driver.full_duty || driver.duty() == holding_duty(
            driver.full_duty,
        ),
{
}

} // verus!
