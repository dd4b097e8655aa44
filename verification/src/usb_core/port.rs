//! Bringing up a newly connected port: power, reset, enable, then the
//! device gets its address. Each step waits on the hub, so the sequence is
//! a state machine: the caller performs each action and reports back.
use vstd::prelude::*;
use crate::usb_core::hub::PortFeature;

verus! {

/// Milliseconds to hold reset before looking at it.
pub const RESET_HOLD_MS: u64 = 50;
/// Ticks to wait for reset to clear, and for the port to enable.
pub const PORT_TIMEOUT_TICKS: u64 = 50;
/// Pause between polls of the reset feature.
pub const RESET_POLL_MS: u64 = 2;
/// Pause after reset, before looking at the enable feature.
pub const SETTLE_MS: u64 = 2;
/// Pause between polls of the enable feature.
pub const ENABLE_POLL_MS: u64 = 5;

/// Where port bring-up stands.
#[derive(Copy, Clone, Debug, PartialEq, Eq, Structural)]
pub enum PortInitState {
    /// Nothing done yet
    Start,
    /// Waiting for the power feature
    AwaitPower,
    /// Power was switched on
    PowerSet,
    /// Waiting for power to stabilise
    PowerSettling,
    /// Reset was requested
    ResetSet,
    /// Reset is being held
    ResetHeld,
    /// Waiting for the reset feature, just after holding it
    AwaitReset,
    /// Reset was cleared by hand
    ResetCleared,
    /// Waiting for reset to clear, until the deadline tick
    AwaitResetClear { deadline: u64 },
    /// Pausing before polling reset again
    ResetPollPause { deadline: u64 },
    /// Pausing before looking at the enable feature
    Settling,
    /// Waiting for the enable feature
    AwaitEnable,
    /// Enable was requested
    EnableSet,
    /// Waiting for the port to enable, until the deadline tick
    AwaitEnabled { deadline: u64 },
    /// Pausing before polling enable again
    EnablePollPause { deadline: u64 },
    /// The device is being given its address
    Addressing,
    /// Finished: the port is up and addressed
    Done,
    /// Finished: the port did not come up
    Failed,
}

/// What the caller does next.
#[derive(Copy, Clone, Debug, PartialEq, Eq, Structural)]
pub enum PortInitAction {
    /// Read a port feature and report it
    Query(PortFeature),
    /// Set a port feature
    SetFeature(PortFeature),
    /// Clear a port feature
    ClearFeature(PortFeature),
    /// Sleep this many milliseconds
    Sleep(u64),
    /// Sleep for the hub's power-on-to-power-good time
    SleepPowerStable,
    /// Send SET_ADDRESS to the device at address 0
    SendSetAddress,
    /// Bring-up is over, successfully or not
    Finish(bool),
}

/// What the caller reports back.
#[derive(Copy, Clone, Debug, PartialEq, Eq, Structural)]
pub enum PortInitEvent {
    /// The queried feature's value
    Feature(bool),
    /// The action finished
    Completed,
}

/// The step of bring-up: from a state and what was reported (at tick
/// `now`), the next state and what to do.
pub open spec fn port_init_step(s: PortInitState, ev: PortInitEvent, now: u64) -> (PortInitState, PortInitAction) {
    match (s, ev) {
        (PortInitState::Start, _) => (PortInitState::AwaitPower, PortInitAction::Query(PortFeature::Power)),
        (PortInitState::AwaitPower, PortInitEvent::Feature(true)) => (PortInitState::ResetSet, PortInitAction::SetFeature(PortFeature::Reset)),
        (PortInitState::AwaitPower, PortInitEvent::Feature(false)) => (PortInitState::PowerSet, PortInitAction::SetFeature(PortFeature::Power)),
        (PortInitState::PowerSet, PortInitEvent::Completed) => (PortInitState::PowerSettling, PortInitAction::SleepPowerStable),
        (PortInitState::PowerSettling, PortInitEvent::Completed) => (PortInitState::ResetSet, PortInitAction::SetFeature(PortFeature::Reset)),
        (PortInitState::ResetSet, PortInitEvent::Completed) => (PortInitState::ResetHeld, PortInitAction::Sleep(RESET_HOLD_MS)),
        (PortInitState::ResetHeld, PortInitEvent::Completed) => (PortInitState::AwaitReset, PortInitAction::Query(PortFeature::Reset)),
        (PortInitState::AwaitReset, PortInitEvent::Feature(true)) => (PortInitState::ResetCleared, PortInitAction::ClearFeature(PortFeature::Reset)),
        (PortInitState::AwaitReset, PortInitEvent::Feature(false)) => (PortInitState::Settling, PortInitAction::Sleep(SETTLE_MS)),
        (PortInitState::ResetCleared, PortInitEvent::Completed) => (
            PortInitState::AwaitResetClear { deadline: (now + PORT_TIMEOUT_TICKS) as u64 },
            PortInitAction::Query(PortFeature::Reset),
        ),
        (PortInitState::AwaitResetClear { deadline }, PortInitEvent::Feature(true)) => if now > deadline {
            (PortInitState::Failed, PortInitAction::Finish(false))
        } else {
            (PortInitState::ResetPollPause { deadline }, PortInitAction::Sleep(RESET_POLL_MS))
        },
        (PortInitState::AwaitResetClear { .. }, PortInitEvent::Feature(false)) => (PortInitState::Settling, PortInitAction::Sleep(SETTLE_MS)),
        (PortInitState::ResetPollPause { deadline }, PortInitEvent::Completed) => (
            PortInitState::AwaitResetClear { deadline },
            PortInitAction::Query(PortFeature::Reset),
        ),
        (PortInitState::Settling, PortInitEvent::Completed) => (PortInitState::AwaitEnable, PortInitAction::Query(PortFeature::Enable)),
        (PortInitState::AwaitEnable, PortInitEvent::Feature(true)) => (PortInitState::Addressing, PortInitAction::SendSetAddress),
        (PortInitState::AwaitEnable, PortInitEvent::Feature(false)) => (PortInitState::EnableSet, PortInitAction::SetFeature(PortFeature::Enable)),
        (PortInitState::EnableSet, PortInitEvent::Completed) => (
            PortInitState::AwaitEnabled { deadline: (now + PORT_TIMEOUT_TICKS) as u64 },
            PortInitAction::Query(PortFeature::Enable),
        ),
        (PortInitState::AwaitEnabled { .. }, PortInitEvent::Feature(true)) => (PortInitState::Addressing, PortInitAction::SendSetAddress),
        (PortInitState::AwaitEnabled { deadline }, PortInitEvent::Feature(false)) => if now > deadline {
            (PortInitState::Failed, PortInitAction::Finish(false))
        } else {
            (PortInitState::EnablePollPause { deadline }, PortInitAction::Sleep(ENABLE_POLL_MS))
        },
        (PortInitState::EnablePollPause { deadline }, PortInitEvent::Completed) => (
            PortInitState::AwaitEnabled { deadline },
            PortInitAction::Query(PortFeature::Enable),
        ),
        (PortInitState::Addressing, PortInitEvent::Completed) => (PortInitState::Done, PortInitAction::Finish(true)),
        _ => (s, PortInitAction::Finish(s == PortInitState::Done)),
    }
}

/// The report a state waits for: a feature value after a query, a
/// completion after anything else; nothing once finished.
pub open spec fn expects(s: PortInitState, ev: PortInitEvent) -> bool {
    match s {
        PortInitState::Start => true,
        PortInitState::AwaitPower | PortInitState::AwaitReset | PortInitState::AwaitResetClear { .. }
        | PortInitState::AwaitEnable | PortInitState::AwaitEnabled { .. } => ev is Feature,
        PortInitState::Done | PortInitState::Failed => false,
        _ => ev is Completed,
    }
}

/// Bring-up of one port.
pub struct PortInit {
    pub state: PortInitState,
}

impl PortInit {
    /// Bring-up not yet begun.
    pub fn new() -> (r: PortInit)
        ensures
            r.state == PortInitState::Start,
    {
        PortInit { state: PortInitState::Start }
    }

    /// Take the report of the last action (anything, to begin) at tick
    /// `now`, and say what to do next.
    pub fn step(&mut self, ev: PortInitEvent, now: u64) -> (r: PortInitAction)
        requires
            expects(old(self).state, ev),
            now + PORT_TIMEOUT_TICKS <= u64::MAX,
        ensures
            (final(self).state, r) == port_init_step(old(self).state, ev, now),
    {
        let (s, a) = match (self.state, ev) {
            (PortInitState::Start, _) => (PortInitState::AwaitPower, PortInitAction::Query(PortFeature::Power)),
            (PortInitState::AwaitPower, PortInitEvent::Feature(true)) => (PortInitState::ResetSet, PortInitAction::SetFeature(PortFeature::Reset)),
            (PortInitState::AwaitPower, PortInitEvent::Feature(false)) => (PortInitState::PowerSet, PortInitAction::SetFeature(PortFeature::Power)),
            (PortInitState::PowerSet, PortInitEvent::Completed) => (PortInitState::PowerSettling, PortInitAction::SleepPowerStable),
            (PortInitState::PowerSettling, PortInitEvent::Completed) => (PortInitState::ResetSet, PortInitAction::SetFeature(PortFeature::Reset)),
            (PortInitState::ResetSet, PortInitEvent::Completed) => (PortInitState::ResetHeld, PortInitAction::Sleep(RESET_HOLD_MS)),
            (PortInitState::ResetHeld, PortInitEvent::Completed) => (PortInitState::AwaitReset, PortInitAction::Query(PortFeature::Reset)),
            (PortInitState::AwaitReset, PortInitEvent::Feature(true)) => (PortInitState::ResetCleared, PortInitAction::ClearFeature(PortFeature::Reset)),
            (PortInitState::AwaitReset, PortInitEvent::Feature(false)) => (PortInitState::Settling, PortInitAction::Sleep(SETTLE_MS)),
            (PortInitState::ResetCleared, PortInitEvent::Completed) => (
                PortInitState::AwaitResetClear { deadline: now + PORT_TIMEOUT_TICKS },
                PortInitAction::Query(PortFeature::Reset),
            ),
            (PortInitState::AwaitResetClear { deadline }, PortInitEvent::Feature(true)) => if now > deadline {
                (PortInitState::Failed, PortInitAction::Finish(false))
            } else {
                (PortInitState::ResetPollPause { deadline }, PortInitAction::Sleep(RESET_POLL_MS))
            },
            (PortInitState::AwaitResetClear { .. }, PortInitEvent::Feature(false)) => (PortInitState::Settling, PortInitAction::Sleep(SETTLE_MS)),
            (PortInitState::ResetPollPause { deadline }, PortInitEvent::Completed) => (
                PortInitState::AwaitResetClear { deadline },
                PortInitAction::Query(PortFeature::Reset),
            ),
            (PortInitState::Settling, PortInitEvent::Completed) => (PortInitState::AwaitEnable, PortInitAction::Query(PortFeature::Enable)),
            (PortInitState::AwaitEnable, PortInitEvent::Feature(true)) => (PortInitState::Addressing, PortInitAction::SendSetAddress),
            (PortInitState::AwaitEnable, PortInitEvent::Feature(false)) => (PortInitState::EnableSet, PortInitAction::SetFeature(PortFeature::Enable)),
            (PortInitState::EnableSet, PortInitEvent::Completed) => (
                PortInitState::AwaitEnabled { deadline: now + PORT_TIMEOUT_TICKS },
                PortInitAction::Query(PortFeature::Enable),
            ),
            (PortInitState::AwaitEnabled { .. }, PortInitEvent::Feature(true)) => (PortInitState::Addressing, PortInitAction::SendSetAddress),
            (PortInitState::AwaitEnabled { deadline }, PortInitEvent::Feature(false)) => if now > deadline {
                (PortInitState::Failed, PortInitAction::Finish(false))
            } else {
                (PortInitState::EnablePollPause { deadline }, PortInitAction::Sleep(ENABLE_POLL_MS))
            },
            (PortInitState::EnablePollPause { deadline }, PortInitEvent::Completed) => (
                PortInitState::AwaitEnabled { deadline },
                PortInitAction::Query(PortFeature::Enable),
            ),
            (PortInitState::Addressing, PortInitEvent::Completed) => (PortInitState::Done, PortInitAction::Finish(true)),
            (st, _) => (st, PortInitAction::Finish(st == PortInitState::Done)),
        };
        self.state = s;
        a
    }
}

/// Bring-up reports that it is over exactly when it reaches one of its two
/// final states, and reports success exactly when that state is `Done`.
pub proof fn lemma_finish_iff_final(s: PortInitState, ev: PortInitEvent, now: u64)
    requires
        expects(s, ev),
    ensures
        port_init_step(s, ev, now).1 is Finish <==> (port_init_step(s, ev, now).0 == PortInitState::Done
            || port_init_step(s, ev, now).0 == PortInitState::Failed),
        port_init_step(s, ev, now).1 == PortInitAction::Finish(true) <==> port_init_step(s, ev, now).0 == PortInitState::Done,
{
}

} // verus!
