//! The lifecycle supervisor's state machine: from a state and an observed
//! event it decides the next state and what must be done to the guest engine.
//! The embedding owns the background thread, runs the engine and performs the
//! actions; every decision is taken here.

use crate::runtime::GlobalEvent;
use vstd::prelude::*;

verus! {

/// The supervisor's state.
#[derive(Clone, Copy, Debug, PartialEq, Eq, Structural)]
pub enum SupervisorState {
    /// No generation is running; the supervisor waits for a `Loaded` event
    /// before starting one.
    AwaitingInit,
    /// A generation of the guest engine is running.
    Running,
    /// The supervisor has stopped for good; no further generation starts.
    Terminated,
}

/// What the supervisor observes: a lifecycle event, the event channel closing,
/// or the outcome of the running guest engine's own event loop.
#[derive(Clone, Copy, Debug, PartialEq, Eq, Structural)]
pub enum SupervisorEvent {
    Event(GlobalEvent),
    EventChannelClosed,
    GuestFinished,
    GuestFailed,
}

/// What the embedding must do after a step.
#[derive(Clone, Copy, Debug, PartialEq, Eq, Structural)]
pub enum SupervisorAction {
    /// Reset the shared runtime state for a fresh generation and start the
    /// guest engine.
    BootGeneration,
    /// Deliver the unload signal into the running guest, then reset the
    /// shared state, tear the generation down and start a fresh one without
    /// waiting for `Loaded`.
    UnloadAndReboot,
    /// Deliver the unload signal and the mission-end signal into the running
    /// guest; the generation ends and the supervisor waits for `Loaded`.
    UnloadAndMissionEnd,
    /// Deliver the unload signal into the running guest, record the failure
    /// and stop: no further generation starts.
    UnloadAndStop,
    /// Record the failure and stop: no further generation starts.
    LogAndStop,
    /// Nothing to deliver; wait as the new state says.
    Idle,
}

impl SupervisorEvent {
    /// An outcome of the guest engine's own event loop, as opposed to a
    /// lifecycle event. Such an outcome can only be observed while a
    /// generation is running.
    pub open spec fn is_guest_outcome(self) -> bool {
        self is GuestFinished || self is GuestFailed
    }
}

/// The transition function of the lifecycle state machine.
///
/// While awaiting initialization only `Loaded` starts a generation; any other
/// lifecycle event there is a protocol violation and fatal. While running,
/// `MissionEnd` ends the generation and returns to awaiting initialization,
/// `Reload` starts a fresh generation at once, `Loaded` is fatal, a clean end
/// of the guest's own loop returns to awaiting initialization, and a guest
/// failure is fatal. A terminated supervisor stays terminated.
pub open spec fn spec_step(state: SupervisorState, event: SupervisorEvent) -> (SupervisorState,
    SupervisorAction) {
    match state {
        SupervisorState::AwaitingInit => match event {
            SupervisorEvent::Event(GlobalEvent::Loaded) => (
                SupervisorState::Running,
                SupervisorAction::BootGeneration,
            ),
            _ => (SupervisorState::Terminated, SupervisorAction::LogAndStop),
        },
        SupervisorState::Running => match event {
            SupervisorEvent::Event(GlobalEvent::Loaded) => (
                SupervisorState::Terminated,
                SupervisorAction::UnloadAndStop,
            ),
            SupervisorEvent::Event(GlobalEvent::MissionEnd) => (
                SupervisorState::AwaitingInit,
                SupervisorAction::UnloadAndMissionEnd,
            ),
            SupervisorEvent::Event(GlobalEvent::Reload) => (
                SupervisorState::Running,
                SupervisorAction::UnloadAndReboot,
            ),
            SupervisorEvent::EventChannelClosed => (
                SupervisorState::Terminated,
                SupervisorAction::UnloadAndStop,
            ),
            SupervisorEvent::GuestFinished => (
                SupervisorState::AwaitingInit,
                SupervisorAction::Idle,
            ),
            SupervisorEvent::GuestFailed => (
                SupervisorState::Terminated,
                SupervisorAction::LogAndStop,
            ),
        },
        SupervisorState::Terminated => (SupervisorState::Terminated, SupervisorAction::Idle),
    }
}

/// One step of the lifecycle state machine.
pub fn step(state: SupervisorState, event: SupervisorEvent) -> (r: (
    SupervisorState,
    SupervisorAction,
))
    requires
        event.is_guest_outcome() ==> state is Running,
    ensures
        r == spec_step(state, event),
{
    match state {
        SupervisorState::AwaitingInit => match event {
            SupervisorEvent::Event(GlobalEvent::Loaded) => (
                SupervisorState::Running,
                SupervisorAction::BootGeneration,
            ),
            _ => (SupervisorState::Terminated, SupervisorAction::LogAndStop),
        },
        SupervisorState::Running => match event {
            SupervisorEvent::Event(GlobalEvent::Loaded) => (
                SupervisorState::Terminated,
                SupervisorAction::UnloadAndStop,
            ),
            SupervisorEvent::Event(GlobalEvent::MissionEnd) => (
                SupervisorState::AwaitingInit,
                SupervisorAction::UnloadAndMissionEnd,
            ),
            SupervisorEvent::Event(GlobalEvent::Reload) => (
                SupervisorState::Running,
                SupervisorAction::UnloadAndReboot,
            ),
            SupervisorEvent::EventChannelClosed => (
                SupervisorState::Terminated,
                SupervisorAction::UnloadAndStop,
            ),
            SupervisorEvent::GuestFinished => (
                SupervisorState::AwaitingInit,
                SupervisorAction::Idle,
            ),
            SupervisorEvent::GuestFailed => (
                SupervisorState::Terminated,
                SupervisorAction::LogAndStop,
            ),
        },
        SupervisorState::Terminated => (SupervisorState::Terminated, SupervisorAction::Idle),
    }
}

} // verus!
