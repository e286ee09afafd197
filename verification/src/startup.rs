//! Starting up: the services that this one depends on are waited for.
use vstd::prelude::*;

verus! {

/// The pause between two tries to reach the services.
pub const RECONNECT_PAUSE_SECS: u64 = 5;

/// What can happen while the services are being connected to.
#[derive(Debug, Clone, Copy, PartialEq, Eq, Structural)]
pub enum StartupEvent {
    /// The service has been told to stop.
    Shutdown,
    /// All services have been reached.
    Connected,
    /// A service could not be reached.
    Failed,
}

/// What follows.
#[derive(Debug, Clone, Copy, PartialEq, Eq, Structural)]
pub enum StartupStep {
    /// The service ends, without an error.
    Stop,
    /// The service goes on.
    Proceed,
    /// The services are tried again after a pause, however often that was.
    RetryAfterSecs(u64),
}

/// What follows an event of the startup.
pub open spec fn startup_step_of(event: StartupEvent) -> StartupStep {
    match event {
        StartupEvent::Shutdown => StartupStep::Stop,
        StartupEvent::Connected => StartupStep::Proceed,
        StartupEvent::Failed => StartupStep::RetryAfterSecs(RECONNECT_PAUSE_SECS),
    }
}

/// Decides how the startup goes on.
pub fn startup_step(event: StartupEvent) -> (r: StartupStep)
    ensures
        r == startup_step_of(event),
{
    match event {
        StartupEvent::Shutdown => StartupStep::Stop,
        StartupEvent::Connected => StartupStep::Proceed,
        StartupEvent::Failed => StartupStep::RetryAfterSecs(RECONNECT_PAUSE_SECS),
    }
}

} // verus!
