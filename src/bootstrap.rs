use vstd::prelude::*;

verus! {

/// How long startup pauses after launching the backend, so that the server
/// can bind its port before the window becomes interactive.
pub const STARTUP_GRACE_MILLIS: u64 = 2000;

/// One step of the startup protocol. A failing step is reported and startup
/// goes on with the next.
#[derive(Clone, Copy, Debug, PartialEq, Eq, Structural)]
pub enum StartupStep {
    /// Install the diagnostic log sink (debug builds only).
    InstallLogSink,
    /// Launch the backend server.
    StartBackend,
    /// Block the startup thread for the given time.
    Wait { millis: u64 },
    /// Build the tray icon and menu and route their events to the coordinator.
    CreateTray,
    /// Route close requests of the main window to the coordinator.
    InterceptWindowClose,
}

/// The steps of startup, in order.
pub open spec fn startup_sequence(debug_build: bool) -> Seq<StartupStep> {
    let common = seq![
        StartupStep::StartBackend,
        StartupStep::Wait { millis: STARTUP_GRACE_MILLIS },
        StartupStep::CreateTray,
        StartupStep::InterceptWindowClose,
    ];
    if debug_build {
        seq![StartupStep::InstallLogSink] + common
    } else {
        common
    }
}

/// The steps of startup, in the order they are to be performed.
pub fn startup_steps(debug_build: bool) -> (r: Vec<StartupStep>)
    ensures
        r@ == startup_sequence(debug_build),
{
    let mut steps: Vec<StartupStep> = Vec::new();
    if debug_build {
        steps.push(StartupStep::InstallLogSink);
    }
    steps.push(StartupStep::StartBackend);
    steps.push(StartupStep::Wait { millis: STARTUP_GRACE_MILLIS });
    steps.push(StartupStep::CreateTray);
    steps.push(StartupStep::InterceptWindowClose);
    assert(steps@ =~= startup_sequence(debug_build));
    steps
}

} // verus!
