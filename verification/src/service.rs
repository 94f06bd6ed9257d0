//! Driver-service install and uninstall decisions.
//!
//! Installing the backing kernel service is a sequence of OS calls —
//! take the named cross-process install mutex, open the service manager,
//! open or create the service, register its event source, start it, and
//! mark the service entry for deletion once the driver is loaded — where
//! several failure codes are expected outcomes of racing installers, not
//! errors.  The decision logic lives here as a step function from state
//! and call outcome to next state, so every tolerated code is stated
//! exactly; a platform shim performs each state's OS call and feeds the
//! outcome back.

use vstd::prelude::*;

verus! {

/// OS status code: the service is already running.
pub const ERROR_SERVICE_ALREADY_RUNNING: u32 = 1056;

/// OS status code: the service cannot accept control messages now.
pub const ERROR_SERVICE_CANNOT_ACCEPT_CTRL: u32 = 1061;

/// OS status code: the service has not been started.
pub const ERROR_SERVICE_NOT_ACTIVE: u32 = 1062;

/// OS status code: the service is marked for deletion.
pub const ERROR_SERVICE_MARKED_FOR_DELETE: u32 = 1072;

/// OS status code: the service already exists.
pub const ERROR_SERVICE_EXISTS: u32 = 1073;

/// Starting a service that is already running installed it all the same:
/// only other failure codes surface.
pub open spec fn spec_start_outcome(ok: bool, code: u32) -> Result<(), u32> {
    if ok || code == ERROR_SERVICE_ALREADY_RUNNING {
        Ok(())
    } else {
        Err(code)
    }
}

/// The verdict on a service start call's outcome.
pub fn start_outcome(ok: bool, code: u32) -> (r: Result<(), u32>)
    ensures
        r == spec_start_outcome(ok, code),
{
    if ok || code == ERROR_SERVICE_ALREADY_RUNNING {
        Ok(())
    } else {
        Err(code)
    }
}

/// Stopping a service that is not active, or that is already stopping and
/// cannot accept the control, counts as stopped: only other failure codes
/// surface.
pub open spec fn spec_stop_outcome(ok: bool, code: u32) -> Result<(), u32> {
    if ok || code == ERROR_SERVICE_NOT_ACTIVE || code == ERROR_SERVICE_CANNOT_ACCEPT_CTRL {
        Ok(())
    } else {
        Err(code)
    }
}

/// The verdict on a service stop call's outcome.
pub fn stop_outcome(ok: bool, code: u32) -> (r: Result<(), u32>)
    ensures
        r == spec_stop_outcome(ok, code),
{
    if ok || code == ERROR_SERVICE_NOT_ACTIVE || code == ERROR_SERVICE_CANNOT_ACCEPT_CTRL {
        Ok(())
    } else {
        Err(code)
    }
}

/// Marking a service that is already marked for deletion counts as
/// marked: only other failure codes surface.
pub open spec fn spec_mark_for_deletion_outcome(ok: bool, code: u32) -> Result<(), u32> {
    if ok || code == ERROR_SERVICE_MARKED_FOR_DELETE {
        Ok(())
    } else {
        Err(code)
    }
}

/// The verdict on a delete-service call's outcome.
pub fn mark_for_deletion_outcome(ok: bool, code: u32) -> (r: Result<(), u32>)
    ensures
        r == spec_mark_for_deletion_outcome(ok, code),
{
    if ok || code == ERROR_SERVICE_MARKED_FOR_DELETE {
        Ok(())
    } else {
        Err(code)
    }
}

/// The states of a driver installation, each naming the OS call the shim
/// performs next.
#[derive(Debug, Copy, Clone, PartialEq, Eq)]
pub enum InstallState {
    /// Wait on the named cross-process install mutex; an abandoned mutex
    /// counts as acquired.
    LockingMutex,
    /// Open the service control manager.
    OpeningManager,
    /// Open the existing driver service.
    OpeningService,
    /// Create the driver service, racing other installers.
    CreatingService,
    /// The create call raced a concurrent installer: open the service it
    /// created.
    ReopeningService,
    /// Register the driver's event source, best effort.
    RegisteringEventSource,
    /// Start the driver service.
    StartingService,
    /// Mark the service entry for deletion; the loaded driver stays.
    MarkingForDeletion,
    /// Release the install mutex, carrying the failure code to report, if
    /// any.
    ReleasingMutex(Option<u32>),
    /// The installation ended with the carried verdict.
    Finished(Result<(), u32>),
}

/// The state a driver installation starts in.
pub fn install_initial() -> (r: InstallState)
    ensures
        r == InstallState::LockingMutex,
{
    InstallState::LockingMutex
}

/// The next installation state after the current state's OS call reported
/// `ok`, or failed with `code`.
///
/// The tolerated codes are exact: a create call losing the race to an
/// existing service reopens it; starting an already-running service is
/// success; the event-source registration and the deletion mark are best
/// effort; a manager or create failure ends the attempt without a
/// reported error, leaving the verdict to a later attempt's open calls.
pub open spec fn spec_install_step(state: InstallState, ok: bool, code: u32) -> InstallState {
    match state {
        InstallState::LockingMutex => {
            if ok {
                InstallState::OpeningManager
            } else {
                InstallState::Finished(Err(code))
            }
        },
        InstallState::OpeningManager => {
            if ok {
                InstallState::OpeningService
            } else {
                InstallState::ReleasingMutex(None)
            }
        },
        InstallState::OpeningService => {
            if ok {
                InstallState::RegisteringEventSource
            } else {
                InstallState::CreatingService
            }
        },
        InstallState::CreatingService => {
            if ok {
                InstallState::RegisteringEventSource
            } else if code == ERROR_SERVICE_EXISTS {
                InstallState::ReopeningService
            } else {
                InstallState::ReleasingMutex(None)
            }
        },
        InstallState::ReopeningService => {
            if ok {
                InstallState::RegisteringEventSource
            } else {
                InstallState::ReleasingMutex(Some(code))
            }
        },
        InstallState::RegisteringEventSource => InstallState::StartingService,
        InstallState::StartingService => {
            match spec_start_outcome(ok, code) {
                Ok(()) => InstallState::MarkingForDeletion,
                Err(c) => InstallState::ReleasingMutex(Some(c)),
            }
        },
        InstallState::MarkingForDeletion => InstallState::ReleasingMutex(None),
        InstallState::ReleasingMutex(failed) => {
            match failed {
                None => InstallState::Finished(Ok(())),
                Some(c) => InstallState::Finished(Err(c)),
            }
        },
        InstallState::Finished(v) => InstallState::Finished(v),
    }
}

/// Advances a driver installation by one OS call outcome, exactly as
/// [`spec_install_step`] defines it.
pub fn install_step(state: InstallState, ok: bool, code: u32) -> (r: InstallState)
    ensures
        r == spec_install_step(state, ok, code),
{
    match state {
        InstallState::LockingMutex => {
            if ok {
                InstallState::OpeningManager
            } else {
                InstallState::Finished(Err(code))
            }
        },
        InstallState::OpeningManager => {
            if ok {
                InstallState::OpeningService
            } else {
                InstallState::ReleasingMutex(None)
            }
        },
        InstallState::OpeningService => {
            if ok {
                InstallState::RegisteringEventSource
            } else {
                InstallState::CreatingService
            }
        },
        InstallState::CreatingService => {
            if ok {
                InstallState::RegisteringEventSource
            } else if code == ERROR_SERVICE_EXISTS {
                InstallState::ReopeningService
            } else {
                InstallState::ReleasingMutex(None)
            }
        },
        InstallState::ReopeningService => {
            if ok {
                InstallState::RegisteringEventSource
            } else {
                InstallState::ReleasingMutex(Some(code))
            }
        },
        InstallState::RegisteringEventSource => InstallState::StartingService,
        InstallState::StartingService => {
            match start_outcome(ok, code) {
                Ok(()) => InstallState::MarkingForDeletion,
                Err(c) => InstallState::ReleasingMutex(Some(c)),
            }
        },
        InstallState::MarkingForDeletion => InstallState::ReleasingMutex(None),
        InstallState::ReleasingMutex(failed) => {
            match failed {
                None => InstallState::Finished(Ok(())),
                Some(c) => InstallState::Finished(Err(c)),
            }
        },
        InstallState::Finished(v) => InstallState::Finished(v),
    }
}

/// Law: an installation finishes within a bounded number of steps — every
/// state other than the finished one moves strictly down a fixed rank, so
/// the shim's loop terminates whatever outcomes the OS reports.
pub open spec fn spec_install_rank(state: InstallState) -> int {
    match state {
        InstallState::LockingMutex => 9,
        InstallState::OpeningManager => 8,
        InstallState::OpeningService => 7,
        InstallState::CreatingService => 6,
        InstallState::ReopeningService => 5,
        InstallState::RegisteringEventSource => 4,
        InstallState::StartingService => 3,
        InstallState::MarkingForDeletion => 2,
        InstallState::ReleasingMutex(_) => 1,
        InstallState::Finished(_) => 0,
    }
}

/// Law: each installation step strictly decreases the rank until the
/// machine is finished.
pub proof fn lemma_install_step_terminates(state: InstallState, ok: bool, code: u32)
    ensures
        state is Finished || spec_install_rank(spec_install_step(state, ok, code))
            < spec_install_rank(state),
{
}

/// The states of a driver uninstall, each naming the OS call the shim
/// performs next.
#[derive(Debug, Copy, Clone, PartialEq, Eq)]
pub enum UninstallState {
    /// Open the service control manager.
    OpeningManager,
    /// Open the driver service.
    OpeningService,
    /// Send the service the stop control.
    StoppingService,
    /// Release the service handle.
    ClosingService,
    /// Release the manager handle.
    ClosingManager,
    /// The uninstall ended with the carried verdict.
    Finished(Result<(), u32>),
}

/// The state a driver uninstall starts in.
pub fn uninstall_initial() -> (r: UninstallState)
    ensures
        r == UninstallState::OpeningManager,
{
    UninstallState::OpeningManager
}

/// The next uninstall state after the current state's OS call reported
/// `ok`, or failed with `code`: every failure surfaces with its code.
pub open spec fn spec_uninstall_step(state: UninstallState, ok: bool, code: u32) -> UninstallState {
    match state {
        UninstallState::OpeningManager => {
            if ok {
                UninstallState::OpeningService
            } else {
                UninstallState::Finished(Err(code))
            }
        },
        UninstallState::OpeningService => {
            if ok {
                UninstallState::StoppingService
            } else {
                UninstallState::Finished(Err(code))
            }
        },
        UninstallState::StoppingService => {
            if ok {
                UninstallState::ClosingService
            } else {
                UninstallState::Finished(Err(code))
            }
        },
        UninstallState::ClosingService => {
            if ok {
                UninstallState::ClosingManager
            } else {
                UninstallState::Finished(Err(code))
            }
        },
        UninstallState::ClosingManager => {
            if ok {
                UninstallState::Finished(Ok(()))
            } else {
                UninstallState::Finished(Err(code))
            }
        },
        UninstallState::Finished(v) => UninstallState::Finished(v),
    }
}

/// Advances a driver uninstall by one OS call outcome, exactly as
/// [`spec_uninstall_step`] defines it.
pub fn uninstall_step(state: UninstallState, ok: bool, code: u32) -> (r: UninstallState)
    ensures
        r == spec_uninstall_step(state, ok, code),
{
    match state {
        UninstallState::OpeningManager => {
            if ok {
                UninstallState::OpeningService
            } else {
                UninstallState::Finished(Err(code))
            }
        },
        UninstallState::OpeningService => {
            if ok {
                UninstallState::StoppingService
            } else {
                UninstallState::Finished(Err(code))
            }
        },
        UninstallState::StoppingService => {
            if ok {
                UninstallState::ClosingService
            } else {
                UninstallState::Finished(Err(code))
            }
        },
        UninstallState::ClosingService => {
            if ok {
                UninstallState::ClosingManager
            } else {
                UninstallState::Finished(Err(code))
            }
        },
        UninstallState::ClosingManager => {
            if ok {
                UninstallState::Finished(Ok(()))
            } else {
                UninstallState::Finished(Err(code))
            }
        },
        UninstallState::Finished(v) => UninstallState::Finished(v),
    }
}

} // verus!
