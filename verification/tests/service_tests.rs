use windivert::service::{
    install_initial, install_step, mark_for_deletion_outcome, start_outcome, stop_outcome,
    uninstall_initial, uninstall_step, InstallState, UninstallState,
};

#[test]
fn install_happy_path_over_fresh_service() {
    let s = install_initial();
    assert_eq!(s, InstallState::LockingMutex);
    let s = install_step(s, true, 0);
    assert_eq!(s, InstallState::OpeningManager);
    let s = install_step(s, true, 0);
    assert_eq!(s, InstallState::OpeningService);
    // No existing service: create it.
    let s = install_step(s, false, 1060);
    assert_eq!(s, InstallState::CreatingService);
    let s = install_step(s, true, 0);
    assert_eq!(s, InstallState::RegisteringEventSource);
    // Event-source registration is best effort.
    let s = install_step(s, false, 5);
    assert_eq!(s, InstallState::StartingService);
    let s = install_step(s, true, 0);
    assert_eq!(s, InstallState::MarkingForDeletion);
    let s = install_step(s, true, 0);
    assert_eq!(s, InstallState::ReleasingMutex(None));
    let s = install_step(s, true, 0);
    assert_eq!(s, InstallState::Finished(Ok(())));
}

#[test]
fn install_racing_create_reopens_the_service() {
    let s = install_step(InstallState::CreatingService, false, 1073);
    assert_eq!(s, InstallState::ReopeningService);
    let s = install_step(s, true, 0);
    assert_eq!(s, InstallState::RegisteringEventSource);
}

#[test]
fn install_reopen_failure_surfaces_its_code() {
    let s = install_step(InstallState::ReopeningService, false, 5);
    assert_eq!(s, InstallState::ReleasingMutex(Some(5)));
    let s = install_step(s, true, 0);
    assert_eq!(s, InstallState::Finished(Err(5)));
}

#[test]
fn install_already_running_service_is_success() {
    let s = install_step(InstallState::StartingService, false, 1056);
    assert_eq!(s, InstallState::MarkingForDeletion);
}

#[test]
fn install_start_failure_surfaces_its_code() {
    let s = install_step(InstallState::StartingService, false, 1058);
    assert_eq!(s, InstallState::ReleasingMutex(Some(1058)));
    let s = install_step(s, true, 0);
    assert_eq!(s, InstallState::Finished(Err(1058)));
}

#[test]
fn install_mutex_failure_ends_the_attempt() {
    let s = install_step(InstallState::LockingMutex, false, 6);
    assert_eq!(s, InstallState::Finished(Err(6)));
}

#[test]
fn uninstall_happy_path() {
    let s = uninstall_initial();
    assert_eq!(s, UninstallState::OpeningManager);
    let s = uninstall_step(s, true, 0);
    assert_eq!(s, UninstallState::OpeningService);
    let s = uninstall_step(s, true, 0);
    assert_eq!(s, UninstallState::StoppingService);
    let s = uninstall_step(s, true, 0);
    assert_eq!(s, UninstallState::ClosingService);
    let s = uninstall_step(s, true, 0);
    assert_eq!(s, UninstallState::ClosingManager);
    let s = uninstall_step(s, true, 0);
    assert_eq!(s, UninstallState::Finished(Ok(())));
}

#[test]
fn uninstall_missing_service_surfaces_its_code() {
    let s = uninstall_step(UninstallState::OpeningService, false, 1060);
    assert_eq!(s, UninstallState::Finished(Err(1060)));
}

#[test]
fn tolerated_service_codes_are_exact() {
    assert_eq!(start_outcome(true, 0), Ok(()));
    assert_eq!(start_outcome(false, 1056), Ok(()));
    assert_eq!(start_outcome(false, 5), Err(5));
    assert_eq!(stop_outcome(false, 1062), Ok(()));
    assert_eq!(stop_outcome(false, 1061), Ok(()));
    assert_eq!(stop_outcome(false, 5), Err(5));
    assert_eq!(mark_for_deletion_outcome(false, 1072), Ok(()));
    assert_eq!(mark_for_deletion_outcome(false, 5), Err(5));
}
