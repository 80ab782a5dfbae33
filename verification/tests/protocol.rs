use simpi::gpioregs::RegMemory;
use simpi::pin_api::read_pin;
use simpi::shared_bank::{SetupAction, SetupEvent, SetupState, ShmError, setup_start, setup_step};

#[test]
fn test_startup_handshake_owner_then_guest() {
    // Process A arrives first: it creates the segment and resets the
    // bank.
    let (s, a) = setup_start();
    assert_eq!(s, SetupState::Locating);
    assert_eq!(a, SetupAction::EnsureDir);
    let (s, a) = setup_step(s, SetupEvent::DirAvailable);
    assert_eq!(a, SetupAction::TryCreate);
    let (s, a) = setup_step(s, SetupEvent::Created);
    assert_eq!(a, SetupAction::CheckLockCount);
    let (s, a) = setup_step(s, SetupEvent::LockCount { count: 1 });
    assert_eq!(a, SetupAction::ResetBank);
    let mut bank = RegMemory::new();
    bank.input.write(0xFFFFFFFF);
    bank.reset();
    let (s, a) = setup_step(s, SetupEvent::ResetDone);
    assert_eq!(s, SetupState::Ready { owner: true });
    assert_eq!(a, SetupAction::Use);

    // Process B arrives second: the link exists, it opens the segment
    // and does not reset.
    let (s, a) = setup_start();
    assert_eq!(a, SetupAction::EnsureDir);
    let (s, a) = setup_step(s, SetupEvent::DirAvailable);
    assert_eq!(a, SetupAction::TryCreate);
    let (s, a) = setup_step(s, SetupEvent::LinkExists);
    assert_eq!(a, SetupAction::TryOpen);
    let (s, a) = setup_step(s, SetupEvent::Opened);
    assert_eq!(a, SetupAction::CheckLockCount);
    let (s, a) = setup_step(s, SetupEvent::LockCount { count: 1 });
    assert_eq!(s, SetupState::Ready { owner: false });
    assert_eq!(a, SetupAction::Use);

    // Immediately afterwards B reads pin 5 of the freshly reset bank.
    assert_eq!(read_pin(&bank, 5), 0);
}

#[test]
fn test_stale_link_retried_exactly_once() {
    let (s, _) = setup_start();
    let (s, _) = setup_step(s, SetupEvent::DirAvailable);
    let (s, a) = setup_step(s, SetupEvent::LinkExists);
    assert_eq!(a, SetupAction::TryOpen);
    // The first failed map open deletes the stale link and retries.
    let (s, a) = setup_step(s, SetupEvent::OpenMapFailed);
    assert_eq!(s, SetupState::RemovingStale);
    assert_eq!(a, SetupAction::DeleteStaleLink);
    let (s, a) = setup_step(s, SetupEvent::LinkDeleted);
    assert_eq!(s, SetupState::Creating { retried: true });
    assert_eq!(a, SetupAction::TryCreate);
    let (s, a) = setup_step(s, SetupEvent::LinkExists);
    assert_eq!(a, SetupAction::TryOpen);
    // A second failure is surfaced.
    let (s, a) = setup_step(s, SetupEvent::OpenMapFailed);
    assert_eq!(s, SetupState::Failed { error: ShmError::MapOpenFailed });
    assert_eq!(a, SetupAction::Surface { error: ShmError::MapOpenFailed });
}

#[test]
fn test_missing_directory_fails_with_link_error() {
    let (s, _) = setup_start();
    let (s, a) = setup_step(s, SetupEvent::DirUnavailable);
    assert_eq!(s, SetupState::Failed { error: ShmError::LinkDoesNotExist });
    assert_eq!(a, SetupAction::Surface { error: ShmError::LinkDoesNotExist });
}

#[test]
fn test_wrong_lock_count_is_invalid_header() {
    let (s, _) = setup_start();
    let (s, _) = setup_step(s, SetupEvent::DirAvailable);
    let (s, _) = setup_step(s, SetupEvent::Created);
    let (s, a) = setup_step(s, SetupEvent::LockCount { count: 2 });
    assert_eq!(s, SetupState::Failed { error: ShmError::InvalidHeader });
    assert_eq!(a, SetupAction::Surface { error: ShmError::InvalidHeader });
}

#[test]
fn test_guest_never_resets() {
    // A guest (opener) goes straight to Use after the header check.
    let (s, _) = setup_start();
    let (s, _) = setup_step(s, SetupEvent::DirAvailable);
    let (s, _) = setup_step(s, SetupEvent::LinkExists);
    let (s, _) = setup_step(s, SetupEvent::Opened);
    let (_, a) = setup_step(s, SetupEvent::LockCount { count: 1 });
    assert_ne!(a, SetupAction::ResetBank);
}
