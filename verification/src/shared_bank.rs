//! The create-or-open protocol for the shared register bank.
//!
//! The bank lives in a named shared-memory segment guarded by one named
//! mutex, identified by a link file at a well-known path.  Whichever
//! participant arrives first creates the segment; later participants
//! open it; a stale link file is deleted and the creation retried
//! exactly once; and only the segment owner resets the bank.
//!
//! The decisions of that protocol are a state machine over plain
//! events.  The process plumbing outside the crate performs each
//! returned action (a directory probe, a create or open call, a file
//! deletion, a lock under which the verified reset runs) and feeds the
//! outcome back in as the next event.

use vstd::prelude::*;

verus! {

/// The errors the protocol can surface.
#[derive(Clone, Copy, PartialEq, Eq, Structural, Debug)]
pub enum ShmError {
    /// No per-user data directory is available, or the link file's
    /// directory could not be made.
    LinkDoesNotExist,
    /// Opening the mapping behind an existing link failed even after
    /// the one-shot stale-link retry.
    MapOpenFailed,
    /// The acquired segment does not hold exactly one lock.
    InvalidHeader,
    /// Any other error of the segment machinery, surfaced as it came.
    Other,
}

/// Where the protocol stands.
#[derive(Clone, Copy, PartialEq, Eq, Structural, Debug)]
pub enum SetupState {
    /// Probing for the link file's directory.
    Locating,
    /// About to try creating the segment; `retried` says whether a
    /// stale link was already deleted once.
    Creating { retried: bool },
    /// The link exists; about to try opening the segment.
    Opening { retried: bool },
    /// Segment acquired; about to check the lock count.  `owner` says
    /// whether this participant created the segment.
    CheckingHeader { retried: bool, owner: bool },
    /// Stale link found; waiting for its deletion.
    RemovingStale,
    /// This participant owns the segment and must reset the bank.
    Resetting,
    /// The segment is ready for use.
    Ready { owner: bool },
    /// The protocol failed; the error is surfaced to the caller.
    Failed { error: ShmError },
}

/// What the outside plumbing reports back.
#[derive(Clone, Copy, PartialEq, Eq, Structural, Debug)]
pub enum SetupEvent {
    /// The link file's directory exists or was created.
    DirAvailable,
    /// No usable directory: neither found nor creatable.
    DirUnavailable,
    /// The segment was created; this participant owns it.
    Created,
    /// Creation reported that the link already exists.
    LinkExists,
    /// Creation failed in any other way.
    CreateFailed { error: ShmError },
    /// The existing segment was opened.
    Opened,
    /// Opening reported a failed map open: the link may be stale.
    OpenMapFailed,
    /// Opening failed in any other way.
    OpenFailed { error: ShmError },
    /// The stale link file is gone.
    LinkDeleted,
    /// The acquired segment holds this many locks.
    LockCount { count: u64 },
    /// The owner's reset of the bank has run.
    ResetDone,
}

/// What the outside plumbing must do next.
#[derive(Clone, Copy, PartialEq, Eq, Structural, Debug)]
pub enum SetupAction {
    /// Find the per-user data directory and ensure the link directory
    /// exists in it.
    EnsureDir,
    /// Try to create the segment linked at the well-known path, with a
    /// single mutex-type lock sized to the bank.
    TryCreate,
    /// Try to open the segment behind the existing link.
    TryOpen,
    /// Delete the stale link file.
    DeleteStaleLink,
    /// Count the locks of the acquired segment.
    CheckLockCount,
    /// Acquire the write lock and reset the bank.
    ResetBank,
    /// Hand the segment to the caller.
    Use,
    /// Surface this error to the caller.
    Surface { error: ShmError },
}

/// The protocol's first state and action.
pub fn setup_start() -> (r: (SetupState, SetupAction))
    ensures
        r == (SetupState::Locating, SetupAction::EnsureDir),
{
    (SetupState::Locating, SetupAction::EnsureDir)
}

/// One protocol step: from the current state and the reported outcome
/// to the next state and the next action.
///
/// The contract pins the whole protocol down: creation is tried once
/// the directory is there and failing that the existing segment is
/// opened; a failed map open deletes the stale link and retries the
/// creation exactly once, and surfaces the failure the second time; an
/// acquired segment must hold exactly one lock; only the owner resets
/// the bank, and a guest uses it as found.  Terminal states absorb
/// every further event, and an event that its state never produces
/// fails the protocol rather than guessing.
pub fn setup_step(s: SetupState, e: SetupEvent) -> (r: (SetupState, SetupAction))
    ensures
        s matches SetupState::Locating ==> r == (match e {
            SetupEvent::DirAvailable => (
                SetupState::Creating { retried: false },
                SetupAction::TryCreate,
            ),
            SetupEvent::DirUnavailable => (
                SetupState::Failed { error: ShmError::LinkDoesNotExist },
                SetupAction::Surface { error: ShmError::LinkDoesNotExist },
            ),
            _ => (
                SetupState::Failed { error: ShmError::Other },
                SetupAction::Surface { error: ShmError::Other },
            ),
        }),
        s matches SetupState::Creating { retried } ==> r == (match e {
            SetupEvent::Created => (
                SetupState::CheckingHeader { retried, owner: true },
                SetupAction::CheckLockCount,
            ),
            SetupEvent::LinkExists => (SetupState::Opening { retried }, SetupAction::TryOpen),
            SetupEvent::CreateFailed { error } => (
                SetupState::Failed { error },
                SetupAction::Surface { error },
            ),
            _ => (
                SetupState::Failed { error: ShmError::Other },
                SetupAction::Surface { error: ShmError::Other },
            ),
        }),
        s matches SetupState::Opening { retried } ==> r == (match e {
            SetupEvent::Opened => (
                SetupState::CheckingHeader { retried, owner: false },
                SetupAction::CheckLockCount,
            ),
            SetupEvent::OpenMapFailed => if retried {
                (
                    SetupState::Failed { error: ShmError::MapOpenFailed },
                    SetupAction::Surface { error: ShmError::MapOpenFailed },
                )
            } else {
                (SetupState::RemovingStale, SetupAction::DeleteStaleLink)
            },
            SetupEvent::OpenFailed { error } => (
                SetupState::Failed { error },
                SetupAction::Surface { error },
            ),
            _ => (
                SetupState::Failed { error: ShmError::Other },
                SetupAction::Surface { error: ShmError::Other },
            ),
        }),
        s matches SetupState::RemovingStale ==> r == (match e {
            SetupEvent::LinkDeleted => (
                SetupState::Creating { retried: true },
                SetupAction::TryCreate,
            ),
            _ => (
                SetupState::Failed { error: ShmError::Other },
                SetupAction::Surface { error: ShmError::Other },
            ),
        }),
        s matches SetupState::CheckingHeader { retried, owner } ==> r == (match e {
            SetupEvent::LockCount { count } => if count == 1 {
                if owner {
                    (SetupState::Resetting, SetupAction::ResetBank)
                } else {
                    (SetupState::Ready { owner: false }, SetupAction::Use)
                }
            } else {
                (
                    SetupState::Failed { error: ShmError::InvalidHeader },
                    SetupAction::Surface { error: ShmError::InvalidHeader },
                )
            },
            _ => (
                SetupState::Failed { error: ShmError::Other },
                SetupAction::Surface { error: ShmError::Other },
            ),
        }),
        s matches SetupState::Resetting ==> r == (match e {
            SetupEvent::ResetDone => (SetupState::Ready { owner: true }, SetupAction::Use),
            _ => (
                SetupState::Failed { error: ShmError::Other },
                SetupAction::Surface { error: ShmError::Other },
            ),
        }),
        s matches SetupState::Ready { owner } ==> r == (
            SetupState::Ready { owner },
            SetupAction::Use,
        ),
        s matches SetupState::Failed { error } ==> r == (
            SetupState::Failed { error },
            SetupAction::Surface { error },
        ),
{
    match s {
        SetupState::Locating => match e {
            SetupEvent::DirAvailable => (
                SetupState::Creating { retried: false },
                SetupAction::TryCreate,
            ),
            SetupEvent::DirUnavailable => (
                SetupState::Failed { error: ShmError::LinkDoesNotExist },
                SetupAction::Surface { error: ShmError::LinkDoesNotExist },
            ),
            _ => (
                SetupState::Failed { error: ShmError::Other },
                SetupAction::Surface { error: ShmError::Other },
            ),
        },
        SetupState::Creating { retried } => match e {
            SetupEvent::Created => (
                SetupState::CheckingHeader { retried, owner: true },
                SetupAction::CheckLockCount,
            ),
            SetupEvent::LinkExists => (SetupState::Opening { retried }, SetupAction::TryOpen),
            SetupEvent::CreateFailed { error } => (
                SetupState::Failed { error },
                SetupAction::Surface { error },
            ),
            _ => (
                SetupState::Failed { error: ShmError::Other },
                SetupAction::Surface { error: ShmError::Other },
            ),
        },
        SetupState::Opening { retried } => match e {
            SetupEvent::Opened => (
                SetupState::CheckingHeader { retried, owner: false },
                SetupAction::CheckLockCount,
            ),
            SetupEvent::OpenMapFailed => if retried {
                (
                    SetupState::Failed { error: ShmError::MapOpenFailed },
                    SetupAction::Surface { error: ShmError::MapOpenFailed },
                )
            } else {
                (SetupState::RemovingStale, SetupAction::DeleteStaleLink)
            },
            SetupEvent::OpenFailed { error } => (
                SetupState::Failed { error },
                SetupAction::Surface { error },
            ),
            _ => (
                SetupState::Failed { error: ShmError::Other },
                SetupAction::Surface { error: ShmError::Other },
            ),
        },
        SetupState::RemovingStale => match e {
            SetupEvent::LinkDeleted => (
                SetupState::Creating { retried: true },
                SetupAction::TryCreate,
            ),
            _ => (
                SetupState::Failed { error: ShmError::Other },
                SetupAction::Surface { error: ShmError::Other },
            ),
        },
        SetupState::CheckingHeader { retried: _, owner } => match e {
            SetupEvent::LockCount { count } => if count == 1 {
                if owner {
                    (SetupState::Resetting, SetupAction::ResetBank)
                } else {
                    (SetupState::Ready { owner: false }, SetupAction::Use)
                }
            } else {
                (
                    SetupState::Failed { error: ShmError::InvalidHeader },
                    SetupAction::Surface { error: ShmError::InvalidHeader },
                )
            },
            _ => (
                SetupState::Failed { error: ShmError::Other },
                SetupAction::Surface { error: ShmError::Other },
            ),
        },
        SetupState::Resetting => match e {
            SetupEvent::ResetDone => (SetupState::Ready { owner: true }, SetupAction::Use),
            _ => (
                SetupState::Failed { error: ShmError::Other },
                SetupAction::Surface { error: ShmError::Other },
            ),
        },
        SetupState::Ready { owner } => (SetupState::Ready { owner }, SetupAction::Use),
        SetupState::Failed { error } => (
            SetupState::Failed { error },
            SetupAction::Surface { error },
        ),
    }
}

} // verus!
