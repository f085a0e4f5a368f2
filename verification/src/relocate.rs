//! The device-aware relocation protocol for one file.
//!
//! A part file is moved from its temporary area to its final name by an
//! atomic rename when source and destination share a storage device, and
//! by a byte copy followed by deletion of the source otherwise.  The
//! protocol never deletes the source before a complete destination is
//! confirmed, and on a failed copy it asks for the partial destination to
//! be removed, so a failure can only cost work not yet done, never data.
//!
//! The machine below decides; the caller performs each requested
//! filesystem operation and reports its outcome as the next event.

use vstd::prelude::*;
use crate::ConvError;

verus! {

/// Where the relocation protocol stands.
#[derive(Debug, Clone, Copy, PartialEq, Eq, Structural)]
pub enum RelocState {
    /// The device identity of source and destination is being probed.
    Probing,
    /// Same device: an atomic rename was requested.
    Renaming,
    /// Different (or undecidable) devices: a byte copy was requested.
    Copying,
    /// The copy is confirmed complete: deletion of the source was
    /// requested.
    RemovingSource,
    /// The copy failed: removal of the partial destination was requested.
    RemovingDest,
    /// The file was relocated: source gone, destination complete.
    Done,
    /// The relocation failed; the error kind is recorded.
    Failed(ConvError),
}

/// The filesystem operation the caller must perform next.
#[derive(Debug, Clone, Copy, PartialEq, Eq)]
pub enum RelocAction {
    /// Decide whether source and destination parent share a device.
    ProbeDevices,
    /// Atomically rename the source to the destination.
    Rename,
    /// Copy the source's bytes to the destination.
    Copy,
    /// Delete the source file.
    RemoveSource,
    /// Remove the (partial) destination file.
    RemoveDest,
    /// The protocol is over with this outcome.
    Stop(Result<(), ConvError>),
}

/// The outcome of the last requested operation.
#[derive(Debug, Clone, Copy, PartialEq, Eq, Structural)]
pub enum RelocEvent {
    /// The probe answered whether both paths share a device.
    SameDevice(bool),
    /// The probe could not decide (identity check unavailable).
    DeviceUnknown,
    /// The requested operation succeeded.
    OpOk,
    /// The requested operation failed.
    OpFailed,
}

/// The transition relation of the protocol.  An event that cannot answer
/// the pending request is itself a failure.
pub open spec fn reloc_next(s: RelocState, e: RelocEvent) -> RelocState {
    match s {
        RelocState::Probing => match e {
            RelocEvent::SameDevice(true) => RelocState::Renaming,
            RelocEvent::SameDevice(false) => RelocState::Copying,
            RelocEvent::DeviceUnknown => RelocState::Copying,
            _ => RelocState::Failed(ConvError::Io),
        },
        RelocState::Renaming => match e {
            RelocEvent::OpOk => RelocState::Done,
            _ => RelocState::Failed(ConvError::Io),
        },
        RelocState::Copying => match e {
            RelocEvent::OpOk => RelocState::RemovingSource,
            _ => RelocState::RemovingDest,
        },
        RelocState::RemovingSource => match e {
            RelocEvent::OpOk => RelocState::Done,
            _ => RelocState::Failed(ConvError::Io),
        },
        RelocState::RemovingDest => RelocState::Failed(ConvError::Io),
        RelocState::Done => RelocState::Done,
        RelocState::Failed(err) => RelocState::Failed(err),
    }
}

/// The operation pending in a state.
pub open spec fn reloc_action_of(s: RelocState) -> RelocAction {
    match s {
        RelocState::Probing => RelocAction::ProbeDevices,
        RelocState::Renaming => RelocAction::Rename,
        RelocState::Copying => RelocAction::Copy,
        RelocState::RemovingSource => RelocAction::RemoveSource,
        RelocState::RemovingDest => RelocAction::RemoveDest,
        RelocState::Done => RelocAction::Stop(Ok(())),
        RelocState::Failed(err) => RelocAction::Stop(Err(err)),
    }
}

/// The relocation protocol for one source/destination pair.
pub struct Relocator {
    pub state: RelocState,
}

impl Relocator {
    /// A fresh protocol; the first pending operation is the device probe.
    pub fn new() -> (r: Relocator)
        ensures
            r.state == RelocState::Probing,
    {
        Relocator { state: RelocState::Probing }
    }

    /// The operation the caller must perform next.
    pub fn current_action(&self) -> (a: RelocAction)
        ensures
            a == reloc_action_of(self.state),
    {
        match self.state {
            RelocState::Probing => RelocAction::ProbeDevices,
            RelocState::Renaming => RelocAction::Rename,
            RelocState::Copying => RelocAction::Copy,
            RelocState::RemovingSource => RelocAction::RemoveSource,
            RelocState::RemovingDest => RelocAction::RemoveDest,
            RelocState::Done => RelocAction::Stop(Ok(())),
            RelocState::Failed(err) => RelocAction::Stop(Err(err)),
        }
    }

    /// Consumes the outcome of the pending operation and returns the next
    /// one to perform.
    pub fn step(&mut self, e: RelocEvent) -> (a: RelocAction)
        ensures
            final(self).state == reloc_next(old(self).state, e),
            a == reloc_action_of(final(self).state),
    {
        self.state = match self.state {
            RelocState::Probing => match e {
                RelocEvent::SameDevice(true) => RelocState::Renaming,
                RelocEvent::SameDevice(false) => RelocState::Copying,
                RelocEvent::DeviceUnknown => RelocState::Copying,
                _ => RelocState::Failed(ConvError::Io),
            },
            RelocState::Renaming => match e {
                RelocEvent::OpOk => RelocState::Done,
                _ => RelocState::Failed(ConvError::Io),
            },
            RelocState::Copying => match e {
                RelocEvent::OpOk => RelocState::RemovingSource,
                _ => RelocState::RemovingDest,
            },
            RelocState::RemovingSource => match e {
                RelocEvent::OpOk => RelocState::Done,
                _ => RelocState::Failed(ConvError::Io),
            },
            RelocState::RemovingDest => RelocState::Failed(ConvError::Io),
            RelocState::Done => RelocState::Done,
            RelocState::Failed(err) => RelocState::Failed(err),
        };
        self.current_action()
    }
}

/// An abstract account of the two paths while the protocol runs: whether
/// the source file still exists, whether some destination file exists,
/// and whether the destination is a complete copy.
pub struct RelocFs {
    pub source_exists: bool,
    pub dest_exists: bool,
    pub dest_complete: bool,
}

/// What performing the operation pending in `s`, with outcome `e`, does
/// to the two paths.  A failed copy conservatively leaves a partial
/// destination file behind; a failed rename, probe or deletion changes
/// nothing.
pub open spec fn reloc_fs_after(fs: RelocFs, s: RelocState, e: RelocEvent) -> RelocFs {
    match (s, e) {
        (RelocState::Renaming, RelocEvent::OpOk) => RelocFs {
            source_exists: false,
            dest_exists: true,
            dest_complete: true,
        },
        (RelocState::Copying, RelocEvent::OpOk) => RelocFs {
            source_exists: fs.source_exists,
            dest_exists: true,
            dest_complete: true,
        },
        (RelocState::Copying, RelocEvent::OpFailed) => RelocFs {
            source_exists: fs.source_exists,
            dest_exists: true,
            dest_complete: false,
        },
        (RelocState::RemovingSource, RelocEvent::OpOk) => RelocFs {
            source_exists: false,
            dest_exists: fs.dest_exists,
            dest_complete: fs.dest_complete,
        },
        (RelocState::RemovingDest, RelocEvent::OpOk) => RelocFs {
            source_exists: fs.source_exists,
            dest_exists: false,
            dest_complete: false,
        },
        _ => fs,
    }
}

/// The paths before anything happened: the source exists, nothing stands
/// at the destination.
pub open spec fn reloc_fs_initial() -> RelocFs {
    RelocFs { source_exists: true, dest_exists: false, dest_complete: false }
}

/// The protocol state after consuming the first `i` events.
pub open spec fn reloc_state_at(events: Seq<RelocEvent>, i: int) -> RelocState
    decreases i,
{
    if i <= 0 {
        RelocState::Probing
    } else {
        reloc_next(reloc_state_at(events, i - 1), events[i - 1])
    }
}

/// The two paths after consuming the first `i` events.
pub open spec fn reloc_fs_at(events: Seq<RelocEvent>, i: int) -> RelocFs
    decreases i,
{
    if i <= 0 {
        reloc_fs_initial()
    } else {
        reloc_fs_after(reloc_fs_at(events, i - 1), reloc_state_at(events, i - 1), events[i - 1])
    }
}

/// The invariant tying the protocol state to the two paths.
pub open spec fn reloc_inv(s: RelocState, fs: RelocFs) -> bool {
    match s {
        RelocState::Probing => fs == reloc_fs_initial(),
        RelocState::Renaming => fs == reloc_fs_initial(),
        RelocState::Copying => fs == reloc_fs_initial(),
        RelocState::RemovingSource => fs.source_exists && fs.dest_exists && fs.dest_complete,
        RelocState::RemovingDest => fs.source_exists && !fs.dest_complete,
        RelocState::Done => !fs.source_exists && fs.dest_exists && fs.dest_complete,
        RelocState::Failed(_) => fs.source_exists || fs.dest_complete,
    }
}

proof fn lemma_reloc_inv_step(s: RelocState, fs: RelocFs, e: RelocEvent)
    requires
        reloc_inv(s, fs),
    ensures
        reloc_inv(reloc_next(s, e), reloc_fs_after(fs, s, e)),
{
}

proof fn lemma_reloc_inv_at(events: Seq<RelocEvent>, i: int)
    requires
        0 <= i <= events.len(),
    ensures
        reloc_inv(reloc_state_at(events, i), reloc_fs_at(events, i)),
    decreases i,
{
    if i > 0 {
        lemma_reloc_inv_at(events, i - 1);
        lemma_reloc_inv_step(reloc_state_at(events, i - 1), reloc_fs_at(events, i - 1), events[i - 1]);
    }
}

/// Once the protocol has failed, nothing further changes on disk.
proof fn lemma_reloc_failed_stays(events: Seq<RelocEvent>, i: int, j: int, err: ConvError)
    requires
        0 <= i <= j <= events.len(),
        reloc_state_at(events, i) == RelocState::Failed(err),
    ensures
        reloc_state_at(events, j) == RelocState::Failed(err),
        reloc_fs_at(events, j) == reloc_fs_at(events, i),
    decreases j - i,
{
    if j > i {
        lemma_reloc_failed_stays(events, i, j - 1, err);
    }
}

/// No run of the protocol can lose the file: at every point, either the
/// destination holds a complete copy or the source still exists.
pub proof fn lemma_reloc_never_loses_file(events: Seq<RelocEvent>, i: int)
    requires
        0 <= i <= events.len(),
    ensures
        reloc_fs_at(events, i).source_exists || reloc_fs_at(events, i).dest_complete,
{
    lemma_reloc_inv_at(events, i);
}

/// A failed copy, followed by the requested cleanup succeeding, leaves
/// the source intact and no destination file at all — and the protocol
/// reports the failure.  This covers the cross-device path; the probe
/// decided for a copy either way.
pub proof fn lemma_copy_failure_safe(events: Seq<RelocEvent>, i: int)
    requires
        0 <= i,
        i + 2 <= events.len(),
        reloc_state_at(events, i) == RelocState::Copying,
        events[i] == RelocEvent::OpFailed,
        events[i + 1] == RelocEvent::OpOk,
    ensures
        reloc_state_at(events, events.len() as int) is Failed,
        reloc_fs_at(events, events.len() as int).source_exists,
        !reloc_fs_at(events, events.len() as int).dest_exists,
{
    lemma_reloc_inv_at(events, i);
    assert(reloc_fs_at(events, i) == reloc_fs_initial());
    assert(reloc_state_at(events, i + 1) == RelocState::RemovingDest);
    assert(reloc_fs_at(events, i + 1) == (RelocFs {
        source_exists: true,
        dest_exists: true,
        dest_complete: false,
    }));
    assert(reloc_state_at(events, i + 2) == RelocState::Failed(ConvError::Io));
    assert(reloc_fs_at(events, i + 2) == (RelocFs {
        source_exists: true,
        dest_exists: false,
        dest_complete: false,
    }));
    lemma_reloc_failed_stays(events, i + 2, events.len() as int, ConvError::Io);
}

/// A failed rename leaves the source intact and no destination file, and
/// the protocol reports the failure.  This covers the same-device path:
/// a rename either fully happens or does not happen at all.
pub proof fn lemma_rename_failure_safe(events: Seq<RelocEvent>, i: int)
    requires
        0 <= i,
        i + 1 <= events.len(),
        reloc_state_at(events, i) == RelocState::Renaming,
        events[i] != RelocEvent::OpOk,
    ensures
        reloc_state_at(events, events.len() as int) is Failed,
        reloc_fs_at(events, events.len() as int).source_exists,
        !reloc_fs_at(events, events.len() as int).dest_exists,
{
    lemma_reloc_inv_at(events, i);
    assert(reloc_state_at(events, i + 1) == RelocState::Failed(ConvError::Io));
    lemma_reloc_failed_stays(events, i + 1, events.len() as int, ConvError::Io);
}

} // verus!
