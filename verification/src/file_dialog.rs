use vstd::prelude::*;

use std::path::PathBuf;
use std::sync::mpsc::TryRecvError;

use crate::app::{EntropyApp, StatusMessage};

verus! {

/// A filesystem path handed back by a native file dialog; carried, never inspected.
#[verifier::external_type_specification]
#[verifier::external_body]
pub struct ExPathBuf(PathBuf);

/// Why a non-blocking receive on a channel returned nothing: `Empty` or `Disconnected`.
/// The logic tells these two apart, so the declaration shows the enum's variants and is not
/// opaque.
#[verifier::external_type_specification]
pub struct ExTryRecvError(TryRecvError);

/// Which follow-up action to run once a background file dialog returns a path.
#[derive(Clone, Copy, Debug, PartialEq, Eq)]
pub enum FileDialogAction {
    ImportEntlayout,
    ExportEntlayout,
    ImportEntsettings,
    ExportEntsettings,
    ExportLayoutImage,
}

impl FileDialogAction {
    /// Layout import/export and image export read or write the connected device; the
    /// app-settings actions do not.
    pub open spec fn device_scoped(self) -> bool {
        match self {
            FileDialogAction::ImportEntlayout
            | FileDialogAction::ExportEntlayout
            | FileDialogAction::ExportLayoutImage => true,
            FileDialogAction::ImportEntsettings | FileDialogAction::ExportEntsettings => false,
        }
    }

    /// Whether the follow-up reads or writes the currently connected device.
    pub fn is_device_scoped(self) -> (scoped: bool)
        ensures
            scoped == self.device_scoped(),
    {
        match self {
            FileDialogAction::ImportEntlayout
            | FileDialogAction::ExportEntlayout
            | FileDialogAction::ExportLayoutImage => true,
            FileDialogAction::ImportEntsettings | FileDialogAction::ExportEntsettings => false,
        }
    }
}

/// A device-scoped operation captured at `opened_generation` is stale once the active
/// device changed to `current_generation`.
pub fn device_generation_stale(opened_generation: u64, current_generation: u64) -> (stale: bool)
    ensures
        stale == (opened_generation != current_generation),
{
    opened_generation != current_generation
}

/// Whether a completed dialog result must be discarded because the active device changed
/// while the picker was open. App-settings actions are never rejected.
pub fn dialog_result_stale(
    action: FileDialogAction,
    opened_generation: u64,
    current_generation: u64,
) -> (stale: bool)
    ensures
        stale == (action.device_scoped() && opened_generation != current_generation),
{
    action.is_device_scoped() && device_generation_stale(opened_generation, current_generation)
}

/// A new dialog may start only when none is in flight.
pub fn can_start_file_dialog(dialog_in_flight: bool) -> (can_start: bool)
    ensures
        can_start == !dialog_in_flight,
{
    !dialog_in_flight
}

/// The decision one poll of the dialog's result channel makes.
#[derive(Debug, PartialEq, Eq)]
pub enum FileDialogPoll {
    /// No result yet; keep waiting.
    Pending,
    /// The user closed the dialog without choosing a file.
    Cancelled,
    /// A path was chosen, but the active device changed meanwhile; discard it.
    StaleDevice,
    /// A path was chosen and is safe to dispatch.
    Dispatch(PathBuf),
    /// The worker vanished without ever sending a result.
    WorkerLost,
}

impl FileDialogPoll {
    /// Only `Pending` keeps the dialog slot occupied.
    pub open spec fn is_terminal(self) -> bool {
        !(self is Pending)
    }
}

/// Classifies one channel poll into the next lifecycle step.
pub fn classify_file_dialog_poll(
    recv: Result<Option<PathBuf>, TryRecvError>,
    action: FileDialogAction,
    opened_generation: u64,
    current_generation: u64,
) -> (poll: FileDialogPoll)
    ensures
        match recv {
            Ok(Some(path)) => if action.device_scoped() && opened_generation != current_generation {
                poll == FileDialogPoll::StaleDevice
            } else {
                poll == FileDialogPoll::Dispatch(path)
            },
            Ok(None) => poll == FileDialogPoll::Cancelled,
            Err(TryRecvError::Empty) => poll == FileDialogPoll::Pending,
            Err(TryRecvError::Disconnected) => poll == FileDialogPoll::WorkerLost,
        },
        poll is Pending <==> recv == Err::<Option<PathBuf>, TryRecvError>(TryRecvError::Empty),
{
    match recv {
        Ok(Some(path)) => {
            if dialog_result_stale(action, opened_generation, current_generation) {
                FileDialogPoll::StaleDevice
            } else {
                FileDialogPoll::Dispatch(path)
            }
        },
        Ok(None) => FileDialogPoll::Cancelled,
        Err(TryRecvError::Empty) => FileDialogPoll::Pending,
        Err(TryRecvError::Disconnected) => FileDialogPoll::WorkerLost,
    }
}


impl EntropyApp {
    /// Claims the file-dialog slot for `action`, under the current connection: refused
    /// while another dialog is in flight. The caller runs the dialog only when this
    /// returns true.
    pub fn begin_file_dialog(&mut self, action: FileDialogAction) -> (started: bool)
        ensures
            started == (old(self).file_dialog_pending is None),
            started ==> *final(self) == (EntropyApp {
                file_dialog_pending: Some((action, old(self).connection_generation)),
                ..*old(self)
            }),
            !started ==> *final(self) == *old(self),
    {
        if !can_start_file_dialog(self.file_dialog_pending.is_some()) {
            return false;
        }
        self.file_dialog_pending = Some((action, self.connection_generation));
        true
    }

    /// Acts on one poll of the file dialog in flight: while it is pending nothing changes;
    /// any other outcome frees the dialog slot. A chosen path is handed back with its
    /// action for the caller to carry out; a result for a device that is no longer active,
    /// and a worker that ended without a result, are reported in the status bar.
    pub fn finish_file_dialog_poll(&mut self, poll: FileDialogPoll) -> (dispatch: Option<(FileDialogAction, PathBuf)>)
        requires
            old(self).file_dialog_pending is Some,
        ensures
            poll is Pending ==> *final(self) == *old(self) && dispatch is None,
            !(poll is Pending) ==> final(self).file_dialog_pending is None,
            match poll {
                FileDialogPoll::Pending => true,
                FileDialogPoll::Cancelled => dispatch is None && *final(self) == (EntropyApp {
                    file_dialog_pending: None,
                    ..*old(self)
                }),
                FileDialogPoll::Dispatch(path) => dispatch == Some(
                    (old(self).file_dialog_pending.unwrap().0, path),
                ) && *final(self) == (EntropyApp { file_dialog_pending: None, ..*old(self) }),
                FileDialogPoll::StaleDevice => dispatch is None && final(self).status_msg.is_plain(
                    "status_messages.file_dialog_device_changed",
                ) && *final(self) == (EntropyApp {
                    file_dialog_pending: None,
                    status_msg: final(self).status_msg,
                    ..*old(self)
                }),
                FileDialogPoll::WorkerLost => dispatch is None && final(self).status_msg.is_plain(
                    "status_messages.file_dialog_worker_lost",
                ) && *final(self) == (EntropyApp {
                    file_dialog_pending: None,
                    status_msg: final(self).status_msg,
                    ..*old(self)
                }),
            },
    {
        let (action, _generation) = match self.file_dialog_pending {
            Some(pending) => pending,
            None => return None,
        };
        match poll {
            FileDialogPoll::Pending => None,
            FileDialogPoll::Cancelled => {
                self.file_dialog_pending = None;
                None
            },
            FileDialogPoll::StaleDevice => {
                self.file_dialog_pending = None;
                self.status_msg = StatusMessage::plain("status_messages.file_dialog_device_changed");
                None
            },
            FileDialogPoll::Dispatch(path) => {
                self.file_dialog_pending = None;
                Some((action, path))
            },
            FileDialogPoll::WorkerLost => {
                self.file_dialog_pending = None;
                self.status_msg = StatusMessage::plain("status_messages.file_dialog_worker_lost");
                None
            },
        }
    }
}

} // verus!
