//! Assigning an emoji to a key: the macro slot holding its text is written together with
//! the key's binding; the outcome commits or restores the picker's state.
use vstd::prelude::*;

use std::sync::mpsc::{Receiver, TryRecvError};
use std::time::Instant;

use crate::app::{EntropyApp, StatusMessage, UndoAction};
use crate::keyboard::table_set;

verus! {

/// The receiving end of a channel.
#[verifier::external_type_specification]
#[verifier::external_body]
#[verifier::reject_recursive_types(T)]
pub struct ExReceiver<T>(Receiver<T>);

/// A point in time of the monotonic clock.
#[verifier::external_type_specification]
#[verifier::external_body]
pub struct ExInstant(Instant);

/// What an emoji is assigned to, with the binding it had before.
#[derive(Clone, Copy, Debug, PartialEq, Eq, Structural)]
pub enum EmojiAssignmentTarget {
    Key { layer: usize, key_idx: usize, row: u8, col: u8, old_keycode: u16 },
    Encoder { layer: usize, encoder_visual_idx: usize, encoder_idx: u8, direction: u8, old_keycode: u16 },
}

/// An emoji ready to be stored: the macro slot, its encoded actions and its text.
#[derive(Clone, Debug, PartialEq, Eq)]
pub struct EmojiAssignment {
    pub slot: usize,
    pub actions: Vec<u8>,
    pub text: Vec<u8>,
}

/// Why an emoji could not be assigned.
#[derive(Clone, Copy, Debug, PartialEq, Eq, Structural)]
pub enum EmojiAssignmentError {
    BackendUnavailable,
    NoFreeMacroSlot,
    DeviceUnavailable,
    TargetUnavailable,
    WorkerStopped,
    SaveFailed,
}

/// What the worker that wrote an emoji reports: whether it handed the keyboard back, and
/// the outcome of the write.
pub struct EmojiAssignmentResult {
    pub hid_returned: bool,
    pub result: Result<(), String>,
}

/// An emoji write in progress on a worker.
pub struct EmojiAssignmentTask {
    pub receiver: Receiver<EmojiAssignmentResult>,
    pub target: EmojiAssignmentTarget,
    pub assignment: EmojiAssignment,
    pub connection_generation: u64,
    pub started_at: Instant,
}

/// A worker whose emoji write was abandoned; its late report is only drained.
pub struct EmojiAssignmentReclaimTask {
    pub receiver: Receiver<EmojiAssignmentResult>,
}

impl EmojiAssignmentTask {
    /// Gives up the write but keeps listening to the worker, so that its report is drained.
    pub fn into_reclaim(self) -> (reclaim: EmojiAssignmentReclaimTask)
        ensures
            reclaim.receiver == self.receiver,
    {
        EmojiAssignmentReclaimTask { receiver: self.receiver }
    }
}

/// The binding the target had before the assignment.
pub open spec fn old_keycode_of(target: EmojiAssignmentTarget) -> u16 {
    match target {
        EmojiAssignmentTarget::Key { old_keycode, .. } => old_keycode,
        EmojiAssignmentTarget::Encoder { old_keycode, .. } => old_keycode,
    }
}

/// The binding the target had before the assignment.
pub fn target_old_keycode(target: &EmojiAssignmentTarget) -> (kc: u16)
    ensures
        kc == old_keycode_of(*target),
{
    match target {
        EmojiAssignmentTarget::Key { old_keycode, .. } => *old_keycode,
        EmojiAssignmentTarget::Encoder { old_keycode, .. } => *old_keycode,
    }
}

/// The catalog key of the message for an assignment error.
pub open spec fn error_key_of(error: EmojiAssignmentError) -> &'static str {
    match error {
        EmojiAssignmentError::BackendUnavailable => "key_picker.emoji_backend_unavailable",
        EmojiAssignmentError::NoFreeMacroSlot => "key_picker.emoji_no_free_macro_slot",
        EmojiAssignmentError::DeviceUnavailable => "key_picker.emoji_device_unavailable",
        EmojiAssignmentError::TargetUnavailable => "key_picker.emoji_target_unavailable",
        EmojiAssignmentError::WorkerStopped => "key_picker.emoji_worker_stopped",
        EmojiAssignmentError::SaveFailed => "key_picker.emoji_save_failed",
    }
}

/// The catalog key of the message for an assignment error.
pub fn emoji_assignment_error_key(error: EmojiAssignmentError) -> (key: &'static str)
    ensures
        key == error_key_of(error),
{
    match error {
        EmojiAssignmentError::BackendUnavailable => "key_picker.emoji_backend_unavailable",
        EmojiAssignmentError::NoFreeMacroSlot => "key_picker.emoji_no_free_macro_slot",
        EmojiAssignmentError::DeviceUnavailable => "key_picker.emoji_device_unavailable",
        EmojiAssignmentError::TargetUnavailable => "key_picker.emoji_target_unavailable",
        EmojiAssignmentError::WorkerStopped => "key_picker.emoji_worker_stopped",
        EmojiAssignmentError::SaveFailed => "key_picker.emoji_save_failed",
    }
}

/// The macro keycode of a slot: `0x7700` plus the slot, as the keycode space allows.
pub open spec fn macro_keycode(slot: usize) -> u16 {
    let s = slot as u16;
    if 0x7700 + s > u16::MAX { u16::MAX } else { (0x7700 + s) as u16 }
}

/// What restoring a staged assignment leaves: the picker open with the assignment and the
/// reason, the status bar naming the reason, the macros, the layout and the undo history
/// as they were.
pub open spec fn restored(app: EntropyApp, old: EntropyApp, assignment: EmojiAssignment, reason: EmojiAssignmentError) -> bool {
    &&& app.keycode_picker.emoji_assignment == Some(assignment)
    &&& app.keycode_picker.emoji_assignment_error == Some(reason)
    &&& app.keycode_picker.result is None
    &&& app.keycode_picker.open
    &&& app.keycode_picker.macro_actions == old.keycode_picker.macro_actions
    &&& app.keycode_picker.macro_texts == old.keycode_picker.macro_texts
    &&& app.keycode_picker.macros_dirty == old.keycode_picker.macros_dirty
    &&& app.status_msg.is_plain(error_key_of(reason))
    &&& app.layout == old.layout
    &&& app.undo_stack == old.undo_stack
    &&& app.hid_connection_generation == old.hid_connection_generation
}

/// What committing a stored emoji leaves: the macro slot holds it, the target its macro
/// keycode with an undo entry for the old binding, and the picker is closed.
pub open spec fn committed(app: EntropyApp, old: EntropyApp, target: EmojiAssignmentTarget, assignment: EmojiAssignment) -> bool {
    &&& app.keycode_picker.macro_actions@ == old.keycode_picker.macro_actions@.update(
        assignment.slot as int,
        assignment.actions,
    )
    &&& app.keycode_picker.macro_texts@ == old.keycode_picker.macro_texts@.update(
        assignment.slot as int,
        assignment.text,
    )
    &&& !app.keycode_picker.macros_dirty
    &&& match target {
        EmojiAssignmentTarget::Key { layer, key_idx, old_keycode, .. } => {
            &&& app.undo_stack@ == old.undo_stack@.push(
                UndoAction::Key { layer, key_idx, old_binding: old_keycode },
            )
            &&& match old.layout {
                Some(l) => app.layout matches Some(f) && f.layer_table() == table_set(
                    l.layer_table(),
                    layer as int,
                    key_idx as int,
                    macro_keycode(assignment.slot),
                ) && f.encoder_layers == l.encoder_layers && f.keys == l.keys,
                None => app.layout is None,
            }
            &&& app.layer_picker_flags_dirty
        },
        EmojiAssignmentTarget::Encoder { layer, encoder_visual_idx, old_keycode, .. } => {
            &&& app.undo_stack@ == old.undo_stack@.push(
                UndoAction::Encoder { layer, encoder_visual_idx, old_kc: old_keycode },
            )
            &&& match old.layout {
                Some(l) => app.layout matches Some(f) && f.encoder_table() == table_set(
                    l.encoder_table(),
                    layer as int,
                    encoder_visual_idx as int,
                    macro_keycode(assignment.slot),
                ) && f.layers == l.layers && f.keys == l.keys,
                None => app.layout is None,
            }
            &&& app.layer_picker_flags_dirty == old.layer_picker_flags_dirty
        },
    }
    &&& app.keycode_picker.emoji_assignment is None
    &&& app.keycode_picker.emoji_assignment_error is None
    &&& app.keycode_picker.result is None
    &&& !app.keycode_picker.open
    &&& app.selected_key is None
    &&& app.selected_encoder is None
    &&& app.status_msg.is_plain("status_messages.emoji_assignment_saved")
    &&& app.hid_connection_generation == old.hid_connection_generation
}

/// What one poll of an emoji write observed.
pub enum EmojiPoll {
    /// The write took longer than the time it is allowed.
    TimedOut,
    /// The worker reported.
    Report(EmojiAssignmentResult),
    /// No report yet.
    Waiting,
    /// The worker ended without a report.
    WorkerGone,
}

impl EntropyApp {
    /// Keeps an assignment that could not be stored staged in the open picker, with the
    /// reason, so that the user can retry it.
    pub fn restore_emoji_assignment(
        &mut self,
        assignment: EmojiAssignment,
        reason: EmojiAssignmentError,
        error: Option<String>,
    )
        ensures
            restored(*final(self), *old(self), assignment, reason),
            final(self).emoji_assignment_task == old(self).emoji_assignment_task,
            final(self).emoji_assignment_reclaim_task == old(self).emoji_assignment_reclaim_task,
            final(self).hid_connected == old(self).hid_connected,
            final(self).hid_disconnect_pending == old(self).hid_disconnect_pending,
    {
        self.keycode_picker.emoji_assignment = Some(assignment);
        self.keycode_picker.emoji_assignment_error = Some(reason);
        self.keycode_picker.result = None;
        self.keycode_picker.open = true;
        self.status_msg = StatusMessage::plain(emoji_assignment_error_key(reason));
    }

    /// Abandons the emoji write in progress, if any: the connection it ran under is
    /// invalidated, its worker is only drained from now on, and the assignment stays staged
    /// with the worker reported stopped.
    pub fn abandon_emoji_assignment(&mut self)
        ensures
            match old(self).emoji_assignment_task {
                None => *final(self) == *old(self),
                Some(task) => {
                    &&& final(self).emoji_assignment_task is None
                    &&& final(self).emoji_assignment_reclaim_task matches Some(r) && r.receiver
                        == task.receiver
                    &&& final(self).hid_connection_generation == (if old(
                        self,
                    ).hid_connection_generation == u64::MAX {
                        0
                    } else {
                        old(self).hid_connection_generation + 1
                    })
                    &&& final(self).keycode_picker.emoji_assignment == Some(task.assignment)
                    &&& final(self).keycode_picker.emoji_assignment_error == Some(
                        EmojiAssignmentError::WorkerStopped,
                    )
                    &&& final(self).keycode_picker.result is None
                    &&& final(self).keycode_picker.open
                    &&& final(self).status_msg.is_plain(
                        error_key_of(EmojiAssignmentError::WorkerStopped),
                    )
                    &&& final(self).layout == old(self).layout
                    &&& final(self).undo_stack == old(self).undo_stack
                }
            },
    {
        let task = match self.emoji_assignment_task.take() {
            Some(task) => task,
            None => return ,
        };
        self.hid_connection_generation = self.hid_connection_generation.wrapping_add(1);
        let EmojiAssignmentTask { receiver, target: _, assignment, connection_generation: _, started_at: _ } = task;
        self.emoji_assignment_reclaim_task = Some(EmojiAssignmentReclaimTask { receiver });
        self.restore_emoji_assignment(assignment, EmojiAssignmentError::WorkerStopped, None);
    }

    /// Commits a stored emoji: the macro slot takes its actions and text, the target takes
    /// the slot's macro keycode with an undo entry for its old binding, and the picker
    /// closes.
    pub fn finish_emoji_assignment(&mut self, task: EmojiAssignmentTask)
        requires
            task.assignment.slot < old(self).keycode_picker.macro_actions@.len(),
            task.assignment.slot < old(self).keycode_picker.macro_texts@.len(),
        ensures
            committed(*final(self), *old(self), task.target, task.assignment),
            final(self).emoji_assignment_task == old(self).emoji_assignment_task,
            final(self).emoji_assignment_reclaim_task == old(self).emoji_assignment_reclaim_task,
            final(self).hid_connected == old(self).hid_connected,
            final(self).hid_disconnect_pending == old(self).hid_disconnect_pending,
    {
        let EmojiAssignmentTask { receiver: _, target, assignment, connection_generation: _, started_at: _ } = task;
        let EmojiAssignment { slot, actions, text } = assignment;
        self.keycode_picker.macro_actions.set(slot, actions);
        self.keycode_picker.macro_texts.set(slot, text);
        self.keycode_picker.macros_dirty = false;
        let keycode = 0x7700u16.saturating_add(slot as u16);
        match target {
            EmojiAssignmentTarget::Key { layer, key_idx, old_keycode, .. } => {
                self.undo_stack.push(UndoAction::Key { layer, key_idx, old_binding: old_keycode });
                if let Some(layout) = &mut self.layout {
                    layout.set_keycode(layer, key_idx, keycode);
                }
                self.layer_picker_flags_dirty = true;
            },
            EmojiAssignmentTarget::Encoder { layer, encoder_visual_idx, old_keycode, .. } => {
                self.undo_stack.push(
                    UndoAction::Encoder { layer, encoder_visual_idx, old_kc: old_keycode },
                );
                if let Some(layout) = &mut self.layout {
                    layout.set_encoder_keycode(layer, encoder_visual_idx, keycode);
                }
            },
        }
        self.keycode_picker.emoji_assignment = None;
        self.keycode_picker.emoji_assignment_error = None;
        self.keycode_picker.result = None;
        self.keycode_picker.open = false;
        self.selected_key = None;
        self.selected_encoder = None;
        self.status_msg = StatusMessage::plain("status_messages.emoji_assignment_saved");
    }
    /// Acts on one poll of the emoji write in progress. A write that timed out or whose
    /// worker ended is abandoned with the keyboard handed to the disconnect handling; a
    /// report from a worker of an older connection is dropped without touching anything
    /// else; a report that kept the keyboard commits the emoji or restores it for retry; a
    /// report that lost the keyboard restores it and hands the keyboard to the disconnect
    /// handling. Returns whether to poll again soon.
    pub fn poll_emoji_assignment(&mut self, event: EmojiPoll) -> (poll_again: bool)
        requires
            old(self).emoji_assignment_task matches Some(t) ==> t.assignment.slot < old(
                self,
            ).keycode_picker.macro_actions@.len() && t.assignment.slot < old(
                self,
            ).keycode_picker.macro_texts@.len(),
        ensures
            match old(self).emoji_assignment_task {
                None => *final(self) == *old(self) && !poll_again,
                Some(task) => match event {
                    EmojiPoll::Waiting => *final(self) == *old(self) && poll_again,
                    EmojiPoll::TimedOut => {
                        &&& !poll_again
                        &&& final(self).emoji_assignment_task is None
                        &&& final(self).emoji_assignment_reclaim_task matches Some(r) && r.receiver
                            == task.receiver
                        &&& !final(self).hid_connected
                        &&& final(self).hid_disconnect_pending
                        &&& restored(
                            *final(self),
                            *old(self),
                            task.assignment,
                            EmojiAssignmentError::WorkerStopped,
                        )
                    },
                    EmojiPoll::WorkerGone => {
                        &&& !poll_again
                        &&& final(self).emoji_assignment_task is None
                        &&& final(self).emoji_assignment_reclaim_task == old(
                            self,
                        ).emoji_assignment_reclaim_task
                        &&& !final(self).hid_connected
                        &&& final(self).hid_disconnect_pending
                        &&& restored(
                            *final(self),
                            *old(self),
                            task.assignment,
                            EmojiAssignmentError::WorkerStopped,
                        )
                    },
                    EmojiPoll::Report(report) => {
                        &&& !poll_again
                        &&& final(self).emoji_assignment_task is None
                        &&& final(self).emoji_assignment_reclaim_task == old(
                            self,
                        ).emoji_assignment_reclaim_task
                        &&& if task.connection_generation != old(self).hid_connection_generation {
                            *final(self) == (EntropyApp { emoji_assignment_task: None, ..*old(self) })
                        } else if report.hid_returned {
                            &&& final(self).hid_connected
                            &&& final(self).hid_disconnect_pending == old(self).hid_disconnect_pending
                            &&& match report.result {
                                Ok(()) => committed(*final(self), *old(self), task.target, task.assignment),
                                Err(_) => restored(
                                    *final(self),
                                    *old(self),
                                    task.assignment,
                                    EmojiAssignmentError::SaveFailed,
                                ),
                            }
                        } else {
                            &&& !final(self).hid_connected
                            &&& final(self).hid_disconnect_pending
                            &&& restored(
                                *final(self),
                                *old(self),
                                task.assignment,
                                EmojiAssignmentError::SaveFailed,
                            )
                        }
                    },
                },
            },
    {
        if self.emoji_assignment_task.is_none() {
            return false;
        }
        match event {
            EmojiPoll::Waiting => true,
            EmojiPoll::TimedOut => {
                let task = self.emoji_assignment_task.take().unwrap();
                let EmojiAssignmentTask { receiver, target: _, assignment, connection_generation: _, started_at: _ } = task;
                self.emoji_assignment_reclaim_task = Some(EmojiAssignmentReclaimTask { receiver });
                self.handoff_hid_worker_disconnect(StatusMessage::plain("key_picker.emoji_worker_stopped"));
                self.restore_emoji_assignment(assignment, EmojiAssignmentError::WorkerStopped, None);
                false
            },
            EmojiPoll::WorkerGone => {
                let task = self.emoji_assignment_task.take().unwrap();
                self.handoff_hid_worker_disconnect(StatusMessage::plain("key_picker.emoji_worker_stopped"));
                self.restore_emoji_assignment(task.assignment, EmojiAssignmentError::WorkerStopped, None);
                false
            },
            EmojiPoll::Report(report) => {
                let task = self.emoji_assignment_task.take().unwrap();
                if task.connection_generation != self.hid_connection_generation {
                    return false;
                }
                let EmojiAssignmentResult { hid_returned, result } = report;
                if hid_returned {
                    self.hid_connected = true;
                    match result {
                        Ok(()) => self.finish_emoji_assignment(task),
                        Err(error) => self.restore_emoji_assignment(
                            task.assignment,
                            EmojiAssignmentError::SaveFailed,
                            Some(error),
                        ),
                    }
                } else {
                    self.handoff_hid_worker_disconnect(StatusMessage::plain("key_picker.emoji_save_failed"));
                    self.restore_emoji_assignment(
                        task.assignment,
                        EmojiAssignmentError::SaveFailed,
                        result.err(),
                    );
                }
                false
            },
        }
    }

    /// Drains the worker of an abandoned emoji write: its report, or its end, releases it;
    /// nothing it reports is restored. Returns whether to poll again soon.
    pub fn poll_abandoned_emoji_assignment(
        &mut self,
        received: Result<EmojiAssignmentResult, TryRecvError>,
    ) -> (poll_again: bool)
        ensures
            match old(self).emoji_assignment_reclaim_task {
                None => *final(self) == *old(self) && !poll_again,
                Some(_) => match received {
                    Err(TryRecvError::Empty) => *final(self) == *old(self) && poll_again,
                    _ => *final(self) == (EntropyApp {
                        emoji_assignment_reclaim_task: None,
                        ..*old(self)
                    }) && !poll_again,
                },
            },
    {
        if self.emoji_assignment_reclaim_task.is_none() {
            return false;
        }
        match received {
            Err(TryRecvError::Empty) => true,
            _ => {
                self.emoji_assignment_reclaim_task = None;
                false
            },
        }
    }
}


/// What a worker needs to write an emoji assignment.
#[derive(Debug)]
pub struct EmojiWriteJob {
    pub target: EmojiAssignmentTarget,
    pub assignment: EmojiAssignment,
    /// The macro texts as the keyboard holds them, for the rollback.
    pub previous_macros: Vec<Vec<u8>>,
    /// The macro texts with the emoji in its slot.
    pub desired_macros: Vec<Vec<u8>>,
    /// The macro keycode the target gets.
    pub keycode: u16,
    /// The connection the write belongs to.
    pub connection_generation: u64,
}

/// The byte strings of `v`, as sequences.
pub open spec fn texts_view(v: Seq<Vec<u8>>) -> Seq<Seq<u8>> {
    v.map_values(|t: Vec<u8>| t@)
}

fn copy_bytes(src: &Vec<u8>) -> (copy: Vec<u8>)
    ensures
        copy@ == src@,
{
    let mut copy: Vec<u8> = Vec::new();
    let mut i: usize = 0;
    while i < src.len()
        invariant
            i <= src@.len(),
            copy@ == src@.take(i as int),
        decreases src@.len() - i,
    {
        copy.push(src[i]);
        i = i + 1;
        assert(copy@ =~= src@.take(i as int));
    }
    assert(copy@ =~= src@);
    copy
}

fn copy_texts(src: &Vec<Vec<u8>>) -> (copy: Vec<Vec<u8>>)
    ensures
        texts_view(copy@) == texts_view(src@),
        copy@.len() == src@.len(),
{
    let mut copy: Vec<Vec<u8>> = Vec::new();
    let mut i: usize = 0;
    while i < src.len()
        invariant
            i <= src@.len(),
            copy@.len() == i,
            texts_view(copy@) == texts_view(src@).take(i as int),
        decreases src@.len() - i,
    {
        let c = copy_bytes(&src[i]);
        let ghost prev = copy@;
        copy.push(c);
        assert(texts_view(copy@) =~= texts_view(prev).push(c@));
        i = i + 1;
        assert(texts_view(src@).take(i as int) =~= texts_view(src@).take(i - 1).push(src@[i - 1]@));
    }
    assert(texts_view(copy@) =~= texts_view(src@));
    copy
}

impl EntropyApp {
    /// Starts storing an emoji in its macro slot and binding the target to the slot's
    /// macro keycode. Without a keyboard, or with a slot the macros do not have, the
    /// assignment is staged in the open picker with the reason. Otherwise the keyboard is
    /// handed to the write and the job for the worker is returned; the picker's pending
    /// result is dropped in every case.
    pub fn start_emoji_assignment(
        &mut self,
        target: EmojiAssignmentTarget,
        assignment: EmojiAssignment,
    ) -> (job: Option<EmojiWriteJob>)
        ensures
            final(self).keycode_picker.result is None,
            !old(self).hid_connected ==> job is None && restored(
                *final(self),
                *old(self),
                assignment,
                EmojiAssignmentError::DeviceUnavailable,
            ) && final(self).hid_connected == old(self).hid_connected,
            old(self).hid_connected && assignment.slot >= old(self).keycode_picker.macro_texts@.len()
                ==> job is None && restored(
                *final(self),
                *old(self),
                assignment,
                EmojiAssignmentError::TargetUnavailable,
            ) && final(self).hid_connected,
            old(self).hid_connected && assignment.slot < old(self).keycode_picker.macro_texts@.len()
                ==> (job matches Some(j) && j.target == target && j.assignment == assignment
                && texts_view(j.previous_macros@) == texts_view(old(self).keycode_picker.macro_texts@)
                && texts_view(j.desired_macros@) == texts_view(
                old(self).keycode_picker.macro_texts@,
            ).update(assignment.slot as int, assignment.text@) && j.keycode == macro_keycode(
                assignment.slot,
            ) && j.connection_generation == old(self).hid_connection_generation
                && !final(self).hid_connected && final(self).status_msg.is_plain(
                "status_messages.emoji_assignment_saving",
            ) && final(self).keycode_picker.macro_texts == old(self).keycode_picker.macro_texts
                && final(self).layout == old(self).layout && final(self).undo_stack == old(
                self,
            ).undo_stack),
    {
        self.keycode_picker.result = None;
        if !self.hid_connected {
            self.restore_emoji_assignment(assignment, EmojiAssignmentError::DeviceUnavailable, None);
            return None;
        }
        if assignment.slot >= self.keycode_picker.macro_texts.len() {
            self.restore_emoji_assignment(assignment, EmojiAssignmentError::TargetUnavailable, None);
            return None;
        }
        let previous_macros = copy_texts(&self.keycode_picker.macro_texts);
        let mut desired_macros = copy_texts(&self.keycode_picker.macro_texts);
        let text = copy_bytes(&assignment.text);
        let ghost before = desired_macros@;
        desired_macros.set(assignment.slot, text);
        assert(texts_view(desired_macros@) =~= texts_view(before).update(
            assignment.slot as int,
            assignment.text@,
        ));
        let slot_code = (#[verifier::truncate] (assignment.slot as u16));
        let keycode = 0x7700u16.saturating_add(slot_code);
        self.hid_connected = false;
        self.status_msg = StatusMessage::plain("status_messages.emoji_assignment_saving");
        Some(EmojiWriteJob {
            target,
            assignment,
            previous_macros,
            desired_macros,
            keycode,
            connection_generation: self.hid_connection_generation,
        })
    }
}

} // verus!
