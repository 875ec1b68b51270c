//! Assigning a keycode to a key or an encoder slot: the write handed to the keyboard
//! worker, the local update, the undo entry, and undoing the last edit.
use vstd::prelude::*;

use crate::app::{EntropyApp, StatusMessage, UndoAction};
use crate::key_assignment::{of_generation, only_queue_changed, PendingMiddleClickAssignment};
use crate::keyboard::table_set;
use crate::layer_operations::LayerWriteJob;

verus! {

/// A single write for the keyboard worker.
#[derive(Clone, Copy, Debug, PartialEq, Eq, Structural)]
pub enum VialHidOperation {
    KeyWrite {
        layer: usize,
        key_index: usize,
        row: u8,
        col: u8,
        old_binding: u16,
        binding: u16,
        is_undo: bool,
    },
    EncoderWrite {
        layer: usize,
        encoder_visual_index: usize,
        encoder_index: u8,
        direction: u8,
        old_keycode: u16,
        keycode: u16,
        is_undo: bool,
    },
}

/// What handing a write to the keyboard worker gave.
#[derive(Clone, Copy, Debug, PartialEq, Eq, Structural)]
pub enum VialHidTaskStart {
    /// The worker took the write.
    Started,
    /// The worker is busy with another write; try again later.
    Busy,
    /// No keyboard can take writes; the edit is kept locally only.
    NoDevice,
}

/// The write of `binding` to key `ki` of `layer`, where the layout has that key.
pub open spec fn key_write_of(app: EntropyApp, layer: usize, ki: usize, binding: u16, is_undo: bool) -> Option<VialHidOperation> {
    match app.layout {
        Some(l) if ki < l.keys@.len() => Some(
            VialHidOperation::KeyWrite {
                layer,
                key_index: ki,
                row: l.keys@[ki as int].row,
                col: l.keys@[ki as int].col,
                old_binding: l.keycode_at(layer as int, ki as int),
                binding,
                is_undo,
            },
        ),
        _ => None,
    }
}

/// The write of `keycode` to encoder slot `idx` of `layer`, where the layout has that slot.
pub open spec fn encoder_write_of(app: EntropyApp, layer: usize, idx: usize, keycode: u16, is_undo: bool) -> Option<VialHidOperation> {
    match app.layout {
        Some(l) if idx < l.encoders@.len() => Some(
            VialHidOperation::EncoderWrite {
                layer,
                encoder_visual_index: idx,
                encoder_index: l.encoders@[idx as int].encoder_idx,
                direction: l.encoders@[idx as int].direction,
                old_keycode: l.encoder_keycode_at(layer as int, idx as int),
                keycode,
                is_undo,
            },
        ),
        _ => None,
    }
}

/// Whether `app` is `old` with `binding` stored for key `ki` of `layer` in the layout.
pub open spec fn key_stored(app: EntropyApp, old: EntropyApp, layer: usize, ki: usize, binding: u16) -> bool {
    match old.layout {
        Some(l) => app.layout matches Some(f) && f.layer_table() == table_set(
            l.layer_table(),
            layer as int,
            ki as int,
            binding,
        ) && f.encoder_layers == l.encoder_layers && f.keys == l.keys && f.encoders == l.encoders
            && f.layers@.len() == l.layers@.len(),
        None => app.layout is None,
    }
}

/// Whether `app` is `old` with `keycode` stored for encoder slot `idx` of `layer`.
pub open spec fn encoder_stored(app: EntropyApp, old: EntropyApp, layer: usize, idx: usize, keycode: u16) -> bool {
    match old.layout {
        Some(l) => app.layout matches Some(f) && f.encoder_table() == table_set(
            l.encoder_table(),
            layer as int,
            idx as int,
            keycode,
        ) && f.layers == l.layers && f.keys == l.keys && f.encoders == l.encoders
            && f.encoder_layers@.len() == l.encoder_layers@.len(),
        None => app.layout is None,
    }
}

/// What assigning a key leaves, once the worker answered `outcome`.
pub open spec fn key_assigned(
    app: EntropyApp,
    old: EntropyApp,
    layer: usize,
    ki: usize,
    binding: u16,
    is_undo: bool,
    outcome: VialHidTaskStart,
) -> bool {
    match outcome {
        VialHidTaskStart::Busy => app == old,
        VialHidTaskStart::Started => {
            &&& key_stored(app, old, layer, ki, binding)
            &&& app.layer_picker_flags_dirty
            &&& app.status_msg == StatusMessage::Literal("Saving…")
            &&& app.undo_stack == old.undo_stack
        },
        VialHidTaskStart::NoDevice => {
            &&& key_stored(app, old, layer, ki, binding)
            &&& app.layer_picker_flags_dirty
            &&& app.status_msg == StatusMessage::Literal(
                "Read-only: key changed locally, firmware write disabled for this device",
            )
            &&& app.undo_stack@ == if is_undo {
                old.undo_stack@
            } else {
                old.undo_stack@.push(
                    UndoAction::Key {
                        layer,
                        key_idx: ki,
                        old_binding: old.layout->0.keycode_at(layer as int, ki as int),
                    },
                )
            }
        },
    }
}

/// What assigning an encoder slot leaves, once the worker answered `outcome`.
pub open spec fn encoder_assigned(
    app: EntropyApp,
    old: EntropyApp,
    layer: usize,
    idx: usize,
    keycode: u16,
    is_undo: bool,
    outcome: VialHidTaskStart,
) -> bool {
    match outcome {
        VialHidTaskStart::Busy => app == old,
        VialHidTaskStart::Started => {
            &&& encoder_stored(app, old, layer, idx, keycode)
            &&& app.status_msg == StatusMessage::Literal("Saving…")
            &&& app.undo_stack == old.undo_stack
            &&& app.layer_picker_flags_dirty == old.layer_picker_flags_dirty
        },
        VialHidTaskStart::NoDevice => {
            &&& encoder_stored(app, old, layer, idx, keycode)
            &&& app.status_msg == StatusMessage::Literal(
                "Read-only: encoder changed locally, firmware write disabled for this device",
            )
            &&& app.undo_stack@ == if is_undo {
                old.undo_stack@
            } else {
                old.undo_stack@.push(
                    UndoAction::Encoder {
                        layer,
                        encoder_visual_idx: idx,
                        old_kc: old.layout->0.encoder_keycode_at(layer as int, idx as int),
                    },
                )
            }
            &&& app.layer_picker_flags_dirty == old.layer_picker_flags_dirty
        },
    }
}

/// The parts of the application an assignment leaves alone.
pub open spec fn assignment_frame(app: EntropyApp, old: EntropyApp) -> bool {
    app == (EntropyApp {
        layout: app.layout,
        layer_picker_flags_dirty: app.layer_picker_flags_dirty,
        status_msg: app.status_msg,
        undo_stack: app.undo_stack,
        ..old
    })
}

impl EntropyApp {
    /// Assigns `binding` to key `ki` of `layer`: refused while a settings write is in
    /// flight; a key the layout does not have counts as done; otherwise the write goes to
    /// the worker through `start`. A started write is applied locally at once; without a
    /// keyboard the edit is kept locally with an undo entry (except when it is itself an
    /// undo); a busy worker leaves everything as it was. Returns whether the assignment was
    /// taken.
    pub fn assign_key_binding_with_mode<F: FnOnce(VialHidOperation) -> VialHidTaskStart>(
        &mut self,
        layer: usize,
        ki: usize,
        binding: u16,
        is_undo: bool,
        settings_write_busy: bool,
        start: F,
    ) -> (assigned: bool)
        requires
            forall|op: VialHidOperation| call_requires(start, (op,)),
        ensures
            assignment_frame(*final(self), *old(self)),
            if settings_write_busy {
                !assigned && final(self).status_msg.is_plain("settings_write.busy") && *final(self)
                    == (EntropyApp { status_msg: final(self).status_msg, ..*old(self) })
            } else {
                match key_write_of(*old(self), layer, ki, binding, is_undo) {
                    None => assigned && *final(self) == *old(self),
                    Some(op) => exists|outcome: VialHidTaskStart|
                        call_ensures(start, (op,), outcome) && assigned == (outcome
                            != VialHidTaskStart::Busy) && key_assigned(
                            *final(self),
                            *old(self),
                            layer,
                            ki,
                            binding,
                            is_undo,
                            outcome,
                        ),
                }
            },
    {
        if settings_write_busy {
            self.status_msg = StatusMessage::plain("settings_write.busy");
            return false;
        }
        let (row, col, old_binding) = match &self.layout {
            Some(l) => {
                if ki >= l.keys.len() {
                    return true;
                }
                (l.keys[ki].row, l.keys[ki].col, l.get_keycode(layer, ki))
            },
            None => return true,
        };
        let op = VialHidOperation::KeyWrite {
            layer,
            key_index: ki,
            row,
            col,
            old_binding,
            binding,
            is_undo,
        };
        assert(key_write_of(*old(self), layer, ki, binding, is_undo) == Some(op));
        let outcome = start(op);
        let assigned = match outcome {
            VialHidTaskStart::Started => {
                if let Some(layout) = &mut self.layout {
                    layout.set_keycode(layer, ki, binding);
                }
                self.layer_picker_flags_dirty = true;
                self.status_msg = StatusMessage::Literal("Saving…");
                true
            },
            VialHidTaskStart::Busy => false,
            VialHidTaskStart::NoDevice => {
                if !is_undo {
                    self.undo_stack.push(UndoAction::Key { layer, key_idx: ki, old_binding });
                }
                if let Some(layout) = &mut self.layout {
                    layout.set_keycode(layer, ki, binding);
                }
                self.layer_picker_flags_dirty = true;
                self.status_msg = StatusMessage::Literal(
                    "Read-only: key changed locally, firmware write disabled for this device",
                );
                true
            },
        };
        assert(call_ensures(start, (op,), outcome) && assigned == (outcome != VialHidTaskStart::Busy)
            && key_assigned(*self, *old(self), layer, ki, binding, is_undo, outcome));
        assigned
    }

    /// Assigns `keycode` to encoder slot `encoder_visual_idx` of `layer`, as
    /// `assign_key_binding_with_mode` does for keys.
    pub fn assign_encoder_keycode_with_mode<F: FnOnce(VialHidOperation) -> VialHidTaskStart>(
        &mut self,
        layer: usize,
        encoder_visual_idx: usize,
        kc_value: u16,
        is_undo: bool,
        settings_write_busy: bool,
        start: F,
    ) -> (assigned: bool)
        requires
            forall|op: VialHidOperation| call_requires(start, (op,)),
        ensures
            assignment_frame(*final(self), *old(self)),
            if settings_write_busy {
                !assigned && final(self).status_msg.is_plain("settings_write.busy") && *final(self)
                    == (EntropyApp { status_msg: final(self).status_msg, ..*old(self) })
            } else {
                match encoder_write_of(*old(self), layer, encoder_visual_idx, kc_value, is_undo) {
                    None => assigned && *final(self) == *old(self),
                    Some(op) => exists|outcome: VialHidTaskStart|
                        call_ensures(start, (op,), outcome) && assigned == (outcome
                            != VialHidTaskStart::Busy) && encoder_assigned(
                            *final(self),
                            *old(self),
                            layer,
                            encoder_visual_idx,
                            kc_value,
                            is_undo,
                            outcome,
                        ),
                }
            },
    {
        if settings_write_busy {
            self.status_msg = StatusMessage::plain("settings_write.busy");
            return false;
        }
        let (encoder_index, direction, old_kc) = match &self.layout {
            Some(l) => {
                if encoder_visual_idx >= l.encoders.len() {
                    return true;
                }
                (
                    l.encoders[encoder_visual_idx].encoder_idx,
                    l.encoders[encoder_visual_idx].direction,
                    l.get_encoder_keycode(layer, encoder_visual_idx),
                )
            },
            None => return true,
        };
        let op = VialHidOperation::EncoderWrite {
            layer,
            encoder_visual_index: encoder_visual_idx,
            encoder_index,
            direction,
            old_keycode: old_kc,
            keycode: kc_value,
            is_undo,
        };
        assert(encoder_write_of(*old(self), layer, encoder_visual_idx, kc_value, is_undo) == Some(op));
        let outcome = start(op);
        let assigned = match outcome {
            VialHidTaskStart::Started => {
                if let Some(layout) = &mut self.layout {
                    layout.set_encoder_keycode(layer, encoder_visual_idx, kc_value);
                }
                self.status_msg = StatusMessage::Literal("Saving…");
                true
            },
            VialHidTaskStart::Busy => false,
            VialHidTaskStart::NoDevice => {
                if !is_undo {
                    self.undo_stack.push(UndoAction::Encoder { layer, encoder_visual_idx, old_kc });
                }
                if let Some(layout) = &mut self.layout {
                    layout.set_encoder_keycode(layer, encoder_visual_idx, kc_value);
                }
                self.status_msg = StatusMessage::Literal(
                    "Read-only: encoder changed locally, firmware write disabled for this device",
                );
                true
            },
        };
        assert(call_ensures(start, (op,), outcome) && assigned == (outcome != VialHidTaskStart::Busy)
            && encoder_assigned(*self, *old(self), layer, encoder_visual_idx, kc_value, is_undo, outcome));
        assigned
    }
}


/// Whether `mid` is `old` with its last undo entry taken off.
pub open spec fn popped(mid: EntropyApp, old: EntropyApp) -> bool {
    &&& mid == (EntropyApp { undo_stack: mid.undo_stack, ..old })
    &&& mid.undo_stack@ == old.undo_stack@.drop_last()
}

/// Whether `app` is `old` with only the undo stack rebuilt to the same entries and,
/// possibly, the status message changed.
pub open spec fn kept_undo(app: EntropyApp, old: EntropyApp) -> bool {
    &&& app == (EntropyApp { undo_stack: app.undo_stack, status_msg: app.status_msg, ..old })
    &&& app.undo_stack@ == old.undo_stack@
}

/// Whether every layer undo entry fits the machine's sizes.
pub open spec fn undo_entries_fit(stack: Seq<UndoAction>) -> bool {
    forall|i: int|
        0 <= i < stack.len() ==> (#[trigger] stack[i] matches UndoAction::Layer { old: snapshot, .. }
            ==> snapshot.keycodes@.len() + snapshot.encoder_keycodes@.len() <= usize::MAX)
}

/// What undoing a key edit leaves once the worker took the write (`outcome` is not busy):
/// the entry is consumed and the key holds its old binding again.
pub open spec fn key_undone(app: EntropyApp, old: EntropyApp, layer: usize, ki: usize, binding: u16, outcome: VialHidTaskStart) -> bool {
    &&& assignment_frame(app, old)
    &&& app.undo_stack@ == old.undo_stack@.drop_last()
    &&& key_stored(app, old, layer, ki, binding)
    &&& app.layer_picker_flags_dirty
    &&& app.status_msg == if outcome == VialHidTaskStart::Started {
        StatusMessage::Literal("Saving…")
    } else {
        StatusMessage::Literal("Read-only: key changed locally, firmware write disabled for this device")
    }
}

/// What undoing an encoder edit leaves once the worker took the write.
pub open spec fn encoder_undone(app: EntropyApp, old: EntropyApp, layer: usize, idx: usize, keycode: u16, outcome: VialHidTaskStart) -> bool {
    &&& assignment_frame(app, old)
    &&& app.undo_stack@ == old.undo_stack@.drop_last()
    &&& encoder_stored(app, old, layer, idx, keycode)
    &&& app.layer_picker_flags_dirty == old.layer_picker_flags_dirty
    &&& app.status_msg == if outcome == VialHidTaskStart::Started {
        StatusMessage::Literal("Saving…")
    } else {
        StatusMessage::Literal("Read-only: encoder changed locally, firmware write disabled for this device")
    }
}

/// Whether `app` is `old` with the last undo entry consumed and nothing else changed.
pub open spec fn only_popped(app: EntropyApp, old: EntropyApp) -> bool {
    &&& app == (EntropyApp { undo_stack: app.undo_stack, ..old })
    &&& app.undo_stack@ == old.undo_stack@.drop_last()
}

/// What undoing the last edit leaves, with `start` handing writes to the worker: see
/// `perform_layout_undo`.
pub open spec fn layout_undo_done<F: FnOnce(VialHidOperation) -> VialHidTaskStart>(
    start: F,
    settings_write_busy: bool,
    app: EntropyApp,
    prev: EntropyApp,
    job: Option<LayerWriteJob>,
) -> bool {
    if prev.undo_stack@.len() == 0 {
        app == prev && job is None
    } else {
        match prev.undo_stack@.last() {
            UndoAction::Key { layer, key_idx, old_binding } => {
                &&& job is None
                &&& if settings_write_busy {
                    kept_undo(app, prev) && app.status_msg.is_plain(
                        "settings_write.busy",
                    )
                } else {
                    match key_write_of(prev, layer, key_idx, old_binding, true) {
                        None => only_popped(app, prev),
                        Some(op) => exists|outcome: VialHidTaskStart|
                            #[trigger] call_ensures(start, (op,), outcome) && if outcome
                                == VialHidTaskStart::Busy {
                                kept_undo(app, prev) && app.status_msg
                                    == prev.status_msg
                            } else {
                                key_undone(app, prev, layer, key_idx, old_binding, outcome)
                            },
                    }
                }
            },
            UndoAction::Encoder { layer, encoder_visual_idx, old_kc } => {
                &&& job is None
                &&& if settings_write_busy {
                    kept_undo(app, prev) && app.status_msg.is_plain(
                        "settings_write.busy",
                    )
                } else {
                    match encoder_write_of(prev, layer, encoder_visual_idx, old_kc, true) {
                        None => only_popped(app, prev),
                        Some(op) => exists|outcome: VialHidTaskStart|
                            #[trigger] call_ensures(start, (op,), outcome) && if outcome
                                == VialHidTaskStart::Busy {
                                kept_undo(app, prev) && app.status_msg
                                    == prev.status_msg
                            } else {
                                encoder_undone(app, prev, layer, encoder_visual_idx, old_kc, outcome)
                            },
                    }
                }
            },
            UndoAction::Layer { layer, old: snapshot, requires_firmware } => exists|mid: EntropyApp|
                popped(mid, prev) && crate::layer_operations::starts_layer_write(
                    mid,
                    app,
                    job,
                    layer,
                    snapshot,
                    "layer_actions.undo",
                    crate::layer_operations::LayerUndoBehavior::RetryDesired { requires_firmware },
                ),
        }
    }
}

impl EntropyApp {
    /// Undoes the last edit. A key or encoder edit is written back through `start`; if the
    /// write cannot be taken now (a settings write is in flight, or the worker is busy) the
    /// entry goes back on the undo stack to be retried. A layer edit starts a layer write
    /// restoring the old layer.
    pub fn perform_layout_undo<F: FnOnce(VialHidOperation) -> VialHidTaskStart>(
        &mut self,
        settings_write_busy: bool,
        start: F,
    ) -> (job: Option<LayerWriteJob>)
        requires
            forall|op: VialHidOperation| call_requires(start, (op,)),
            undo_entries_fit(old(self).undo_stack@),
        ensures
            layout_undo_done(start, settings_write_busy, *final(self), *old(self), job),

    {
        if self.undo_stack.len() == 0 {
            return None;
        }
        let ghost before = *self;
        let action = match self.undo_stack.pop() {
            Some(action) => action,
            None => return None,
        };
        let ghost mid = *self;
        assert(popped(mid, before));
        assert(action == before.undo_stack@.last());
        match action {
            UndoAction::Key { layer, key_idx, old_binding } => {
                let ghost sg = start;
                let ghost op = key_write_of(mid, layer, key_idx, old_binding, true);
                let assigned = self.assign_key_binding_with_mode(layer, key_idx, old_binding, true, settings_write_busy, start);
                let ghost after = *self;
                if !assigned {
                    self.undo_stack.push(UndoAction::Key { layer, key_idx, old_binding });
                    assert(self.undo_stack@ =~= before.undo_stack@);
                }
                proof {
                    if settings_write_busy {
                        assert(kept_undo(*self, before));
                    } else if op is None {
                        assert(only_popped(*self, before));
                    } else {
                        let o = choose|o: VialHidTaskStart|
                            call_ensures(sg, (op->0,), o) && assigned == (o != VialHidTaskStart::Busy)
                                && key_assigned(after, mid, layer, key_idx, old_binding, true, o);
                        assert(call_ensures(sg, (op->0,), o));
                        assert(key_write_of(before, layer, key_idx, old_binding, true) == op);
                        if o == VialHidTaskStart::Busy {
                            assert(kept_undo(*self, before));
                        } else {
                            assert(key_undone(*self, before, layer, key_idx, old_binding, o));
                        }

                    }
                }
                None
            },
            UndoAction::Encoder { layer, encoder_visual_idx, old_kc } => {
                let ghost sg = start;
                let ghost op = encoder_write_of(mid, layer, encoder_visual_idx, old_kc, true);
                let assigned = self.assign_encoder_keycode_with_mode(
                    layer,
                    encoder_visual_idx,
                    old_kc,
                    true,
                    settings_write_busy,
                    start,
                );
                let ghost after = *self;
                if !assigned {
                    self.undo_stack.push(UndoAction::Encoder { layer, encoder_visual_idx, old_kc });
                    assert(self.undo_stack@ =~= before.undo_stack@);
                }
                proof {
                    if settings_write_busy {
                        assert(kept_undo(*self, before));
                    } else if op is None {
                        assert(only_popped(*self, before));
                    } else {
                        let o = choose|o: VialHidTaskStart|
                            call_ensures(sg, (op->0,), o) && assigned == (o != VialHidTaskStart::Busy)
                                && encoder_assigned(after, mid, layer, encoder_visual_idx, old_kc, true, o);
                        assert(call_ensures(sg, (op->0,), o));
                        if o == VialHidTaskStart::Busy {
                            assert(kept_undo(*self, before));
                        } else {
                            assert(encoder_undone(*self, before, layer, encoder_visual_idx, old_kc, o));
                        }
                    }
                }
                None
            },
            UndoAction::Layer { layer, old: snapshot, requires_firmware } => {
                assert(before.undo_stack@[before.undo_stack@.len() - 1] == action);
                let job = self.undo_layer_snapshot(layer, snapshot, requires_firmware);
                assert(crate::layer_operations::starts_layer_write(
                    mid,
                    *self,
                    job,
                    layer,
                    snapshot,
                    "layer_actions.undo",
                    crate::layer_operations::LayerUndoBehavior::RetryDesired { requires_firmware },
                ));
                job
            },
        }
    }
}


/// Whether a picker result waits to be applied to key `ki` of `layer` and nothing else
/// claims it: a new middle click on that key supersedes it.
pub open spec fn picker_result_for_key(app: EntropyApp, layer: usize, ki: usize) -> bool {
    &&& app.keycode_picker.result is Some
    &&& app.combo_pick_target is None
    &&& app.key_override_pick_target is None
    &&& app.alt_repeat_pick_target is None
    &&& app.selected_encoder is None
    &&& app.selected_key == Some((layer, ki))
}

/// Whether a picker result waits to be applied to encoder slot `idx` of `layer` and
/// nothing else claims it.
pub open spec fn picker_result_for_encoder(app: EntropyApp, layer: usize, idx: usize) -> bool {
    &&& app.keycode_picker.result is Some
    &&& app.combo_pick_target is None
    &&& app.key_override_pick_target is None
    &&& app.alt_repeat_pick_target is None
    &&& app.selected_encoder == Some((layer, idx))
}

/// The application once a middle click on key `ki` of the selected layer dropped what it
/// supersedes: a picker result waiting for that key (and the key's selection), and a handed
/// swap waiting for it.
pub open spec fn middle_click_key_cleared(app: EntropyApp, ki: usize) -> EntropyApp {
    let layer = app.selected_layer;
    let picked = if picker_result_for_key(app, layer, ki) {
        EntropyApp {
            keycode_picker: crate::app::KeycodePickerState { result: None, ..app.keycode_picker },
            selected_key: None,
            ..app
        }
    } else {
        app
    };
    if app.pending_handed_swap matches Some((l, k, _)) && l == layer && k == ki {
        EntropyApp { pending_handed_swap: None, ..picked }
    } else {
        picked
    }
}

/// The application once a middle click on encoder slot `idx` of the selected layer dropped
/// a picker result waiting for that slot (and the slot's selection).
pub open spec fn middle_click_encoder_cleared(app: EntropyApp, idx: usize) -> EntropyApp {
    if picker_result_for_encoder(app, app.selected_layer, idx) {
        EntropyApp {
            keycode_picker: crate::app::KeycodePickerState { result: None, ..app.keycode_picker },
            selected_encoder: None,
            ..app
        }
    } else {
        app
    }
}

/// Whether `app` is `base` with `queue` as its queue of middle-click assignments.
pub open spec fn queued_over(app: EntropyApp, base: EntropyApp, queue: Seq<PendingMiddleClickAssignment>) -> bool {
    &&& app == (EntropyApp { pending_middle_click_assignments: app.pending_middle_click_assignments, ..base })
    &&& app.pending_middle_click_assignments@ == queue
}

/// What a middle click on key `ki` of the selected layer leaves, from `old`: once what it
/// supersedes is dropped, nothing more when the key already holds the middle-click binding
/// (or there is no layout); else the assignment is queued while a settings write is in
/// flight, counts as done for a key the layout does not have, and otherwise goes to the
/// worker through `start`: queued when the worker is busy, else assigned as
/// `assign_key_binding_with_mode` assigns (with its undo entry when no keyboard takes it).
pub open spec fn middle_click_key_done<F: FnOnce(VialHidOperation) -> VialHidTaskStart>(
    app: EntropyApp,
    old: EntropyApp,
    ki: usize,
    settings_write_busy: bool,
    start: F,
) -> bool {
    let layer = old.selected_layer;
    let binding = crate::key_assignment::middle_click_keycode(old.app_settings.middle_click_assigns_transparent);
    let c = middle_click_key_cleared(old, ki);
    let queued = PendingMiddleClickAssignment::Key { layer, key_idx: ki, binding, generation: old.connection_generation };
    let queue_after = old.pending_middle_click_assignments@.filter(crate::key_assignment::other_target(queued)).push(
        queued,
    );
    let already = match old.layout {
        Some(l) => l.keycode_at(layer as int, ki as int) == binding,
        None => true,
    };
    if already {
        app == c
    } else if settings_write_busy {
        app.status_msg.is_plain("settings_write.busy") && queued_over(
            app,
            EntropyApp { status_msg: app.status_msg, ..c },
            queue_after,
        )
    } else {
        match key_write_of(old, layer, ki, binding, false) {
            None => app == c,
            Some(op) => exists|outcome: VialHidTaskStart|
                #[trigger] call_ensures(start, (op,), outcome) && if outcome == VialHidTaskStart::Busy {
                    queued_over(app, c, queue_after)
                } else {
                    key_assigned(app, c, layer, ki, binding, false, outcome) && assignment_frame(app, c)
                },
        }
    }
}

/// What a middle click on encoder slot `idx` of the selected layer leaves, from `old`, as
/// `middle_click_key_done` says for keys.
pub open spec fn middle_click_encoder_done<F: FnOnce(VialHidOperation) -> VialHidTaskStart>(
    app: EntropyApp,
    old: EntropyApp,
    idx: usize,
    settings_write_busy: bool,
    start: F,
) -> bool {
    let layer = old.selected_layer;
    let keycode = crate::key_assignment::middle_click_keycode(old.app_settings.middle_click_assigns_transparent);
    let c = middle_click_encoder_cleared(old, idx);
    let queued = PendingMiddleClickAssignment::Encoder {
        layer,
        encoder_visual_idx: idx,
        keycode,
        generation: old.connection_generation,
    };
    let queue_after = old.pending_middle_click_assignments@.filter(crate::key_assignment::other_target(queued)).push(
        queued,
    );
    let already = match old.layout {
        Some(l) => l.encoder_keycode_at(layer as int, idx as int) == keycode,
        None => true,
    };
    if already {
        app == c
    } else if settings_write_busy {
        app.status_msg.is_plain("settings_write.busy") && queued_over(
            app,
            EntropyApp { status_msg: app.status_msg, ..c },
            queue_after,
        )
    } else {
        match encoder_write_of(old, layer, idx, keycode, false) {
            None => app == c,
            Some(op) => exists|outcome: VialHidTaskStart|
                #[trigger] call_ensures(start, (op,), outcome) && if outcome == VialHidTaskStart::Busy {
                    queued_over(app, c, queue_after)
                } else {
                    encoder_assigned(app, c, layer, idx, keycode, false, outcome) && assignment_frame(app, c)
                },
        }
    }
}

impl EntropyApp {
    /// Drops what a middle click on key `ki` of the selected layer supersedes.
    fn clear_superseded_by_middle_click_key(&mut self, ki: usize)
        ensures
            *final(self) == middle_click_key_cleared(*old(self), ki),
    {
        let layer = self.selected_layer;
        let picker_waits = match self.selected_key {
            Some((l, k)) => l == layer && k == ki,
            None => false,
        };
        if self.keycode_picker.result.is_some() && self.combo_pick_target.is_none()
            && self.key_override_pick_target.is_none() && self.alt_repeat_pick_target.is_none()
            && self.selected_encoder.is_none() && picker_waits {
            self.keycode_picker.result = None;
            self.selected_key = None;
        }
        let swap_waits = match self.pending_handed_swap {
            Some((l, k, _)) => l == layer && k == ki,
            None => false,
        };
        if swap_waits {
            self.pending_handed_swap = None;
        }
    }
}

impl EntropyApp {
    /// A middle click on key `ki` of the selected layer: it supersedes a picker result
    /// waiting for that key and a handed swap waiting for it; unless the key already holds
    /// the middle-click binding (or there is no layout), the binding is assigned, or queued
    /// for later when the keyboard cannot take the write now.
    #[verifier::rlimit(100)]
    pub fn request_middle_click_key_assignment<F: FnOnce(VialHidOperation) -> VialHidTaskStart>(
        &mut self,
        ki: usize,
        settings_write_busy: bool,
        start: F,
    )
        requires
            forall|op: VialHidOperation| call_requires(start, (op,)),
        ensures
            middle_click_key_done(*final(self), *old(self), ki, settings_write_busy, start),
    {
        let layer = self.selected_layer;
        let binding = self.middle_click_binding();
        let ghost old0 = *self;
        self.clear_superseded_by_middle_click_key(ki);
        assert(key_write_of(*self, layer, ki, binding, false) == key_write_of(old0, layer, ki, binding, false));
        let already_assigned = match &self.layout {
            Some(l) => l.get_keycode(layer, ki) == binding,
            None => true,
        };
        if already_assigned {
            return ;
        }
        let ghost sg = start;
        let ghost mid = *self;
        let assigned = self.assign_key_binding_with_mode(layer, ki, binding, false, settings_write_busy, start);
        let ghost after = *self;
        if !assigned {
            self.queue_pending_middle_click_assignment(
                crate::key_assignment::PendingMiddleClickAssignment::Key {
                    layer,
                    key_idx: ki,
                    binding,
                    generation: self.connection_generation,
                },
            );
        }
        proof {
            let op = key_write_of(mid, layer, ki, binding, false);
            if !settings_write_busy && op is Some {
                let o = choose|o: VialHidTaskStart|
                    call_ensures(sg, (op->0,), o) && assigned == (o != VialHidTaskStart::Busy)
                        && key_assigned(after, mid, layer, ki, binding, false, o);
                assert(call_ensures(sg, (op->0,), o));
            }
        }
    }
}


impl EntropyApp {
    /// A middle click on encoder slot `encoder_visual_idx` of the selected layer, as
    /// `request_middle_click_key_assignment` does for keys.
    #[verifier::rlimit(50)]
    pub fn request_middle_click_encoder_assignment<F: FnOnce(VialHidOperation) -> VialHidTaskStart>(
        &mut self,
        encoder_visual_idx: usize,
        settings_write_busy: bool,
        start: F,
    )
        requires
            forall|op: VialHidOperation| call_requires(start, (op,)),
        ensures
            middle_click_encoder_done(*final(self), *old(self), encoder_visual_idx, settings_write_busy, start),
    {
        let layer = self.selected_layer;
        let keycode = self.middle_click_binding();
        let picker_waits = match self.selected_encoder {
            Some((l, e)) => l == layer && e == encoder_visual_idx,
            None => false,
        };
        if self.keycode_picker.result.is_some() && self.combo_pick_target.is_none()
            && self.key_override_pick_target.is_none() && self.alt_repeat_pick_target.is_none()
            && picker_waits {
            self.keycode_picker.result = None;
            self.selected_encoder = None;
        }
        let already_assigned = match &self.layout {
            Some(l) => l.get_encoder_keycode(layer, encoder_visual_idx) == keycode,
            None => true,
        };
        if already_assigned {
            return ;
        }
        let ghost sg = start;
        let ghost mid = *self;
        let assigned = self.assign_encoder_keycode_with_mode(
            layer,
            encoder_visual_idx,
            keycode,
            false,
            settings_write_busy,
            start,
        );
        let ghost after = *self;
        if !assigned {
            self.queue_pending_middle_click_assignment(
                crate::key_assignment::PendingMiddleClickAssignment::Encoder {
                    layer,
                    encoder_visual_idx,
                    keycode,
                    generation: self.connection_generation,
                },
            );
        }
        proof {
            let op = encoder_write_of(mid, layer, encoder_visual_idx, keycode, false);
            if !settings_write_busy && op is Some {
                let o = choose|o: VialHidTaskStart|
                    call_ensures(sg, (op->0,), o) && assigned == (o != VialHidTaskStart::Busy)
                        && encoder_assigned(after, mid, layer, encoder_visual_idx, keycode, false, o);
                assert(call_ensures(sg, (op->0,), o));
            }
        }
    }
}


/// Whether the keyboard already holds what the queued assignment `a` would write (or there
/// is no layout to write to).
pub open spec fn already_assigned(app: EntropyApp, a: PendingMiddleClickAssignment) -> bool {
    match app.layout {
        None => true,
        Some(l) => match a {
            PendingMiddleClickAssignment::Key { layer, key_idx, binding, .. } => l.keycode_at(
                layer as int,
                key_idx as int,
            ) == binding,
            PendingMiddleClickAssignment::Encoder { layer, encoder_visual_idx, keycode, .. } =>
                l.encoder_keycode_at(layer as int, encoder_visual_idx as int) == keycode,
        },
    }
}

/// Whether `mid` is `app` after the assignment `a` was taken by the worker (or found to
/// have no target): the write handed to `start` and the answer it gave leave the key or
/// slot assigned, with no undo entry.
pub open spec fn assignment_taken<F: Fn(VialHidOperation) -> VialHidTaskStart>(
    start: F,
    app: EntropyApp,
    mid: EntropyApp,
    a: PendingMiddleClickAssignment,
) -> bool {
    &&& assignment_frame(mid, app)
    &&& match a {
        PendingMiddleClickAssignment::Key { layer, key_idx, binding, .. } => match key_write_of(
            app,
            layer,
            key_idx,
            binding,
            false,
        ) {
            None => mid == app,
            Some(op) => exists|outcome: VialHidTaskStart|
                #[trigger] call_ensures(start, (op,), outcome) && outcome != VialHidTaskStart::Busy
                    && key_assigned(mid, app, layer, key_idx, binding, false, outcome),
        },
        PendingMiddleClickAssignment::Encoder { layer, encoder_visual_idx, keycode, .. } =>
            match encoder_write_of(app, layer, encoder_visual_idx, keycode, false) {
            None => mid == app,
            Some(op) => exists|outcome: VialHidTaskStart|
                #[trigger] call_ensures(start, (op,), outcome) && outcome != VialHidTaskStart::Busy
                    && encoder_assigned(mid, app, layer, encoder_visual_idx, keycode, false, outcome),
        },
    }
}

/// One assignment of the queue done: the first one is dropped from the queue, after it was
/// found already in place or was taken by the worker.
pub open spec fn flush_step<F: Fn(VialHidOperation) -> VialHidTaskStart>(
    start: F,
    app: EntropyApp,
    next: EntropyApp,
) -> bool {
    let queue = app.pending_middle_click_assignments@;
    &&& queue.len() > 0
    &&& next.pending_middle_click_assignments@ == queue.drop_first()
    &&& if already_assigned(app, queue[0]) {
        only_queue_changed(next, app)
    } else {
        exists|mid: EntropyApp|
            #[trigger] assignment_taken(start, app, mid, queue[0]) && next == (EntropyApp {
                pending_middle_click_assignments: next.pending_middle_click_assignments,
                ..mid
            })
    }
}

/// `last` is `first` after `n` steps of the flush.
pub open spec fn flush_path<F: Fn(VialHidOperation) -> VialHidTaskStart>(
    start: F,
    first: EntropyApp,
    last: EntropyApp,
    n: nat,
) -> bool
    decreases n,
{
    if n == 0 {
        last == first
    } else {
        exists|prev: EntropyApp|
            flush_path(start, first, prev, (n - 1) as nat) && #[trigger] flush_step(start, prev, last)
    }
}

/// Extending a flush by one more step.
proof fn lemma_flush_path_extend<F: Fn(VialHidOperation) -> VialHidTaskStart>(
    start: F,
    first: EntropyApp,
    prev: EntropyApp,
    last: EntropyApp,
    k: nat,
)
    requires
        flush_path(start, first, prev, k),
        flush_step(start, prev, last),
    ensures
        flush_path(start, first, last, k + 1),
{
    assert(flush_path(start, first, prev, ((k + 1) - 1) as nat));
}

/// Whether the flush may stop with assignments left: `task_active` may report a write in
/// progress, a settings write is in flight, or the worker may refuse a write as busy.
pub open spec fn flush_may_stop<T: Fn() -> bool, F: Fn(VialHidOperation) -> VialHidTaskStart>(
    task_active: T,
    start: F,
    settings_write_busy: bool,
) -> bool {
    ||| call_ensures(task_active, (), true)
    ||| settings_write_busy
    ||| exists|op: VialHidOperation| #[trigger] call_ensures(start, (op,), VialHidTaskStart::Busy)
}

impl EntropyApp {
    /// Works through the queued middle-click assignments: those queued under an earlier
    /// connection are dropped; then, front first, each one the keyboard already holds is
    /// dropped and each other one is assigned, until the queue is empty, `task_active`
    /// reports a write in progress, or an assignment is not taken (a settings write in
    /// flight, or a busy worker), which stays queued.
    #[verifier::rlimit(60)]
    pub fn flush_pending_middle_click_assignments<T: Fn() -> bool, F: Fn(VialHidOperation) -> VialHidTaskStart>(
        &mut self,
        settings_write_busy: bool,
        task_active: T,
        start: F,
    )
        requires
            call_requires(task_active, ()),
            forall|op: VialHidOperation| call_requires(start, (op,)),
        ensures
            exists|first: EntropyApp, n: nat, last: EntropyApp|
                {
                    &&& only_queue_changed(first, *old(self))
                    &&& first.pending_middle_click_assignments@ == old(
                        self,
                    ).pending_middle_click_assignments@.filter(
                        of_generation(old(self).connection_generation),
                    )
                    &&& #[trigger] flush_path(start, first, last, n)
                    &&& (*final(self) == last || (settings_write_busy
                        && final(self).status_msg.is_plain("settings_write.busy")
                        && *final(self) == (EntropyApp {
                        status_msg: final(self).status_msg,
                        ..last
                    })))
                },
            final(self).pending_middle_click_assignments@.len() > 0 ==> flush_may_stop(
                task_active,
                start,
                settings_write_busy,
            ),
    {
        let ghost entry = *self;
        self.drop_stale_middle_click_assignments();
        let ghost first = *self;
        let ghost mut n: nat = 0;
        let ghost mut last = *self;
        let mut done = false;
        assert(flush_path(start, first, last, 0));
        while !done && self.pending_middle_click_assignments.len() > 0
            invariant
                call_requires(task_active, ()),
                forall|op: VialHidOperation| call_requires(start, (op,)),
                flush_path(start, first, last, n),
                !done ==> *self == last,
                done ==> *self == last || (settings_write_busy && self.status_msg.is_plain(
                    "settings_write.busy",
                ) && *self == (EntropyApp { status_msg: self.status_msg, ..last })),
                done ==> flush_may_stop(task_active, start, settings_write_busy),
            decreases self.pending_middle_click_assignments.len() * 2 + if done {
                0int
            } else {
                1int
            },
        {
            let active = task_active();
            if active {
                done = true;
            } else {
                let front = self.pending_middle_click_assignments[0];
                let already = match &self.layout {
                    None => true,
                    Some(l) => match front {
                        PendingMiddleClickAssignment::Key { layer, key_idx, binding, .. } => l.get_keycode(layer, key_idx) == binding,
                        PendingMiddleClickAssignment::Encoder {
                            layer,
                            encoder_visual_idx,
                            keycode,
                            ..
                        } => l.get_encoder_keycode(layer, encoder_visual_idx) == keycode,
                    },
                };
                assert(already == already_assigned(last, front));
                let taken = if already {
                    true
                } else {
                    let write = |op: VialHidOperation| -> (outcome: VialHidTaskStart)
                        requires
                            call_requires(start, (op,)),
                        ensures
                            call_ensures(start, (op,), outcome),
                        { start(op) };
                    let ghost before = *self;
                    let taken = match front {
                        PendingMiddleClickAssignment::Key { layer, key_idx, binding, .. } => {
                            let t = self.assign_key_binding_with_mode(
                                layer,
                                key_idx,
                                binding,
                                false,
                                settings_write_busy,
                                write,
                            );
                            proof {
                                let op = key_write_of(before, layer, key_idx, binding, false);
                                if !settings_write_busy && op is Some {
                                    let o = choose|o: VialHidTaskStart|
                                        call_ensures(write, (op->0,), o) && t == (o
                                            != VialHidTaskStart::Busy) && key_assigned(
                                            *self,
                                            before,
                                            layer,
                                            key_idx,
                                            binding,
                                            false,
                                            o,
                                        );
                                    assert(call_ensures(start, (op->0,), o));
                                    if t {
                                        assert(assignment_taken(start, before, *self, front));
                                    }
                                } else if !settings_write_busy {
                                    assert(assignment_taken(start, before, *self, front));
                                }
                            }
                            t
                        },
                        PendingMiddleClickAssignment::Encoder {
                            layer,
                            encoder_visual_idx,
                            keycode,
                            ..
                        } => {
                            let t = self.assign_encoder_keycode_with_mode(
                                layer,
                                encoder_visual_idx,
                                keycode,
                                false,
                                settings_write_busy,
                                write,
                            );
                            proof {
                                let op = encoder_write_of(before, layer, encoder_visual_idx, keycode, false);
                                if !settings_write_busy && op is Some {
                                    let o = choose|o: VialHidTaskStart|
                                        call_ensures(write, (op->0,), o) && t == (o
                                            != VialHidTaskStart::Busy) && encoder_assigned(
                                            *self,
                                            before,
                                            layer,
                                            encoder_visual_idx,
                                            keycode,
                                            false,
                                            o,
                                        );
                                    assert(call_ensures(start, (op->0,), o));
                                    if t {
                                        assert(assignment_taken(start, before, *self, front));
                                    }
                                } else if !settings_write_busy {
                                    assert(assignment_taken(start, before, *self, front));
                                }
                            }
                            t
                        },
                    };
                    taken
                };
                if taken {
                    let ghost mid = *self;
                    self.pending_middle_click_assignments.remove(0);
                    proof {
                        assert(self.pending_middle_click_assignments@
                            =~= last.pending_middle_click_assignments@.drop_first());
                        if already {
                            assert(only_queue_changed(*self, last));
                        } else {
                            assert(assignment_taken(start, last, mid, front));
                            assert(*self == (EntropyApp {
                                pending_middle_click_assignments: self.pending_middle_click_assignments,
                                ..mid
                            }));
                        }
                        assert(flush_step(start, last, *self));
                        lemma_flush_path_extend(start, first, last, *self, n);
                        n = n + 1;
                        last = *self;
                    }
                } else {
                    done = true;
                }
            }
        }
        proof {
            assert(only_queue_changed(first, entry));
        }
    }
}

impl EntropyApp {
    /// Undoes the last edit, unless a background load is using the keyboard: then the undo
    /// waits, to run as soon as the keyboard is free (the caller asks the load to yield).
    pub fn undo<F: FnOnce(VialHidOperation) -> VialHidTaskStart>(
        &mut self,
        background_layer_active: bool,
        settings_write_busy: bool,
        start: F,
    ) -> (job: Option<LayerWriteJob>)
        requires
            forall|op: VialHidOperation| call_requires(start, (op,)),
            undo_entries_fit(old(self).undo_stack@),
        ensures
            if background_layer_active {
                job is None && *final(self) == (EntropyApp { pending_layout_undo: true, ..*old(self) })
            } else {
                layout_undo_done(start, settings_write_busy, *final(self), *old(self), job)
            },
    {
        if background_layer_active {
            self.pending_layout_undo = true;
            return None;
        }
        self.perform_layout_undo(settings_write_busy, start)
    }

    /// Runs an undo that waited for the keyboard, once no background load uses it and no
    /// user action holds it.
    pub fn maybe_start_pending_layout_undo<F: FnOnce(VialHidOperation) -> VialHidTaskStart>(
        &mut self,
        background_layer_active: bool,
        user_action_busy: bool,
        settings_write_busy: bool,
        start: F,
    ) -> (job: Option<LayerWriteJob>)
        requires
            forall|op: VialHidOperation| call_requires(start, (op,)),
            undo_entries_fit(old(self).undo_stack@),
        ensures
            if !old(self).pending_layout_undo || background_layer_active || user_action_busy {
                job is None && *final(self) == *old(self)
            } else {
                layout_undo_done(
                    start,
                    settings_write_busy,
                    *final(self),
                    EntropyApp { pending_layout_undo: false, ..*old(self) },
                    job,
                )
            },
    {
        if !self.pending_layout_undo || background_layer_active || user_action_busy {
            return None;
        }
        self.pending_layout_undo = false;
        self.perform_layout_undo(settings_write_busy, start)
    }
}

/// What applying the picker's result came to.
#[derive(Clone, Copy, Debug, PartialEq, Eq, Structural)]
pub enum PickerResultOutcome {
    /// Nothing was applied: no result waits, or a user action holds the keyboard.
    Idle,
    /// The result is for a combo, key-override or alt-repeat entry; it was taken out of
    /// the picker for the caller's entry editor.
    ForEntry(u16),
    /// The keyboard did not take the write; the result stays in the picker.
    Refused,
    /// The keycode was assigned to the selected key or encoder slot, and the selection
    /// cleared.
    Applied(u16),
    /// Nothing was selected; the result and the selection were cleared.
    Dropped,
}

/// `app` with the key and encoder selection of `prev`.
pub open spec fn with_selection_of(app: EntropyApp, prev: EntropyApp) -> EntropyApp {
    EntropyApp { selected_key: prev.selected_key, selected_encoder: prev.selected_encoder, ..app }
}

/// `app` with `result` as the picker's result.
pub open spec fn with_result(app: EntropyApp, result: Option<u16>) -> EntropyApp {
    EntropyApp {
        keycode_picker: crate::app::KeycodePickerState { result, ..app.keycode_picker },
        ..app
    }
}

/// The write that assigning the picked `kc` to encoder slot `idx` (when `encoder`) or key
/// `idx` of `layer` hands to the worker, where the layout has that slot or key.
pub open spec fn pick_request(app: EntropyApp, encoder: bool, layer: usize, idx: usize, kc: u16) -> Option<VialHidOperation> {
    if encoder {
        encoder_write_of(app, layer, idx, kc, false)
    } else {
        key_write_of(app, layer, idx, kc, false)
    }
}

/// What an assignment of the picked `kc` that the worker answered with `o` leaves.
pub open spec fn pick_stored(app: EntropyApp, taken: EntropyApp, encoder: bool, layer: usize, idx: usize, kc: u16, o: VialHidTaskStart) -> bool {
    if encoder {
        encoder_assigned(app, taken, layer, idx, kc, false, o)
    } else {
        key_assigned(app, taken, layer, idx, kc, false, o)
    }
}

/// What assigning the picked `kc` to encoder slot `idx` (when `encoder`) or key `idx` of
/// `layer` leaves, starting from `taken`, the application with the result taken out: a
/// write the keyboard takes clears the selection; one it does not take puts the result
/// back (with the busy status when a settings write is in flight).
pub open spec fn pick_assigned<F: FnOnce(VialHidOperation) -> VialHidTaskStart>(
    start: F,
    settings_write_busy: bool,
    app: EntropyApp,
    taken: EntropyApp,
    encoder: bool,
    layer: usize,
    idx: usize,
    kc: u16,
    outcome: PickerResultOutcome,
) -> bool {
    if settings_write_busy {
        &&& outcome == PickerResultOutcome::Refused
        &&& app.status_msg.is_plain("settings_write.busy")
        &&& app == (EntropyApp { status_msg: app.status_msg, ..with_result(taken, Some(kc)) })
    } else {
        match pick_request(taken, encoder, layer, idx, kc) {
            None => outcome == PickerResultOutcome::Applied(kc) && app == (EntropyApp {
                selected_key: None,
                selected_encoder: None,
                ..taken
            }),
            Some(op) => exists|o: VialHidTaskStart|
                #[trigger] call_ensures(start, (op,), o) && if o == VialHidTaskStart::Busy {
                    outcome == PickerResultOutcome::Refused && app == with_result(taken, Some(kc))
                } else {
                    &&& outcome == PickerResultOutcome::Applied(kc)
                    &&& app.selected_key is None
                    &&& app.selected_encoder is None
                    &&& assignment_frame(with_selection_of(app, taken), taken)
                    &&& pick_stored(with_selection_of(app, taken), taken, encoder, layer, idx, kc, o)
                },
        }
    }
}

impl EntropyApp {
    /// Assigns the picked `kc` to encoder slot `idx` (when `encoder`) or key `idx` of
    /// `layer`, as `pick_assigned` says.
    fn assign_pick<F: FnOnce(VialHidOperation) -> VialHidTaskStart>(
        &mut self,
        encoder: bool,
        layer: usize,
        idx: usize,
        kc: u16,
        settings_write_busy: bool,
        start: F,
    ) -> (outcome: PickerResultOutcome)
        requires
            forall|op: VialHidOperation| call_requires(start, (op,)),
        ensures
            pick_assigned(start, settings_write_busy, *final(self), *old(self), encoder, layer, idx, kc, outcome),
    {
        let ghost taken = *self;
        let ghost sg = start;
        let ghost request = pick_request(taken, encoder, layer, idx, kc);
        let assigned = if encoder {
            self.assign_encoder_keycode_with_mode(layer, idx, kc, false, settings_write_busy, start)
        } else {
            self.assign_key_binding_with_mode(layer, idx, kc, false, settings_write_busy, start)
        };
        let ghost after = *self;
        proof {
            if !settings_write_busy && request is Some {
                let o = choose|o: VialHidTaskStart|
                    call_ensures(sg, (request->0,), o) && assigned == (o != VialHidTaskStart::Busy) && (if encoder {
                        encoder_assigned(after, taken, layer, idx, kc, false, o)
                    } else {
                        key_assigned(after, taken, layer, idx, kc, false, o)
                    });
                assert(call_ensures(sg, (request->0,), o));
                assert(pick_stored(after, taken, encoder, layer, idx, kc, o));
            }
        }
        if !assigned {
            self.keycode_picker.result = Some(kc);
            proof {
                assert(self.keycode_picker == (crate::app::KeycodePickerState {
                    result: Some(kc),
                    ..taken.keycode_picker
                }));
            }
            return PickerResultOutcome::Refused;
        }
        self.selected_key = None;
        self.selected_encoder = None;
        proof {
            assert(with_selection_of(*self, taken) == after);
        }
        PickerResultOutcome::Applied(kc)
    }

    /// Applies the keycode the picker's user chose to what it was chosen for: a combo,
    /// key-override or alt-repeat entry gets it through the caller; the selected encoder
    /// slot, or else the selected key, is assigned it, after which the selection is
    /// cleared. When the keyboard does not take the write the result stays for a retry.
    pub fn apply_picker_results<F: FnOnce(VialHidOperation) -> VialHidTaskStart>(
        &mut self,
        user_action_busy: bool,
        settings_write_busy: bool,
        start: F,
    ) -> (outcome: PickerResultOutcome)
        requires
            forall|op: VialHidOperation| call_requires(start, (op,)),
        ensures
            match old(self).keycode_picker.result {
                None => outcome == PickerResultOutcome::Idle && *final(self) == *old(self),
                Some(kc) => if user_action_busy {
                    outcome == PickerResultOutcome::Idle && *final(self) == *old(self)
                } else if old(self).combo_pick_target is Some || old(self).key_override_pick_target is Some
                    || old(self).alt_repeat_pick_target is Some {
                    outcome == PickerResultOutcome::ForEntry(kc) && *final(self) == with_result(*old(self), None)
                } else {
                    match old(self).selected_encoder {
                        Some((layer, idx)) => pick_assigned(
                            start,
                            settings_write_busy,
                            *final(self),
                            with_result(*old(self), None),
                            true,
                            layer,
                            idx,
                            kc,
                            outcome,
                        ),
                        None => match old(self).selected_key {
                            Some((layer, ki)) => pick_assigned(
                                start,
                                settings_write_busy,
                                *final(self),
                                with_result(*old(self), None),
                                false,
                                layer,
                                ki,
                                kc,
                                outcome,
                            ),
                            None => outcome == PickerResultOutcome::Dropped && *final(self) == with_result(
                                *old(self),
                                None,
                            ),
                        },
                    }
                },
            },
    {
        if user_action_busy {
            return PickerResultOutcome::Idle;
        }
        let kc = match self.keycode_picker.result {
            Some(kc) => kc,
            None => return PickerResultOutcome::Idle,
        };
        self.keycode_picker.result = None;
        if self.combo_pick_target.is_some() || self.key_override_pick_target.is_some()
            || self.alt_repeat_pick_target.is_some() {
            return PickerResultOutcome::ForEntry(kc);
        }
        if let Some((layer, idx)) = self.selected_encoder {
            return self.assign_pick(true, layer, idx, kc, settings_write_busy, start);
        }
        if let Some((layer, ki)) = self.selected_key {
            return self.assign_pick(false, layer, ki, kc, settings_write_busy, start);
        }
        PickerResultOutcome::Dropped
    }
}

} // verus!
