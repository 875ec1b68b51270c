//! A secondary (right) click on a key or an encoder slot of the layout: with Ctrl held it
//! swaps the hand of a modifier or reopens the picker on the binding's parts; without, it
//! follows a layer key, opens the editor of a macro, tap dance or mouse-key settings, or
//! reopens the picker on a modified key's base.
use vstd::prelude::*;

use crate::app::EntropyApp;
use crate::key_assignment::not_key;
use crate::keycode::{handed_counterpart, toggle_handed_modifier};

verus! {

/// What the keycode tables tell of the binding under the pointer.
#[derive(Clone, Copy, Debug, PartialEq, Eq)]
pub struct SecondaryClickBinding {
    /// The binding's keycode in the Vial numbering.
    pub keycode: u16,
    /// For a native mod-tap action: the Vial mod-tap keycode of its hold part, with no tap key.
    pub native_mod_tap_base: Option<u16>,
    /// The layer a layer key switches to.
    pub layer_target: Option<usize>,
    /// For a layer key whose target the picker can change: the keycode without its target.
    pub layer_retarget_base: Option<u16>,
    /// Whether the keycode is a mouse key.
    pub is_mouse_key: bool,
    /// Whether the keycode is an alt-repeat key.
    pub is_alt_repeat_key: bool,
}

/// What a secondary click asks for.
#[derive(Clone, Copy, Debug, PartialEq, Eq, Structural)]
pub enum SecondaryClickAction {
    /// Nothing.
    Nothing,
    /// Swap the hand of the native mod-tap on key `key_idx` once Ctrl is released.
    NativeHandedSwap { key_idx: usize },
    /// Write `keycode`, the other hand's modifier, to key `key_idx` once Ctrl is released.
    HandedSwap { key_idx: usize, keycode: u16 },
    /// Assign `keycode`, the other hand's modifier, to encoder slot `encoder_visual_idx`.
    AssignEncoder { encoder_visual_idx: usize, keycode: u16 },
    /// Keep `keycode` as the picker's result for encoder slot `encoder_visual_idx` until the
    /// running keyboard write ends.
    ParkEncoderResult { encoder_visual_idx: usize, keycode: u16 },
    /// Open the picker on the clicked target with the given part chosen: a mod-tap's hold,
    /// a modified key's modifiers, or a layer key without its target.
    OpenPicker { pending_mod_tap: Option<u16>, pending_modifier: Option<u16>, pending_layer: Option<u16> },
    /// Show the layer that a layer key switches to.
    JumpToLayer(usize),
    /// Open the editor of macro `n`.
    OpenMacro(u8),
    /// Open the editor of tap dance `n`.
    OpenTapDance(u8),
    /// Open the mouse-key settings.
    OpenMouseKeys,
    /// Open the alt-repeat window.
    OpenAltRepeat,
}

/// The keycode with its low byte cleared: the modifier or mod-tap part of a modified key.
pub open spec fn high_byte(kc: u16) -> u16 {
    ((kc / 256) * 256) as u16
}

/// What Ctrl with a secondary click does to a binding that is neither a native mod-tap nor,
/// without Ctrl, a layer key; `None` where Ctrl changes nothing.
pub open spec fn ctrl_click_of(
    b: SecondaryClickBinding,
    key_target: Option<usize>,
    encoder_target: Option<usize>,
    write_task_active: bool,
) -> Option<SecondaryClickAction> {
    let kc = b.keycode;
    if 0x4000 <= kc < 0x5000 {
        Some(
            SecondaryClickAction::OpenPicker {
                pending_mod_tap: Some(high_byte(kc)),
                pending_modifier: None,
                pending_layer: None,
            },
        )
    } else if handed_counterpart(kc) is Some {
        let swapped = handed_counterpart(kc)->0;
        Some(
            match encoder_target {
                Some(vi) => if write_task_active {
                    SecondaryClickAction::ParkEncoderResult { encoder_visual_idx: vi, keycode: swapped }
                } else {
                    SecondaryClickAction::AssignEncoder { encoder_visual_idx: vi, keycode: swapped }
                },
                None => match key_target {
                    Some(ki) => SecondaryClickAction::HandedSwap { key_idx: ki, keycode: swapped },
                    None => SecondaryClickAction::Nothing,
                },
            },
        )
    } else if b.layer_retarget_base is Some {
        Some(
            SecondaryClickAction::OpenPicker {
                pending_mod_tap: None,
                pending_modifier: None,
                pending_layer: b.layer_retarget_base,
            },
        )
    } else {
        None
    }
}

/// What a secondary click does to a binding that nothing before claimed: macro and tap-dance
/// keys open their editors, mouse keys the mouse-key settings where the keyboard exposes
/// them, alt-repeat keys their window, and a modified key or mod-tap (other than a layer
/// key) reopens the picker on its modifier part; `None` for anything else.
pub open spec fn plain_click_of(b: SecondaryClickBinding, mouse_keys_supported: bool) -> Option<
    SecondaryClickAction,
> {
    let kc = b.keycode;
    if 0x7700 <= kc <= 0x77FF {
        Some(SecondaryClickAction::OpenMacro((kc - 0x7700) as u8))
    } else if 0x5700 <= kc <= 0x57FF {
        Some(SecondaryClickAction::OpenTapDance((kc - 0x5700) as u8))
    } else if b.is_mouse_key && mouse_keys_supported {
        Some(SecondaryClickAction::OpenMouseKeys)
    } else if b.is_alt_repeat_key {
        Some(SecondaryClickAction::OpenAltRepeat)
    } else if b.layer_target is None && (0x2000 <= kc < 0x4000 || (0x0100 <= kc < 0x2000 && kc % 256
        != 0)) {
        Some(
            if kc >= 0x2000 {
                SecondaryClickAction::OpenPicker {
                    pending_mod_tap: Some(high_byte(kc)),
                    pending_modifier: None,
                    pending_layer: None,
                }
            } else {
                SecondaryClickAction::OpenPicker {
                    pending_mod_tap: None,
                    pending_modifier: Some(high_byte(kc)),
                    pending_layer: None,
                }
            },
        )
    } else {
        None
    }
}

/// The action of a secondary click, and whether the click counts as handled afterwards
/// (`already_handled` says whether it did before).
pub open spec fn secondary_click_of(
    b: SecondaryClickBinding,
    ctrl_held: bool,
    key_target: Option<usize>,
    encoder_target: Option<usize>,
    selected_layer: usize,
    mouse_keys_supported: bool,
    write_task_active: bool,
    already_handled: bool,
) -> (SecondaryClickAction, bool) {
    if b.native_mod_tap_base is Some {
        if ctrl_held {
            (
                match key_target {
                    Some(ki) => SecondaryClickAction::NativeHandedSwap { key_idx: ki },
                    None => SecondaryClickAction::Nothing,
                },
                true,
            )
        } else {
            (
                SecondaryClickAction::OpenPicker {
                    pending_mod_tap: b.native_mod_tap_base,
                    pending_modifier: None,
                    pending_layer: None,
                },
                true,
            )
        }
    } else if !ctrl_held && b.layer_target is Some {
        (
            if b.layer_target->0 != selected_layer {
                SecondaryClickAction::JumpToLayer(b.layer_target->0)
            } else {
                SecondaryClickAction::Nothing
            },
            true,
        )
    } else {
        let ctrl = if ctrl_held {
            ctrl_click_of(b, key_target, encoder_target, write_task_active)
        } else {
            None
        };
        match ctrl {
            Some(action) => (action, true),
            None => if ctrl_held && already_handled {
                (SecondaryClickAction::Nothing, true)
            } else {
                match plain_click_of(b, mouse_keys_supported) {
                    Some(action) => (action, true),
                    None => (SecondaryClickAction::Nothing, already_handled),
                }
            },
        }
    }
}

/// The action of a secondary click, and whether the click counts as handled afterwards.
pub fn secondary_click_action(
    b: SecondaryClickBinding,
    ctrl_held: bool,
    key_target: Option<usize>,
    encoder_target: Option<usize>,
    selected_layer: usize,
    mouse_keys_supported: bool,
    write_task_active: bool,
    already_handled: bool,
) -> (result: (SecondaryClickAction, bool))
    ensures
        result == secondary_click_of(
            b,
            ctrl_held,
            key_target,
            encoder_target,
            selected_layer,
            mouse_keys_supported,
            write_task_active,
            already_handled,
        ),
{
    let kc = b.keycode;
    if b.native_mod_tap_base.is_some() {
        if ctrl_held {
            let action = match key_target {
                Some(ki) => SecondaryClickAction::NativeHandedSwap { key_idx: ki },
                None => SecondaryClickAction::Nothing,
            };
            return (action, true);
        }
        return (
            SecondaryClickAction::OpenPicker {
                pending_mod_tap: b.native_mod_tap_base,
                pending_modifier: None,
                pending_layer: None,
            },
            true,
        );
    }
    if !ctrl_held {
        if let Some(target) = b.layer_target {
            if target != selected_layer {
                return (SecondaryClickAction::JumpToLayer(target), true);
            }
            return (SecondaryClickAction::Nothing, true);
        }
    }
    if ctrl_held {
        if 0x4000 <= kc && kc < 0x5000 {
            return (
                SecondaryClickAction::OpenPicker {
                    pending_mod_tap: Some((kc / 256) * 256),
                    pending_modifier: None,
                    pending_layer: None,
                },
                true,
            );
        }
        if let Some(swapped) = toggle_handed_modifier(kc) {
            let action = match encoder_target {
                Some(vi) => if write_task_active {
                    SecondaryClickAction::ParkEncoderResult { encoder_visual_idx: vi, keycode: swapped }
                } else {
                    SecondaryClickAction::AssignEncoder { encoder_visual_idx: vi, keycode: swapped }
                },
                None => match key_target {
                    Some(ki) => SecondaryClickAction::HandedSwap { key_idx: ki, keycode: swapped },
                    None => SecondaryClickAction::Nothing,
                },
            };
            return (action, true);
        }
        if b.layer_retarget_base.is_some() {
            return (
                SecondaryClickAction::OpenPicker {
                    pending_mod_tap: None,
                    pending_modifier: None,
                    pending_layer: b.layer_retarget_base,
                },
                true,
            );
        }
        if already_handled {
            return (SecondaryClickAction::Nothing, true);
        }
    }
    if 0x7700 <= kc && kc <= 0x77FF {
        return (SecondaryClickAction::OpenMacro((kc - 0x7700) as u8), true);
    }
    if 0x5700 <= kc && kc <= 0x57FF {
        return (SecondaryClickAction::OpenTapDance((kc - 0x5700) as u8), true);
    }
    if b.is_mouse_key && mouse_keys_supported {
        return (SecondaryClickAction::OpenMouseKeys, true);
    }
    if b.is_alt_repeat_key {
        return (SecondaryClickAction::OpenAltRepeat, true);
    }
    if b.layer_target.is_none() && ((0x2000 <= kc && kc < 0x4000) || (0x0100 <= kc && kc < 0x2000
        && kc % 256 != 0)) {
        let base = (kc / 256) * 256;
        let action = if kc >= 0x2000 {
            SecondaryClickAction::OpenPicker {
                pending_mod_tap: Some(base),
                pending_modifier: None,
                pending_layer: None,
            }
        } else {
            SecondaryClickAction::OpenPicker {
                pending_mod_tap: None,
                pending_modifier: Some(base),
                pending_layer: None,
            }
        };
        return (action, true);
    }
    (SecondaryClickAction::Nothing, already_handled)
}

/// The tab the picker opens on: the one for the key's current binding, the one for the
/// encoder slot's current keycode, or the basic keys.
#[derive(Clone, Copy, Debug, PartialEq, Eq, Structural)]
pub enum PickerTabChoice {
    ForBinding(u16),
    ForKeycode(u16),
    Basic,
}

/// The target layer and index of an optional target on `layer`.
pub open spec fn target_on(layer: usize, target: Option<usize>) -> Option<(usize, usize)> {
    match target {
        Some(i) => Some((layer, i)),
        None => None,
    }
}

/// The tab the picker opens on for the given targets of `app`'s selected layer.
pub open spec fn picker_tab_of(app: EntropyApp, key_target: Option<usize>, encoder_target: Option<usize>) -> PickerTabChoice {
    match app.layout {
        Some(l) => match key_target {
            Some(ki) => PickerTabChoice::ForBinding(l.keycode_at(app.selected_layer as int, ki as int)),
            None => match encoder_target {
                Some(ei) => PickerTabChoice::ForKeycode(
                    l.encoder_keycode_at(app.selected_layer as int, ei as int),
                ),
                None => PickerTabChoice::Basic,
            },
        },
        None => PickerTabChoice::Basic,
    }
}

/// Whether `app` is `old` with the picker freshly opened on the targets: the targets are
/// selected, no result waits, the search is empty, the layer names are current, and nothing
/// chosen before is pending.
pub open spec fn picker_opened(
    app: EntropyApp,
    old: EntropyApp,
    key_target: Option<usize>,
    encoder_target: Option<usize>,
) -> bool {
    let p = app.keycode_picker;
    &&& app == (EntropyApp {
        selected_key: target_on(old.selected_layer, key_target),
        selected_encoder: target_on(old.selected_layer, encoder_target),
        keycode_picker: p,
        secondary_click_handled: app.secondary_click_handled,
        ..old
    })
    &&& p.search_query@.len() == 0
    &&& p.layer_names@ == old.layer_names@
    &&& p == (crate::app::KeycodePickerState {
        open: true,
        result: None,
        rmk_native_key_actions_allowed_for_target: key_target is Some,
        search_query: p.search_query,
        layer_names: p.layer_names,
        vial_quantum_pending_mod: None,
        vial_quantum_pending_mt: None,
        vial_layer_pending: None,
        tap_dance_editor_open: None,
        macro_inline_selected: None,
        td_key_pick: None,
        td_mod_key_pick: None,
        ..old.keycode_picker
    })
}

impl EntropyApp {
    /// Opens the picker on key `key_target` or encoder slot `encoder_target` of the selected
    /// layer, with a clean slate; returns the tab to show, chosen by what the target holds.
    pub fn open_picker_for_target(&mut self, key_target: Option<usize>, encoder_target: Option<usize>) -> (tab:
        PickerTabChoice)
        ensures
            picker_opened(*final(self), *old(self), key_target, encoder_target),
            final(self).secondary_click_handled == old(self).secondary_click_handled,
            tab == picker_tab_of(*old(self), key_target, encoder_target),
    {
        let layer = self.selected_layer;
        let tab = match &self.layout {
            Some(l) => match key_target {
                Some(ki) => PickerTabChoice::ForBinding(l.get_keycode(layer, ki)),
                None => match encoder_target {
                    Some(ei) => PickerTabChoice::ForKeycode(l.get_encoder_keycode(layer, ei)),
                    None => PickerTabChoice::Basic,
                },
            },
            None => PickerTabChoice::Basic,
        };
        self.selected_key = match key_target {
            Some(ki) => Some((layer, ki)),
            None => None,
        };
        self.selected_encoder = match encoder_target {
            Some(ei) => Some((layer, ei)),
            None => None,
        };
        let names = self.layer_names.clone();
        proof {
            assert(names@ =~= self.layer_names@);
        }
        self.keycode_picker.open = true;
        self.keycode_picker.result = None;
        self.keycode_picker.rmk_native_key_actions_allowed_for_target = key_target.is_some();
        self.keycode_picker.search_query = String::new();
        self.keycode_picker.layer_names = names;
        self.keycode_picker.vial_quantum_pending_mod = None;
        self.keycode_picker.vial_quantum_pending_mt = None;
        self.keycode_picker.vial_layer_pending = None;
        self.keycode_picker.tap_dance_editor_open = None;
        self.keycode_picker.macro_inline_selected = None;
        self.keycode_picker.td_key_pick = None;
        self.keycode_picker.td_mod_key_pick = None;
        tab
    }
}

/// What handling a secondary click changes in the application, beyond the handled flag.
pub open spec fn secondary_click_applied(
    app: EntropyApp,
    old: EntropyApp,
    action: SecondaryClickAction,
    key_target: Option<usize>,
    encoder_target: Option<usize>,
) -> bool {
    let layer = old.selected_layer;
    match action {
        SecondaryClickAction::HandedSwap { key_idx, keycode } => {
            &&& app.pending_middle_click_assignments@
                == old.pending_middle_click_assignments@.filter(not_key(layer, key_idx))
            &&& app == (EntropyApp {
                pending_middle_click_assignments: app.pending_middle_click_assignments,
                pending_handed_swap: Some((layer, key_idx, keycode)),
                secondary_click_handled: app.secondary_click_handled,
                ..old
            })
        },
        SecondaryClickAction::NativeHandedSwap { key_idx } => {
            &&& app.pending_middle_click_assignments@
                == old.pending_middle_click_assignments@.filter(not_key(layer, key_idx))
            &&& app == (EntropyApp {
                pending_middle_click_assignments: app.pending_middle_click_assignments,
                secondary_click_handled: app.secondary_click_handled,
                ..old
            })
        },
        SecondaryClickAction::JumpToLayer(target) => {
            &&& app.jump_back_stack@ == old.jump_back_stack@.push(layer)
            &&& app == (EntropyApp {
                jump_back_stack: app.jump_back_stack,
                selected_layer: target,
                hover_layer: None,
                secondary_click_handled: app.secondary_click_handled,
                ..old
            })
        },
        SecondaryClickAction::ParkEncoderResult { encoder_visual_idx, keycode } => app == (EntropyApp {
            selected_key: None,
            selected_encoder: Some((layer, encoder_visual_idx)),
            keycode_picker: app.keycode_picker,
            secondary_click_handled: app.secondary_click_handled,
            ..old
        }) && app.keycode_picker == (crate::app::KeycodePickerState {
            result: Some(keycode),
            ..old.keycode_picker
        }),
        SecondaryClickAction::OpenPicker { pending_mod_tap, pending_modifier, pending_layer } => {
            let p = app.keycode_picker;
            &&& p.vial_quantum_pending_mt == pending_mod_tap
            &&& p.vial_quantum_pending_mod == pending_modifier
            &&& p.vial_layer_pending == pending_layer
            &&& picker_opened(
                EntropyApp {
                    keycode_picker: crate::app::KeycodePickerState {
                        vial_quantum_pending_mt: None,
                        vial_quantum_pending_mod: None,
                        vial_layer_pending: None,
                        ..p
                    },
                    ..app
                },
                old,
                key_target,
                encoder_target,
            )
        },
        _ => app == (EntropyApp { secondary_click_handled: app.secondary_click_handled, ..old }),
    }
}

impl EntropyApp {
    /// Drops the middle-click assignment queued for key `key_idx` of the selected layer and,
    /// for a Vial modifier, leaves `keycode` as the swap waiting for Ctrl's release.
    fn swap_hand_later(&mut self, key_idx: usize, keycode: Option<u16>, handled: bool)
        ensures
            secondary_click_applied(
                *final(self),
                *old(self),
                match keycode {
                    Some(kc) => SecondaryClickAction::HandedSwap { key_idx, keycode: kc },
                    None => SecondaryClickAction::NativeHandedSwap { key_idx },
                },
                None,
                None,
            ),
            final(self).secondary_click_handled == handled,
    {
        let layer = self.selected_layer;
        self.drop_queued_middle_click_assignment(layer, key_idx);
        if let Some(kc) = keycode {
            self.pending_handed_swap = Some((layer, key_idx, kc));
        }
        self.secondary_click_handled = handled;
    }

    /// Shows layer `target`, remembering the layer left.
    fn jump_to_layer(&mut self, target: usize, handled: bool)
        ensures
            secondary_click_applied(*final(self), *old(self), SecondaryClickAction::JumpToLayer(target), None, None),
            final(self).secondary_click_handled == handled,
    {
        let layer = self.selected_layer;
        self.jump_back_stack.push(layer);
        self.selected_layer = target;
        self.hover_layer = None;
        self.secondary_click_handled = handled;
    }

    /// Parks `keycode` as the picker's result for encoder slot `encoder_visual_idx`.
    fn park_encoder_result(&mut self, encoder_visual_idx: usize, keycode: u16, handled: bool)
        ensures
            secondary_click_applied(
                *final(self),
                *old(self),
                SecondaryClickAction::ParkEncoderResult { encoder_visual_idx, keycode },
                None,
                None,
            ),
            final(self).secondary_click_handled == handled,
    {
        let layer = self.selected_layer;
        self.selected_key = None;
        self.selected_encoder = Some((layer, encoder_visual_idx));
        self.keycode_picker.result = Some(keycode);
        self.secondary_click_handled = handled;
    }

    /// Opens the picker on the targets with the given parts pending.
    fn open_picker_with_parts(
        &mut self,
        key_target: Option<usize>,
        encoder_target: Option<usize>,
        pending_mod_tap: Option<u16>,
        pending_modifier: Option<u16>,
        pending_layer: Option<u16>,
        handled: bool,
    ) -> (tab: PickerTabChoice)
        ensures
            secondary_click_applied(
                *final(self),
                *old(self),
                SecondaryClickAction::OpenPicker { pending_mod_tap, pending_modifier, pending_layer },
                key_target,
                encoder_target,
            ),
            final(self).secondary_click_handled == handled,
            tab == picker_tab_of(*old(self), key_target, encoder_target),
    {
        let tab = self.open_picker_for_target(key_target, encoder_target);
        let ghost opened = *self;
        self.keycode_picker.vial_quantum_pending_mt = pending_mod_tap;
        self.keycode_picker.vial_quantum_pending_mod = pending_modifier;
        self.keycode_picker.vial_layer_pending = pending_layer;
        self.secondary_click_handled = handled;
        proof {
            let p = self.keycode_picker;
            assert((crate::app::KeycodePickerState {
                vial_quantum_pending_mt: None,
                vial_quantum_pending_mod: None,
                vial_layer_pending: None,
                ..p
            }) == opened.keycode_picker);
        }
        tab
    }

    /// Carries out `action` on the selected layer, as `secondary_click_applied` says, and
    /// records whether the click was handled.
    fn apply_secondary_click(
        &mut self,
        action: SecondaryClickAction,
        key_target: Option<usize>,
        encoder_target: Option<usize>,
        handled: bool,
    ) -> (tab: Option<PickerTabChoice>)
        ensures
            secondary_click_applied(*final(self), *old(self), action, key_target, encoder_target),
            final(self).secondary_click_handled == handled,
            tab == (if action is OpenPicker {
                Some(picker_tab_of(*old(self), key_target, encoder_target))
            } else {
                None
            }),
    {
        match action {
            SecondaryClickAction::HandedSwap { key_idx, keycode } => {
                self.swap_hand_later(key_idx, Some(keycode), handled);
                None
            },
            SecondaryClickAction::NativeHandedSwap { key_idx } => {
                self.swap_hand_later(key_idx, None, handled);
                None
            },
            SecondaryClickAction::JumpToLayer(target) => {
                self.jump_to_layer(target, handled);
                None
            },
            SecondaryClickAction::ParkEncoderResult { encoder_visual_idx, keycode } => {
                self.park_encoder_result(encoder_visual_idx, keycode, handled);
                None
            },
            SecondaryClickAction::OpenPicker { pending_mod_tap, pending_modifier, pending_layer } => {
                let tab = self.open_picker_with_parts(
                    key_target,
                    encoder_target,
                    pending_mod_tap,
                    pending_modifier,
                    pending_layer,
                    handled,
                );
                Some(tab)
            },
            _ => {
                self.secondary_click_handled = handled;
                None
            },
        }
    }

    /// Handles a secondary click on key `key_target` or encoder slot `encoder_target` of the
    /// selected layer. A handed swap of a key drops the middle-click assignment queued for
    /// that key and, for a Vial modifier, waits as the pending swap; following a layer key
    /// remembers the layer left; an encoder swap while a write runs is parked as the picker's
    /// result; the picker opens on the target with the chosen part pending, and the tab to
    /// show comes back with the action. The action says what else to do: open a page or a
    /// window, assign the encoder slot, or swap a native mod-tap's hand.
    pub fn handle_secondary_target(
        &mut self,
        ctrl_held: bool,
        binding: SecondaryClickBinding,
        key_target: Option<usize>,
        encoder_target: Option<usize>,
        mouse_keys_supported: bool,
        write_task_active: bool,
    ) -> (action: (SecondaryClickAction, Option<PickerTabChoice>))
        ensures
            (action.0, final(self).secondary_click_handled) == secondary_click_of(
                binding,
                ctrl_held,
                key_target,
                encoder_target,
                old(self).selected_layer,
                mouse_keys_supported,
                write_task_active,
                old(self).secondary_click_handled,
            ),
            secondary_click_applied(*final(self), *old(self), action.0, key_target, encoder_target),
            action.1 == (if action.0 is OpenPicker {
                Some(picker_tab_of(*old(self), key_target, encoder_target))
            } else {
                None
            }),
    {
        let (action, handled) = secondary_click_action(
            binding,
            ctrl_held,
            key_target,
            encoder_target,
            self.selected_layer,
            mouse_keys_supported,
            write_task_active,
            self.secondary_click_handled,
        );
        let tab = self.apply_secondary_click(action, key_target, encoder_target, handled);
        (action, tab)
    }
}

} // verus!
