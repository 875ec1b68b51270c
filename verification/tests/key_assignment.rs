use entropy::app::EntropyApp;
use entropy::key_assignment::{same_middle_click_target, PendingMiddleClickAssignment};
use entropy::key_writes::VialHidTaskStart;
use entropy::keyboard::{KeyboardLayout, Language, PhysicalKey};
use entropy::layer_operations::LayerSnapshot;
use entropy::secondary_click::{
    secondary_click_action, PickerTabChoice, SecondaryClickAction, SecondaryClickBinding,
};
use std::cell::Cell;

fn two_key_layout(keycodes: [u16; 2]) -> KeyboardLayout {
    KeyboardLayout {
        rows: 1,
        cols: 2,
        keys: vec![PhysicalKey { row: 0, col: 0 }, PhysicalKey { row: 0, col: 1 }],
        encoders: vec![],
        layers: vec![keycodes.to_vec(), vec![0, 0]],
        encoder_layers: vec![vec![], vec![]],
    }
}

fn key(layer: usize, key_idx: usize, binding: u16) -> PendingMiddleClickAssignment {
    PendingMiddleClickAssignment::Key { layer, key_idx, binding, generation: 0 }
}

fn encoder(layer: usize, encoder_visual_idx: usize, keycode: u16) -> PendingMiddleClickAssignment {
    PendingMiddleClickAssignment::Encoder { layer, encoder_visual_idx, keycode, generation: 0 }
}

#[test]
fn middle_click_assigns_none_or_transparent() {
    let mut app = EntropyApp::new(Language::English);
    assert_eq!(app.middle_click_binding(), 0x0000);
    app.app_settings.middle_click_assigns_transparent = true;
    assert_eq!(app.middle_click_binding(), 0x0001);
}

#[test]
fn same_target_compares_kind_layer_and_index_only() {
    assert!(same_middle_click_target(key(1, 2, 0), key(1, 2, 1)));
    assert!(!same_middle_click_target(key(1, 2, 0), key(1, 3, 0)));
    assert!(!same_middle_click_target(key(1, 2, 0), encoder(1, 2, 0)));
    assert!(same_middle_click_target(encoder(0, 1, 0), encoder(0, 1, 1)));
}

#[test]
fn queued_assignments_are_deduped_by_target_and_newest_last() {
    let mut app = EntropyApp::new(Language::English);
    app.queue_pending_middle_click_assignment(key(0, 1, 0));
    app.queue_pending_middle_click_assignment(encoder(0, 1, 0));
    app.queue_pending_middle_click_assignment(key(1, 1, 0));
    app.queue_pending_middle_click_assignment(key(0, 1, 1));
    assert_eq!(
        app.pending_middle_click_assignments,
        vec![encoder(0, 1, 0), key(1, 1, 0), key(0, 1, 1)]
    );
}

#[test]
fn dropping_a_key_or_a_layer_keeps_the_other_assignments() {
    let mut app = EntropyApp::new(Language::English);
    for assignment in [key(0, 1, 0), encoder(0, 1, 0), key(1, 1, 0), key(0, 2, 0)] {
        app.queue_pending_middle_click_assignment(assignment);
    }
    app.drop_queued_middle_click_assignment(0, 1);
    assert_eq!(
        app.pending_middle_click_assignments,
        vec![encoder(0, 1, 0), key(1, 1, 0), key(0, 2, 0)]
    );
    app.drop_queued_middle_click_assignments_for_layer(0);
    assert_eq!(app.pending_middle_click_assignments, vec![key(1, 1, 0)]);
}

#[test]
fn reload_uses_the_selected_device() {
    let mut app = EntropyApp::new(Language::English);
    assert_eq!(app.load_from_device(), None);
    app.selected_device = Some(2);
    assert_eq!(app.load_from_device(), Some(2));
}

#[test]
fn layer_snapshot_write_drops_queued_middle_click_assignments_for_that_layer() {
    let mut app = EntropyApp::new(Language::English);
    app.layout = Some(two_key_layout([0x0004, 0x0005]));
    let generation = app.connection_generation;
    app.pending_middle_click_assignments = vec![
        PendingMiddleClickAssignment::Key { layer: 0, key_idx: 0, binding: 0, generation },
        PendingMiddleClickAssignment::Encoder { layer: 0, encoder_visual_idx: 0, keycode: 0, generation },
        PendingMiddleClickAssignment::Key { layer: 1, key_idx: 0, binding: 0, generation },
    ];

    app.apply_layer_snapshot(
        0,
        LayerSnapshot { keycodes: vec![0x0007, 0x0008], encoder_keycodes: vec![] },
        "layer_actions.paste",
    );

    // Only the pasted layer's assignments are superseded.
    assert_eq!(
        app.pending_middle_click_assignments,
        vec![PendingMiddleClickAssignment::Key { layer: 1, key_idx: 0, binding: 0, generation }]
    );
}

#[test]
fn busy_middle_click_assignments_are_queued_deduped_and_flushed() {
    let mut app = EntropyApp::new(Language::English);
    app.layout = Some(two_key_layout([0x0004, 0x0005]));
    let task_active = Cell::new(false);

    // First assignment takes the keyboard for its write task.
    app.request_middle_click_key_assignment(0, false, |_| {
        task_active.set(true);
        VialHidTaskStart::Started
    });
    assert!(task_active.get());

    // Clicks while the write is in flight queue once per target.
    app.request_middle_click_key_assignment(1, false, |_| VialHidTaskStart::Busy);
    app.request_middle_click_key_assignment(1, false, |_| VialHidTaskStart::Busy);
    assert_eq!(app.pending_middle_click_assignments.len(), 1);

    for _ in 0..400 {
        // The worker reports its write done.
        task_active.set(false);
        app.flush_pending_middle_click_assignments(false, || task_active.get(), |_| {
            if task_active.get() {
                VialHidTaskStart::Busy
            } else {
                task_active.set(true);
                VialHidTaskStart::Started
            }
        });
        if !task_active.get() && app.pending_middle_click_assignments.is_empty() {
            break;
        }
    }

    assert!(app.pending_middle_click_assignments.is_empty());
    assert!(!task_active.get());
    let layout = app.layout.as_ref().unwrap();
    assert_eq!(layout.layers[0][0], 0);
    assert_eq!(layout.layers[0][1], 0);
}

#[test]
fn flush_drops_stale_and_already_assigned_entries_and_stops_when_busy() {
    let mut app = EntropyApp::new(Language::English);
    app.layout = Some(two_key_layout([0x0000, 0x0005]));
    app.connection_generation = 3;
    app.pending_middle_click_assignments = vec![
        PendingMiddleClickAssignment::Key { layer: 0, key_idx: 1, binding: 0, generation: 2 },
        PendingMiddleClickAssignment::Key { layer: 0, key_idx: 0, binding: 0, generation: 3 },
        PendingMiddleClickAssignment::Key { layer: 0, key_idx: 1, binding: 0x0001, generation: 3 },
    ];

    // The stale entry goes, the entry already in place goes, the busy one stays.
    app.flush_pending_middle_click_assignments(false, || false, |_| VialHidTaskStart::Busy);
    assert_eq!(
        app.pending_middle_click_assignments,
        vec![PendingMiddleClickAssignment::Key { layer: 0, key_idx: 1, binding: 0x0001, generation: 3 }]
    );
    assert_eq!(app.layout.as_ref().unwrap().layers[0], vec![0x0000, 0x0005]);

    // Without a keyboard the edit is made locally, with an undo entry.
    app.flush_pending_middle_click_assignments(false, || false, |_| VialHidTaskStart::NoDevice);
    assert!(app.pending_middle_click_assignments.is_empty());
    assert_eq!(app.layout.as_ref().unwrap().layers[0], vec![0x0000, 0x0001]);
    assert_eq!(app.undo_stack.len(), 1);
}

#[test]
fn flush_waits_while_a_write_runs() {
    let mut app = EntropyApp::new(Language::English);
    app.layout = Some(two_key_layout([0x0004, 0x0005]));
    app.pending_middle_click_assignments = vec![
        PendingMiddleClickAssignment::Key { layer: 0, key_idx: 0, binding: 0, generation: 0 },
    ];
    app.flush_pending_middle_click_assignments(false, || true, |_| panic!("no write while busy"));
    assert_eq!(app.pending_middle_click_assignments.len(), 1);
    app.flush_pending_middle_click_assignments(true, || false, |_| panic!("no write during a settings write"));
    assert_eq!(app.pending_middle_click_assignments.len(), 1);
    assert_eq!(app.layout.as_ref().unwrap().layers[0], vec![0x0004, 0x0005]);
}

fn vial(keycode: u16) -> SecondaryClickBinding {
    SecondaryClickBinding {
        keycode,
        native_mod_tap_base: None,
        layer_target: None,
        layer_retarget_base: None,
        is_mouse_key: false,
        is_alt_repeat_key: false,
    }
}

#[test]
fn handed_swap_drops_queued_middle_click_assignment_for_same_key() {
    let mut app = EntropyApp::new(Language::English);
    app.layout = Some(two_key_layout([0x00E1, 0x0005]));
    app.pending_middle_click_assignments.push(PendingMiddleClickAssignment::Key {
        layer: 0,
        key_idx: 0,
        binding: 0,
        generation: app.connection_generation,
    });

    let (action, _) = app.handle_secondary_target(true, vial(0x00E1), Some(0), None, false, false);

    assert_eq!(action, SecondaryClickAction::HandedSwap { key_idx: 0, keycode: 0x00E5 });
    assert!(app.pending_middle_click_assignments.is_empty());
    assert!(app.pending_handed_swap.is_some());
}

#[test]
fn right_click_reopens_native_mod_tap_tap_key_picker() {
    let mut app = EntropyApp::new(Language::English);
    // A native tap-hold of Shift+[ and right Ctrl: its hold part is the Vial mod-tap base
    // of right Ctrl.
    let binding = SecondaryClickBinding { native_mod_tap_base: Some(0x2000 | (0x11 << 8)), ..vial(0x0000) };

    let (action, tab) = app.handle_secondary_target(false, binding, Some(0), None, false, false);

    assert!(app.secondary_click_handled);
    assert!(app.keycode_picker.open);
    assert_eq!(app.keycode_picker.vial_quantum_pending_mt, Some(0x2000 | (0x11 << 8)));
    assert!(app.keycode_picker.rmk_native_key_actions_allowed_for_target);
    assert_eq!(
        action,
        SecondaryClickAction::OpenPicker {
            pending_mod_tap: Some(0x2000 | (0x11 << 8)),
            pending_modifier: None,
            pending_layer: None,
        }
    );
    assert_eq!(tab, Some(PickerTabChoice::Basic));
}

#[test]
fn mouse_key_secondary_action_requires_exposed_mouse_settings() {
    let mut app = EntropyApp::new(Language::English);
    let binding = SecondaryClickBinding { is_mouse_key: true, ..vial(0x00CD) };

    let (action, _) = app.handle_secondary_target(false, binding, Some(0), None, false, false);
    assert!(!app.secondary_click_handled);
    assert_eq!(action, SecondaryClickAction::Nothing);

    let (action, _) = app.handle_secondary_target(false, binding, Some(0), None, true, false);
    assert!(app.secondary_click_handled);
    assert_eq!(action, SecondaryClickAction::OpenMouseKeys);
}

#[test]
fn secondary_click_follows_layer_keys_and_remembers_the_way_back() {
    let mut app = EntropyApp::new(Language::English);
    app.hover_layer = Some(3);
    let layer_key = SecondaryClickBinding { layer_target: Some(2), ..vial(0x5222) };
    assert_eq!(
        app.handle_secondary_target(false, layer_key, Some(0), None, false, false).0,
        SecondaryClickAction::JumpToLayer(2)
    );
    assert_eq!(app.selected_layer, 2);
    assert_eq!(app.jump_back_stack, vec![0]);
    assert_eq!(app.hover_layer, None);
    // A layer key of the layer shown does nothing but counts as handled.
    app.secondary_click_handled = false;
    assert_eq!(
        app.handle_secondary_target(false, layer_key, Some(0), None, false, false).0,
        SecondaryClickAction::Nothing
    );
    assert!(app.secondary_click_handled);
    assert_eq!(app.jump_back_stack, vec![0]);
}

#[test]
fn secondary_click_opens_editors_and_picker_parts() {
    let open = |b: SecondaryClickBinding, ctrl: bool| secondary_click_action(b, ctrl, Some(1), None, 0, false, false, false);
    assert_eq!(open(vial(0x7703), false), (SecondaryClickAction::OpenMacro(3), true));
    assert_eq!(open(vial(0x5705), false), (SecondaryClickAction::OpenTapDance(5), true));
    assert_eq!(
        open(SecondaryClickBinding { is_alt_repeat_key: true, ..vial(0x7C79) }, false),
        (SecondaryClickAction::OpenAltRepeat, true)
    );
    // Shift+A reopens the picker on its modifier part; a mod-tap on its hold part.
    assert_eq!(
        open(vial(0x0204), false),
        (
            SecondaryClickAction::OpenPicker { pending_mod_tap: None, pending_modifier: Some(0x0200), pending_layer: None },
            true
        )
    );
    assert_eq!(
        open(vial(0x2129), false),
        (
            SecondaryClickAction::OpenPicker { pending_mod_tap: Some(0x2100), pending_modifier: None, pending_layer: None },
            true
        )
    );
    // A bare modifier chord without a key, and a plain key, are left alone.
    assert_eq!(open(vial(0x0200), false), (SecondaryClickAction::Nothing, false));
    assert_eq!(open(vial(0x0004), false), (SecondaryClickAction::Nothing, false));
    // With Ctrl: a layer-tap reopens the picker on its layer part, a layer key with a
    // changeable target on its base.
    assert_eq!(
        open(vial(0x4129), true),
        (
            SecondaryClickAction::OpenPicker { pending_mod_tap: Some(0x4100), pending_modifier: None, pending_layer: None },
            true
        )
    );
    assert_eq!(
        open(SecondaryClickBinding { layer_retarget_base: Some(0x5220), layer_target: Some(1), ..vial(0x5221) }, true),
        (
            SecondaryClickAction::OpenPicker { pending_mod_tap: None, pending_modifier: None, pending_layer: Some(0x5220) },
            true
        )
    );
    // Ctrl on a key that Ctrl does nothing to stops if the click was already handled.
    assert_eq!(
        secondary_click_action(vial(0x7703), true, Some(1), None, 0, false, false, true),
        (SecondaryClickAction::Nothing, true)
    );
}

#[test]
fn ctrl_click_swaps_an_encoder_modifier_now_or_after_the_running_write() {
    let mut app = EntropyApp::new(Language::English);
    assert_eq!(
        app.handle_secondary_target(true, vial(0x00E0), None, Some(1), false, false).0,
        SecondaryClickAction::AssignEncoder { encoder_visual_idx: 1, keycode: 0x00E4 }
    );
    app.selected_key = Some((0, 3));
    assert_eq!(
        app.handle_secondary_target(true, vial(0x00E0), None, Some(1), false, true).0,
        SecondaryClickAction::ParkEncoderResult { encoder_visual_idx: 1, keycode: 0x00E4 }
    );
    assert_eq!(app.selected_key, None);
    assert_eq!(app.selected_encoder, Some((0, 1)));
    assert_eq!(app.keycode_picker.result, Some(0x00E4));
}

#[test]
fn opening_the_picker_resets_it_and_picks_the_tab_from_the_target() {
    let mut app = EntropyApp::new(Language::English);
    app.layout = Some(two_key_layout([0x0204, 0x0005]));
    app.layer_names = vec!["Base".to_owned(), "Fn".to_owned()];
    app.keycode_picker.search_query = "shift".to_owned();
    app.keycode_picker.result = Some(7);
    app.keycode_picker.vial_layer_pending = Some(0x5220);
    app.selected_encoder = Some((0, 0));

    let (action, tab) = app.handle_secondary_target(false, vial(0x0204), Some(0), None, false, false);

    assert_eq!(
        action,
        SecondaryClickAction::OpenPicker { pending_mod_tap: None, pending_modifier: Some(0x0200), pending_layer: None }
    );
    assert_eq!(tab, Some(PickerTabChoice::ForBinding(0x0204)));
    assert_eq!(app.selected_key, Some((0, 0)));
    assert_eq!(app.selected_encoder, None);
    assert!(app.keycode_picker.open);
    assert_eq!(app.keycode_picker.result, None);
    assert!(app.keycode_picker.search_query.is_empty());
    assert_eq!(app.keycode_picker.layer_names, vec!["Base".to_owned(), "Fn".to_owned()]);
    assert_eq!(app.keycode_picker.vial_quantum_pending_mod, Some(0x0200));
    assert_eq!(app.keycode_picker.vial_quantum_pending_mt, None);
    assert_eq!(app.keycode_picker.vial_layer_pending, None);

    assert_eq!(app.open_picker_for_target(None, Some(3)), PickerTabChoice::ForKeycode(0));
    assert!(!app.keycode_picker.rmk_native_key_actions_allowed_for_target);
    assert_eq!(app.selected_encoder, Some((0, 3)));
    app.layout = None;
    assert_eq!(app.open_picker_for_target(Some(1), None), PickerTabChoice::Basic);
}
