use entropy::app::{EntropyApp, StatusMessage, UndoAction};
use entropy::key_writes::{PickerResultOutcome, VialHidOperation, VialHidTaskStart};
use entropy::keyboard::{KeyboardLayout, Language, PhysicalEncoder, PhysicalKey};

fn app_with_layout() -> EntropyApp {
    let mut app = EntropyApp::new(Language::English);
    app.layout = Some(KeyboardLayout {
        rows: 1,
        cols: 2,
        keys: vec![PhysicalKey { row: 0, col: 0 }, PhysicalKey { row: 0, col: 1 }],
        encoders: vec![PhysicalEncoder { encoder_idx: 0, direction: 1 }],
        layers: vec![vec![0x0004, 0x0005]],
        encoder_layers: vec![vec![0x0006]],
    });
    app
}

#[test]
fn started_key_write_applies_locally_without_undo_entry() {
    let mut app = app_with_layout();
    let mut seen = None;
    let assigned = app.assign_key_binding_with_mode(0, 1, 0x0010, false, false, |op| {
        seen = Some(op);
        VialHidTaskStart::Started
    });
    assert!(assigned);
    assert_eq!(
        seen,
        Some(VialHidOperation::KeyWrite {
            layer: 0,
            key_index: 1,
            row: 0,
            col: 1,
            old_binding: 0x0005,
            binding: 0x0010,
            is_undo: false,
        })
    );
    assert_eq!(app.layout.as_ref().unwrap().layers[0], vec![0x0004, 0x0010]);
    assert!(app.undo_stack.is_empty());
    assert_eq!(app.status_msg, StatusMessage::Literal("Saving…"));
}

#[test]
fn offline_key_write_records_undo_and_busy_worker_changes_nothing() {
    let mut app = app_with_layout();
    assert!(!app.assign_key_binding_with_mode(0, 0, 0x0010, false, false, |_| VialHidTaskStart::Busy));
    assert_eq!(app.layout.as_ref().unwrap().layers[0], vec![0x0004, 0x0005]);
    assert!(app.assign_key_binding_with_mode(0, 0, 0x0010, false, false, |_| VialHidTaskStart::NoDevice));
    assert_eq!(app.layout.as_ref().unwrap().layers[0], vec![0x0010, 0x0005]);
    assert!(matches!(app.undo_stack.last(), Some(UndoAction::Key { layer: 0, key_idx: 0, old_binding: 0x0004 })));
    assert!(!app.assign_key_binding_with_mode(0, 0, 0x0011, false, true, |_| VialHidTaskStart::Started));
    assert!(matches!(app.status_msg, StatusMessage::Catalog { key: "settings_write.busy", .. }));
    assert!(app.assign_key_binding_with_mode(0, 9, 0x0011, false, false, |_| VialHidTaskStart::Started));
}

#[test]
fn undo_restores_a_key_and_a_busy_undo_stays_queued() {
    let mut app = app_with_layout();
    app.assign_encoder_keycode_with_mode(0, 0, 0x0007, false, false, |_| VialHidTaskStart::NoDevice);
    assert_eq!(app.layout.as_ref().unwrap().encoder_layers[0], vec![0x0007]);
    assert_eq!(app.undo_stack.len(), 1);

    assert!(app.perform_layout_undo(false, |_| VialHidTaskStart::Busy).is_none());
    assert_eq!(app.undo_stack.len(), 1);
    assert_eq!(app.layout.as_ref().unwrap().encoder_layers[0], vec![0x0007]);

    assert!(app.perform_layout_undo(false, |_| VialHidTaskStart::NoDevice).is_none());
    assert!(app.undo_stack.is_empty());
    assert_eq!(app.layout.as_ref().unwrap().encoder_layers[0], vec![0x0006]);

    assert!(app.perform_layout_undo(false, |_| VialHidTaskStart::Started).is_none());
}

fn test_layout(keycodes: &[u16], encoder_keycodes: &[u16]) -> KeyboardLayout {
    KeyboardLayout {
        rows: 8,
        cols: 8,
        keys: (0..keycodes.len())
            .map(|idx| PhysicalKey { row: (idx / 8) as u8, col: (idx % 8) as u8 })
            .collect(),
        encoders: (0..encoder_keycodes.len())
            .map(|idx| PhysicalEncoder { encoder_idx: idx as u8, direction: 0 })
            .collect(),
        layers: vec![keycodes.to_vec()],
        encoder_layers: vec![encoder_keycodes.to_vec()],
    }
}

#[test]
fn middle_click_clear_writes_kc_no_and_records_undo() {
    let mut app = EntropyApp::new(Language::English);
    app.layout = Some(test_layout(&[0x0004, 0x0005], &[]));

    app.request_middle_click_key_assignment(0, false, |_| VialHidTaskStart::NoDevice);

    assert_eq!(app.layout.as_ref().unwrap().get_keycode(0, 0), 0);
    assert!(matches!(
        app.undo_stack.last(),
        Some(UndoAction::Key { layer: 0, key_idx: 0, old_binding: 0x0004 })
    ));
    assert!(app.pending_middle_click_assignments.is_empty());
}

#[test]
fn middle_click_clear_skips_already_empty_key() {
    let mut app = EntropyApp::new(Language::English);
    app.layout = Some(test_layout(&[0x0000], &[]));

    app.request_middle_click_key_assignment(0, false, |_| panic!("no write expected"));

    assert!(app.undo_stack.is_empty());
    assert!(app.pending_middle_click_assignments.is_empty());
}

#[test]
fn middle_click_clears_encoder_slot_and_records_undo() {
    let mut app = EntropyApp::new(Language::English);
    app.layout = Some(test_layout(&[], &[0x00E9]));

    app.request_middle_click_encoder_assignment(0, false, |_| VialHidTaskStart::NoDevice);

    assert_eq!(app.layout.as_ref().unwrap().get_encoder_keycode(0, 0), 0);
    assert!(matches!(
        app.undo_stack.last(),
        Some(UndoAction::Encoder { layer: 0, encoder_visual_idx: 0, old_kc: 0x00E9 })
    ));
    assert!(app.pending_middle_click_assignments.is_empty());
}

#[test]
fn middle_click_transparent_setting_assigns_inherit_to_keys_and_encoders() {
    let mut app = EntropyApp::new(Language::English);
    app.app_settings.middle_click_assigns_transparent = true;
    app.layout = Some(test_layout(&[0x0004], &[0x00E9]));

    app.request_middle_click_key_assignment(0, false, |_| VialHidTaskStart::NoDevice);
    app.request_middle_click_encoder_assignment(0, false, |_| VialHidTaskStart::NoDevice);

    let layout = app.layout.as_ref().unwrap();
    assert_eq!(layout.get_keycode(0, 0), 0x0001);
    assert_eq!(layout.get_encoder_keycode(0, 0), 0x0001);
    assert_eq!(app.undo_stack.len(), 2);
}

#[test]
fn middle_click_clear_supersedes_parked_picker_result() {
    let mut app = EntropyApp::new(Language::English);
    app.layout = Some(test_layout(&[0x0004], &[]));
    app.selected_key = Some((0, 0));
    app.keycode_picker.result = Some(0x0006);

    app.request_middle_click_key_assignment(0, false, |_| VialHidTaskStart::NoDevice);

    assert!(app.keycode_picker.result.is_none());
    assert!(app.selected_key.is_none());
    assert_eq!(app.layout.as_ref().unwrap().get_keycode(0, 0), 0);
}

#[test]
fn middle_click_clear_cancels_pending_handed_swap() {
    let mut app = EntropyApp::new(Language::English);
    app.layout = Some(test_layout(&[0x00E1], &[]));
    app.pending_handed_swap = Some((0, 0, 0x00E5));

    app.request_middle_click_key_assignment(0, false, |_| VialHidTaskStart::NoDevice);

    assert!(app.pending_handed_swap.is_none());
    assert_eq!(app.layout.as_ref().unwrap().get_keycode(0, 0), 0);
}

#[test]
fn busy_middle_click_assignments_are_queued_and_deduped() {
    let mut app = EntropyApp::new(Language::English);
    app.layout = Some(test_layout(&[0x0004, 0x0005], &[0x00E9]));
    app.connection_generation = 3;
    app.request_middle_click_key_assignment(0, false, |_| VialHidTaskStart::Busy);
    app.request_middle_click_encoder_assignment(0, true, |_| VialHidTaskStart::Started);
    app.request_middle_click_key_assignment(0, false, |_| VialHidTaskStart::Busy);
    assert_eq!(app.pending_middle_click_assignments.len(), 2);
    assert_eq!(app.layout.as_ref().unwrap().get_keycode(0, 0), 0x0004);
    assert!(app.undo_stack.is_empty());
}

#[test]
fn undo_waits_for_a_background_load_and_runs_once_the_keyboard_is_free() {
    let mut app = app_with_layout();
    app.assign_key_binding_with_mode(0, 0, 0x0010, false, false, |_| VialHidTaskStart::NoDevice);
    assert_eq!(app.undo_stack.len(), 1);

    // While a background load uses the keyboard the undo only waits.
    assert!(app.undo(true, false, |_| panic!("no write while loading")).is_none());
    assert!(app.pending_layout_undo);
    assert_eq!(app.undo_stack.len(), 1);

    // It does not start while the load or a user action still holds the keyboard.
    assert!(app.maybe_start_pending_layout_undo(true, false, false, |_| panic!("still loading")).is_none());
    assert!(app.maybe_start_pending_layout_undo(false, true, false, |_| panic!("still busy")).is_none());
    assert!(app.pending_layout_undo);

    // Then it runs.
    assert!(app.maybe_start_pending_layout_undo(false, false, false, |_| VialHidTaskStart::NoDevice).is_none());
    assert!(!app.pending_layout_undo);
    assert!(app.undo_stack.is_empty());
    assert_eq!(app.layout.as_ref().unwrap().layers[0], vec![0x0004, 0x0005]);

    // Nothing waits any more.
    assert!(app.maybe_start_pending_layout_undo(false, false, false, |_| panic!("nothing to undo")).is_none());

    // Without a background load the undo runs at once.
    app.assign_key_binding_with_mode(0, 1, 0x0011, false, false, |_| VialHidTaskStart::NoDevice);
    assert!(app.undo(false, false, |_| VialHidTaskStart::NoDevice).is_none());
    assert_eq!(app.layout.as_ref().unwrap().layers[0], vec![0x0004, 0x0005]);
}

#[test]
fn picker_result_goes_to_the_selected_slot_or_waits_for_a_retry() {
    let mut app = app_with_layout();
    assert_eq!(app.apply_picker_results(false, false, |_| panic!("no result")), PickerResultOutcome::Idle);

    app.keycode_picker.result = Some(0x0029);
    assert_eq!(app.apply_picker_results(true, false, |_| panic!("busy")), PickerResultOutcome::Idle);
    assert_eq!(app.keycode_picker.result, Some(0x0029));

    // A combo entry waiting for the pick gets the keycode through the caller.
    app.combo_pick_target = Some(2);
    assert_eq!(app.apply_picker_results(false, false, |_| panic!("combo")), PickerResultOutcome::ForEntry(0x0029));
    assert_eq!(app.keycode_picker.result, None);
    app.combo_pick_target = None;

    // The selected encoder slot is assigned; the selection is cleared.
    app.keycode_picker.result = Some(0x0029);
    app.selected_key = Some((0, 1));
    app.selected_encoder = Some((0, 0));
    assert_eq!(
        app.apply_picker_results(false, false, |_| VialHidTaskStart::NoDevice),
        PickerResultOutcome::Applied(0x0029)
    );
    assert_eq!(app.layout.as_ref().unwrap().encoder_layers[0], vec![0x0029]);
    assert_eq!(app.selected_key, None);
    assert_eq!(app.selected_encoder, None);
    assert_eq!(app.keycode_picker.result, None);

    // A busy worker leaves the pick in place for a retry.
    app.keycode_picker.result = Some(0x002A);
    app.selected_key = Some((0, 1));
    assert_eq!(app.apply_picker_results(false, false, |_| VialHidTaskStart::Busy), PickerResultOutcome::Refused);
    assert_eq!(app.keycode_picker.result, Some(0x002A));
    assert_eq!(app.selected_key, Some((0, 1)));
    assert_eq!(app.layout.as_ref().unwrap().layers[0], vec![0x0004, 0x0005]);

    // So does a settings write in flight, with a status saying so.
    assert_eq!(app.apply_picker_results(false, true, |_| panic!("settings busy")), PickerResultOutcome::Refused);
    assert!(matches!(app.status_msg, StatusMessage::Catalog { key: "settings_write.busy", .. }));
    assert_eq!(app.keycode_picker.result, Some(0x002A));

    // Then the key takes it.
    assert_eq!(
        app.apply_picker_results(false, false, |_| VialHidTaskStart::Started),
        PickerResultOutcome::Applied(0x002A)
    );
    assert_eq!(app.layout.as_ref().unwrap().layers[0], vec![0x0004, 0x002A]);

    // With nothing selected the pick is dropped.
    app.keycode_picker.result = Some(0x002B);
    assert_eq!(app.apply_picker_results(false, false, |_| panic!("nothing selected")), PickerResultOutcome::Dropped);
    assert_eq!(app.keycode_picker.result, None);
}
