use entropy::app::EntropyApp;
use entropy::keyboard::{ComboEntry, Language, KeyboardLayout, PhysicalKey, TapDanceEntry};
use entropy::layout_indicator::{
    sticky_combo_is_active, sticky_combo_is_active_on_layer, sticky_layout_active_layer,
    sticky_pressed_keycodes, sticky_tap_dance_active_keycode, sticky_update_tap_dance_state,
    StickyLayoutTapDanceState,
};

const MS: u64 = 1_000_000;

fn mo(layer: u16) -> u16 {
    0x5200 | (1 << 5) | layer
}

fn tg(layer: u16) -> u16 {
    0x5200 | (3 << 5) | layer
}

fn test_layout(layers: Vec<Vec<u16>>) -> KeyboardLayout {
    let cols = layers.first().map(Vec::len).unwrap_or(0);
    KeyboardLayout {
        rows: 1,
        cols,
        keys: (0..cols).map(|col| PhysicalKey { row: 0, col: col as u8 }).collect(),
        encoders: vec![],
        layers,
        encoder_layers: vec![],
    }
}

#[test]
fn held_momentary_key_uses_the_layer_where_it_was_pressed() {
    let layout = test_layout(vec![vec![mo(2)], vec![0], vec![mo(3)], vec![0]]);
    let pressed = vec![true];
    let pressed_key_layers = vec![Some(0)];
    let toggled_layers = vec![false; 4];

    assert_eq!(
        sticky_layout_active_layer(&layout, &pressed, &pressed_key_layers, &toggled_layers, 0, &[]),
        2
    );
}

#[test]
fn combo_output_participates_in_active_layer_calculation() {
    let layout = test_layout(vec![vec![0x0004, 0x0005], vec![0, 0], vec![0, 0]]);
    let pressed = vec![true, true];
    let pressed_key_layers = vec![Some(0), Some(0)];
    let pressed_keycodes = sticky_pressed_keycodes(&layout, &pressed, &pressed_key_layers, 0);
    let combo = ComboEntry { keys: [0x0004, 0x0005, 0, 0], output: mo(2), layer: None };

    assert!(sticky_combo_is_active(&combo, &pressed_keycodes));
    assert_eq!(
        sticky_layout_active_layer(
            &layout,
            &pressed,
            &pressed_key_layers,
            &[false; 3],
            0,
            &[combo.output],
        ),
        2
    );
}

#[test]
fn layer_specific_combo_activates_only_on_its_layer() {
    let combo = ComboEntry { keys: [0x0004, 0x0005, 0, 0], output: 0x0006, layer: Some(1) };
    let pressed_keycodes = [0x0004, 0x0005];

    assert!(!sticky_combo_is_active_on_layer(&combo, &pressed_keycodes, 0, false));
    assert!(sticky_combo_is_active_on_layer(&combo, &pressed_keycodes, 1, false));
    assert!(sticky_combo_is_active_on_layer(&combo, &pressed_keycodes, 2, true));
}

#[test]
fn tap_dance_hold_exposes_its_layer_action_after_tapping_term() {
    let entries = vec![TapDanceEntry { on_hold: mo(2), tapping_term: 150, ..Default::default() }];
    let now = 5_000 * MS;
    let mut state = StickyLayoutTapDanceState::Idle;

    assert!(sticky_update_tap_dance_state(&mut state, true, Some(0), &entries, now).is_empty());
    assert_eq!(
        sticky_update_tap_dance_state(&mut state, true, Some(0), &entries, now + 150 * MS),
        vec![mo(2)]
    );
    assert_eq!(sticky_tap_dance_active_keycode(&state, &entries), Some(mo(2)));
    assert!(sticky_update_tap_dance_state(&mut state, false, None, &entries, now + 160 * MS)
        .is_empty());
    assert!(matches!(state, StickyLayoutTapDanceState::Idle));
}

#[test]
fn tap_dance_tap_emits_persistent_layer_action_after_tapping_term() {
    let entries = vec![TapDanceEntry { on_tap: tg(2), tapping_term: 150, ..Default::default() }];
    let now = 5_000 * MS;
    let mut state = StickyLayoutTapDanceState::Idle;

    sticky_update_tap_dance_state(&mut state, true, Some(0), &entries, now);
    assert!(sticky_update_tap_dance_state(&mut state, false, None, &entries, now + 50 * MS)
        .is_empty());
    assert_eq!(
        sticky_update_tap_dance_state(&mut state, false, None, &entries, now + 200 * MS),
        vec![tg(2)]
    );
}

#[test]
fn combo_needs_every_trigger_key_and_ignores_empty_slots() {
    let combo = ComboEntry { keys: [0x0004, 0x0004, 0, 0], output: 0x0006, layer: None };
    assert!(!sticky_combo_is_active(&combo, &[0x0004]));
    assert!(sticky_combo_is_active(&combo, &[0x0004, 0x0009, 0x0004]));
    let empty = ComboEntry { keys: [0, 0, 0, 0], output: 0x0006, layer: None };
    assert!(!sticky_combo_is_active(&empty, &[0x0004]));
}

#[test]
fn toggled_layer_stays_active_without_held_keys() {
    let layout = test_layout(vec![vec![0], vec![0], vec![0]]);
    assert_eq!(
        sticky_layout_active_layer(&layout, &[false], &[None], &[false, true, false], 0, &[]),
        1
    );
}

#[test]
fn toggle_key_held_over_two_frames_toggles_once() {
    let layout = test_layout(vec![vec![tg(1)], vec![tg(1)], vec![0]]);
    let mut app = EntropyApp::new(Language::English);
    app.matrix_tester_pressed = vec![true];
    assert_eq!(app.sync_sticky_layout_layer_state(&layout, 0), 1);
    assert_eq!(app.sync_sticky_layout_layer_state(&layout, 20 * MS), 1);
    assert_eq!(app.sticky_layout_toggled_layers, vec![false, true, false]);
    app.matrix_tester_pressed = vec![false];
    assert_eq!(app.sync_sticky_layout_layer_state(&layout, 40 * MS), 1);
    app.matrix_tester_pressed = vec![true];
    assert_eq!(app.sync_sticky_layout_layer_state(&layout, 60 * MS), 0);
}
