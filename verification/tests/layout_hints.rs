use entropy::layout_hints::{hover_layer_hint_keys, jump_back_hint_keys};
use entropy::keycode::toggle_handed_modifier;
use entropy::layout_hints::{layout_hint_kind, LayoutBottomHintKind};

const CLEAR_KEY: &str = "key_hints.clear_key";

#[test]
fn clear_hint_is_last_for_every_clearable_specialized_binding() {
    let kinds = [
        LayoutBottomHintKind::Modifier { can_swap_side: true, can_retarget_key: true, is_mod_tap: true },
        LayoutBottomHintKind::Modifier { can_swap_side: false, can_retarget_key: false, is_mod_tap: false },
        LayoutBottomHintKind::Macro,
        LayoutBottomHintKind::TapDance,
        LayoutBottomHintKind::Mouse { settings_available: true },
        LayoutBottomHintKind::AltRepeat,
        LayoutBottomHintKind::GraveEscape,
        LayoutBottomHintKind::Layer { is_layer_tap: true },
    ];

    for kind in kinds {
        assert_eq!(kind.keys(false).last(), Some(&CLEAR_KEY), "{kind:?}");
    }
}

#[test]
fn modifier_actions_stay_before_clear_hint() {
    assert_eq!(
        LayoutBottomHintKind::Modifier { can_swap_side: true, can_retarget_key: true, is_mod_tap: true }
            .keys(false),
        &[
            "key_hints.change_key",
            "key_hints.change_mod_tap_key",
            "key_hints.switch_modifier_side",
            CLEAR_KEY,
        ]
    );
}

#[test]
fn gui_chord_mod_tap_without_side_swap_uses_tap_key_hint() {
    for keycode in [0x2904u16, 0x2A04] {
        let is_mod_tap = (0x2000..0x4000).contains(&keycode);
        let kind = LayoutBottomHintKind::Modifier {
            can_swap_side: toggle_handed_modifier(keycode).is_some(),
            can_retarget_key: is_mod_tap,
            is_mod_tap,
        };

        assert_eq!(
            kind.keys(false),
            &["key_hints.change_key", "key_hints.change_mod_tap_key", CLEAR_KEY],
            "wrong hints for {keycode:#06X}"
        );
    }
}

#[test]
fn empty_binding_does_not_offer_clear() {
    assert_eq!(LayoutBottomHintKind::Empty.keys(false), &["key_hints.change_key"]);
}

#[test]
fn transparent_mode_offers_middle_click_for_empty_binding() {
    assert_eq!(LayoutBottomHintKind::Empty.keys(true), &["key_hints.change_key", CLEAR_KEY]);
}

#[test]
fn mouse_settings_hint_is_hidden_when_firmware_does_not_support_it() {
    assert_eq!(
        LayoutBottomHintKind::Mouse { settings_available: false }.keys(false),
        &["key_hints.change_key", CLEAR_KEY]
    );
}

#[test]
fn every_hint_list_starts_with_change_key() {
    let kinds = [
        LayoutBottomHintKind::Empty,
        LayoutBottomHintKind::Basic,
        LayoutBottomHintKind::Modifier { can_swap_side: true, can_retarget_key: false, is_mod_tap: false },
        LayoutBottomHintKind::Modifier { can_swap_side: true, can_retarget_key: true, is_mod_tap: false },
        LayoutBottomHintKind::Mouse { settings_available: false },
        LayoutBottomHintKind::Layer { is_layer_tap: false },
    ];
    for kind in kinds {
        for transparent in [false, true] {
            assert_eq!(kind.keys(transparent)[0], "key_hints.change_key");
        }
    }
    assert_eq!(
        LayoutBottomHintKind::Layer { is_layer_tap: false }.keys(false),
        &[
            "key_hints.change_key",
            "key_hints.go_to_that_layer",
            "key_hints.change_layer_target",
            CLEAR_KEY,
        ]
    );
}

fn hovered(keycode: u16) -> entropy::secondary_click::SecondaryClickBinding {
    entropy::secondary_click::SecondaryClickBinding {
        keycode,
        native_mod_tap_base: None,
        layer_target: None,
        layer_retarget_base: None,
        is_mouse_key: false,
        is_alt_repeat_key: false,
    }
}

#[test]
fn hovered_keys_are_sorted_into_hint_kinds() {
    assert_eq!(layout_hint_kind(hovered(0), true, false), LayoutBottomHintKind::Empty);
    assert_eq!(layout_hint_kind(hovered(0x0004), false, false), LayoutBottomHintKind::Basic);
    assert_eq!(
        layout_hint_kind(hovered(0x00E1), false, false),
        LayoutBottomHintKind::Modifier { can_swap_side: true, can_retarget_key: false, is_mod_tap: false }
    );
    assert_eq!(
        layout_hint_kind(hovered(0x0304), false, false),
        LayoutBottomHintKind::Modifier { can_swap_side: false, can_retarget_key: true, is_mod_tap: false }
    );
    assert_eq!(
        layout_hint_kind(hovered(0x2129), false, false),
        LayoutBottomHintKind::Modifier { can_swap_side: true, can_retarget_key: true, is_mod_tap: true }
    );
    assert_eq!(layout_hint_kind(hovered(0x7701), false, false), LayoutBottomHintKind::Macro);
    assert_eq!(layout_hint_kind(hovered(0x5702), false, false), LayoutBottomHintKind::TapDance);
    let mouse = entropy::secondary_click::SecondaryClickBinding { is_mouse_key: true, ..hovered(0x00CD) };
    assert_eq!(
        layout_hint_kind(mouse, false, true),
        LayoutBottomHintKind::Mouse { settings_available: true }
    );
    assert_eq!(layout_hint_kind(hovered(0x7C16), false, false), LayoutBottomHintKind::GraveEscape);
    let layer_tap = entropy::secondary_click::SecondaryClickBinding { layer_target: Some(1), ..hovered(0x4104) };
    assert_eq!(layout_hint_kind(layer_tap, false, false), LayoutBottomHintKind::Layer { is_layer_tap: true });
    let momentary = entropy::secondary_click::SecondaryClickBinding { layer_target: Some(2), ..hovered(0x5222) };
    assert_eq!(layout_hint_kind(momentary, false, false), LayoutBottomHintKind::Layer { is_layer_tap: false });
}

#[test]
fn previewed_layer_hints_follow_the_hovered_layer_key() {
    assert_eq!(
        hover_layer_hint_keys(2, 0, Some(0x5222), false),
        vec!["key_hints.change_key", "key_hints.go_to_layer", "key_hints.change_layer_number"]
    );
    assert_eq!(
        hover_layer_hint_keys(1, 1, Some(0x4104), true),
        vec!["key_hints.change_key", "key_hints.change_tap_key", "key_hints.esc_back"]
    );
    assert_eq!(
        hover_layer_hint_keys(3, 0, Some(0x4FFF), true),
        vec![
            "key_hints.change_key",
            "key_hints.go_to_layer",
            "key_hints.change_tap_key",
            "key_hints.esc_back",
        ]
    );
    assert_eq!(
        hover_layer_hint_keys(0, 0, None, false),
        vec!["key_hints.change_key", "key_hints.change_layer_number"]
    );
}

#[test]
fn jump_back_hints_offer_going_back() {
    assert_eq!(jump_back_hint_keys(true), vec!["key_hints.change_key", "key_hints.right_click_or_esc_back"]);
    assert_eq!(jump_back_hint_keys(false), vec!["key_hints.right_click_or_esc_back"]);
}
