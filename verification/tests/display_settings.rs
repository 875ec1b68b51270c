use egui::Color32;
use entropy::app::EntropyApp;
use entropy::display_settings::{
    can_delete_saved_pictogram, display_settings_row_count, display_settings_row_tooltip, format_rgb_hex, parse_rgb_hex,
    pictogram_editor_line, pictogram_is_builtin_selection, pictogram_name_error,
    startup_image_reset_enabled, visible_pictogram_color, DisplaySettingsState, SavedPictogram,
};
use entropy::display_writes::{DisplaySettingId, SettingsWrite};
use entropy::keyboard::Language;

const PICTOGRAM_BYTES: usize = 32;

#[test]
fn standard_selection_is_not_a_duplicate_but_an_edited_copy_is() {
    let names = vec!["Камера".to_owned()];
    assert!(pictogram_is_builtin_selection("Камера", Some(0), &names));
    assert!(!pictogram_is_builtin_selection("Камера", None, &names));
    assert!(pictogram_name_error("Камера", &[], None, &names).is_some());
    assert!(!pictogram_is_builtin_selection("Камера копия", Some(0), &names));
    assert!(pictogram_name_error("Камера копия", &[], None, &names).is_none());
}

#[test]
fn display_tabs_count_only_their_own_rows() {
    let mut settings = DisplaySettingsState {
        clock_settings_supported: true,
        background_color_supported: true,
        brightness_supported: true,
        button_style_supported: true,
        clock_info_color_supported: true,
        clock_background_asset_supported: true,
        clock_background_speed_supported: true,
        clock_background_dim_supported: true,
        clock_colon_blink_supported: true,
        ..DisplaySettingsState::default()
    };

    assert_eq!(display_settings_row_count(&settings, 0), 2);
    assert_eq!(display_settings_row_count(&settings, 1), 4);
    assert_eq!(display_settings_row_count(&settings, 2), 10);

    settings.clock_background_asset_supported = false;
    assert_eq!(display_settings_row_count(&settings, 2), 9);
}

#[test]
fn color_hex_accepts_hash_and_plain_values() {
    assert_eq!(parse_rgb_hex("#12AbF0"), Some([0x12, 0xAB, 0xF0]));
    assert_eq!(parse_rgb_hex("12abf0"), Some([0x12, 0xAB, 0xF0]));
    assert_eq!(format_rgb_hex([0x12, 0xAB, 0xF0]), "#12ABF0");
    assert_eq!(parse_rgb_hex("#12345"), None);
    assert_eq!(parse_rgb_hex("#12GGF0"), None);
}

#[test]
fn unsupported_standby_tab_has_no_rows() {
    let settings = DisplaySettingsState::default();
    assert_eq!(display_settings_row_count(&settings, 0), 2);
    assert_eq!(display_settings_row_count(&settings, 1), 1);
    assert_eq!(display_settings_row_count(&settings, 2), 0);
}

#[test]
fn standby_rows_omit_modifiers() {
    let settings = DisplaySettingsState {
        clock_settings_supported: true,
        clock_info_color_supported: true,
        clock_overlay_controls_supported: true,
        ..DisplaySettingsState::default()
    };
    assert_eq!(display_settings_row_count(&settings, 2), 7);
}

#[test]
fn pictogram_names_require_a_letter_safe_characters_and_uniqueness() {
    let saved = vec![SavedPictogram {
        name: "Мой пресет_1".to_owned(),
        color: [1, 2, 3],
        bitmap: vec![0; PICTOGRAM_BYTES],
    }];
    let builtins = vec!["Воспроизведение".to_owned()];
    assert!(pictogram_name_error("Новый preset_2", &saved, None, &builtins).is_none());
    assert!(pictogram_name_error("2 preset", &saved, None, &builtins).is_some());
    assert!(pictogram_name_error("Preset-2", &saved, None, &builtins).is_some());
    assert!(pictogram_name_error("МОЙ ПРЕСЕТ_1", &saved, None, &builtins).is_some());
    assert!(pictogram_name_error("МОЙ ПРЕСЕТ_1", &saved, Some(0), &builtins).is_none());
    assert!(pictogram_name_error("воспроизведение", &saved, None, &builtins).is_some());
}

#[test]
fn pictogram_tiles_preserve_device_colors_in_both_app_themes() {
    assert_eq!(visible_pictogram_color(true, [0, 0, 0]), Color32::BLACK);
    assert_eq!(visible_pictogram_color(false, [255, 255, 255]), Color32::WHITE);
    assert_eq!(visible_pictogram_color(true, [84, 189, 191]), Color32::from_rgb(84, 189, 191));
}

#[test]
fn delete_is_available_only_for_a_saved_user_pictogram() {
    assert!(can_delete_saved_pictogram(Some(0)));
    assert!(!can_delete_saved_pictogram(None));
}

#[test]
fn startup_image_reset_requires_a_stored_custom_image_and_an_idle_device() {
    assert!(startup_image_reset_enabled(true, true, false));
    assert!(!startup_image_reset_enabled(true, false, false));
    assert!(!startup_image_reset_enabled(false, true, false));
    assert!(!startup_image_reset_enabled(true, true, true));
}

#[test]
fn pictogram_editor_interpolates_every_cell_in_a_drag() {
    let cells = pictogram_editor_line((2, 3), (7, 3));
    assert_eq!(cells, vec![(2, 3), (3, 3), (4, 3), (5, 3), (6, 3), (7, 3)]);
    let diagonal = pictogram_editor_line((1, 1), (4, 4));
    assert_eq!(diagonal, vec![(1, 1), (2, 2), (3, 3), (4, 4)]);
}

#[test]
fn pictogram_editor_line_runs_backwards_and_along_shallow_slopes() {
    assert_eq!(pictogram_editor_line((5, 5), (5, 5)), vec![(5, 5)]);
    assert_eq!(pictogram_editor_line((3, 0), (0, 0)), vec![(3, 0), (2, 0), (1, 0), (0, 0)]);
    assert_eq!(pictogram_editor_line((0, 0), (4, 1)), vec![(0, 0), (1, 0), (2, 1), (3, 1), (4, 1)]);
    assert_eq!(pictogram_editor_line((0, 4), (1, 0)), vec![(0, 4), (0, 3), (1, 2), (1, 1), (1, 0)]);
    let long = pictogram_editor_line((0, 0), (255, 17));
    assert_eq!(long.len(), 256);
    assert_eq!(long[255], (255, 17));
}

#[test]
fn color_hex_round_trips_and_rejects_non_ascii() {
    for rgb in [[0u8, 0, 0], [255, 255, 255], [1, 0x9A, 0xFE]] {
        assert_eq!(parse_rgb_hex(&format_rgb_hex(rgb)), Some(rgb));
    }
    assert_eq!(parse_rgb_hex("  #a0B1c2 \n"), Some([0xA0, 0xB1, 0xC2]));
    assert_eq!(parse_rgb_hex("##a0b1c2"), None);
    assert_eq!(parse_rgb_hex("a0b1cé"), None);
    assert_eq!(parse_rgb_hex(""), None);
}

#[test]
fn date_tab_always_has_seven_rows_and_standby_counts_every_feature() {
    let settings = DisplaySettingsState::default();
    assert_eq!(display_settings_row_count(&settings, 3), 7);
    let full = DisplaySettingsState {
        clock_settings_supported: true,
        clock_info_color_supported: true,
        clock_background_asset_supported: true,
        clock_background_dim_supported: true,
        standby_controls_supported: true,
        clock_colon_blink_supported: true,
        date_supported: true,
        ..DisplaySettingsState::default()
    };
    assert_eq!(display_settings_row_count(&full, 2), 2 + 2 + 1 + 4 + 2 + 1 + 3);
}

#[test]
fn brightness_is_clamped_and_written_once() {
    let mut app = EntropyApp::new(Language::English);
    app.display_settings.confirmed_brightness = 40;
    app.display_settings.brightness = 40;
    app.apply_display_brightness(250);
    assert_eq!(app.display_settings.brightness, 100);
    assert_eq!(
        app.pending_settings_writes,
        vec![SettingsWrite {
            label: "display_settings.brightness",
            setting: DisplaySettingId::Brightness,
            confirmed: 40,
            requested: 100,
        }]
    );
    app.apply_display_brightness(100);
    assert_eq!(app.pending_settings_writes.len(), 1);
    app.apply_display_brightness(40);
    assert_eq!(app.pending_settings_writes.len(), 2);
    assert_eq!(app.pending_settings_write_value(DisplaySettingId::Brightness), Some(40));
}

#[test]
fn clock_settings_are_clamped_and_other_settings_ignored() {
    let mut app = EntropyApp::new(Language::English);
    app.apply_clock_setting(DisplaySettingId::ClockSize, 9, "display_settings.clock_size");
    assert_eq!(app.display_settings.clock_size, 3);
    assert_eq!(app.pending_settings_writes.len(), 1);
    assert_eq!(app.pending_settings_writes[0].requested, 3);
    app.apply_clock_setting(DisplaySettingId::Brightness, 9, "display_settings.brightness");
    assert_eq!(app.display_settings.brightness, 0);
    assert_eq!(app.pending_settings_writes.len(), 1);
    app.apply_clock_colon_blink(true);
    assert!(app.display_settings.clock_colon_blink);
    assert_eq!(app.pending_settings_writes[1].setting, DisplaySettingId::ClockColonBlink);
    app.apply_clock_background_dim(180);
    assert_eq!(app.display_settings.clock_background_dim, 100);
    app.apply_display_button_style(40);
    assert_eq!(app.display_settings.button_style, 32);
}

#[test]
fn colors_write_only_changed_channels_and_date_colors_go_to_date_elements() {
    let mut app = EntropyApp::new(Language::English);
    app.display_settings.clock_text_color = [10, 20, 30];
    app.display_settings.confirmed_clock_text_color = [10, 20, 30];
    app.apply_display_color([10, 99, 30], 2);
    assert_eq!(app.display_settings.clock_text_color, [10, 99, 30]);
    assert_eq!(app.pending_settings_writes.len(), 1);
    assert_eq!(
        app.pending_settings_writes[0].setting,
        DisplaySettingId::Color { kind: 2, channel: 1 }
    );
    app.apply_display_color([10, 99, 30], 2);
    assert_eq!(app.pending_settings_writes.len(), 1);

    app.display_settings.date = vec![0; 15];
    app.display_settings.confirmed_date = vec![0; 15];
    app.apply_display_color([1, 0, 3], 7);
    assert_eq!(&app.display_settings.date[12..15], &[1, 0, 3]);
    assert_eq!(app.pending_settings_writes.len(), 3);
    assert_eq!(app.pending_settings_writes[1].setting, DisplaySettingId::Date(12));
    assert_eq!(app.pending_settings_writes[2].setting, DisplaySettingId::Date(14));
}

#[test]
fn settings_rows_carry_their_tooltips() {
    assert_eq!(
        display_settings_row_tooltip("display_settings.clock_font"),
        Some("display_settings.tooltip_clock_font")
    );
    assert_eq!(
        display_settings_row_tooltip("display_settings.choose_macro"),
        Some("display_settings.tooltip_pictogram_slot")
    );
    assert_eq!(
        display_settings_row_tooltip("display_settings.choose_tap_dance"),
        Some("display_settings.tooltip_pictogram_slot")
    );
    assert_eq!(
        display_settings_row_tooltip("display_settings.choose_action_type"),
        Some("display_settings.tooltip_pictogram_action_type")
    );
    assert_eq!(display_settings_row_tooltip("display_settings.color_picker"), None);
}

#[test]
fn pictogram_undo_history_keeps_the_latest_sixty_four_states() {
    let mut undo: Vec<Vec<u8>> = Vec::new();
    for i in 0..70u8 {
        entropy::display_settings::remember_pictogram_undo(&mut undo, vec![i]);
        assert!(undo.len() <= entropy::display_settings::PICTOGRAM_UNDO_LIMIT);
    }
    assert_eq!(undo.len(), 64);
    assert_eq!(undo[0], vec![6]);
    assert_eq!(undo[63], vec![69]);
}
