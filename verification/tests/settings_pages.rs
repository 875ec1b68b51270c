use std::cell::RefCell;
use entropy::app::{EntropyApp, StatusArg, StatusMessage};
use entropy::encoder_visibility_settings::{encoder_visibility_copy, LayoutOption};
use entropy::keyboard::Language;
use entropy::layer_led_settings::{LayerLedColorSetting, LayerLedNumericSetting, LayerLedRow};

fn key_of(message: &StatusMessage) -> &'static str {
    match message {
        StatusMessage::Catalog { key, .. } => key,
        StatusMessage::Literal(text) => text,
        StatusMessage::SaveFailed { .. } => "",
    }
}

#[test]
fn encoder_captions_name_the_side_from_whole_words_of_the_option() {
    let left = LayoutOption { label: "Encoder LEFT half".to_owned() };
    let (label, tooltip) = encoder_visibility_copy(Language::English, 0, Some(&left));
    assert_eq!(key_of(&label), "encoder_settings.left_encoder");
    assert_eq!(key_of(&tooltip), "encoder_settings.left_encoder_tooltip");

    let right = LayoutOption { label: "right".to_owned() };
    assert_eq!(key_of(&encoder_visibility_copy(Language::English, 1, Some(&right)).0), "encoder_settings.right_encoder");

    let neither = LayoutOption { label: "leftover rightmost".to_owned() };
    let (label, _) = encoder_visibility_copy(Language::Russian, 2, Some(&neither));
    assert_eq!(
        label,
        StatusMessage::Catalog {
            key: "encoder_settings.encoder_number",
            args: vec![("number", StatusArg::Number(3))],
        }
    );
    assert_eq!(key_of(&encoder_visibility_copy(Language::English, 0, None).1), "encoder_settings.encoder_number_tooltip");
}

#[test]
fn layer_led_rows_list_numeric_settings_then_colors() {
    let mut app = EntropyApp::new(Language::English);
    assert!(app.layer_led_rows().is_empty());
    app.layer_led_settings.timeout = Some(LayerLedNumericSetting { qsid: 1, width: 2, value: 5, max: 60 });
    app.layer_led_settings.bt_profile_colors = vec![LayerLedColorSetting { qsids: vec![2], value: 0 }];
    app.layer_led_settings.layer_colors = vec![
        LayerLedColorSetting { qsids: vec![3], value: 1 },
        LayerLedColorSetting { qsids: vec![4], value: 2 },
    ];
    assert_eq!(
        app.layer_led_rows(),
        vec![
            LayerLedRow::Timeout,
            LayerLedRow::BtProfileColor(0),
            LayerLedRow::LayerColor(0),
            LayerLedRow::LayerColor(1),
        ]
    );
}

#[test]
fn layer_led_labels_use_a_short_name_or_the_number() {
    let mut app = EntropyApp::new(Language::English);
    app.layer_names = vec![" Games ".to_owned(), "1".to_owned(), "A very long layer name for testing".to_owned()];
    assert_eq!(app.layer_led_layer_label(0), "Layer 0: Games");
    assert_eq!(app.layer_led_layer_label(1), "Layer 1 color");
    assert_eq!(app.layer_led_layer_label(2), "Layer 2: A very long layer name");
    assert_eq!(app.layer_led_layer_label(7), "Layer 7 color");
    app.app_settings.language = Language::Russian;
    assert_eq!(app.layer_led_layer_label(0), "Слой 0: Games");
    assert_eq!(app.layer_led_layer_label(1), "Цвет слоя 1");
}

#[test]
fn layer_led_color_is_written_to_every_id_and_the_last_failure_is_shown() {
    let mut app = EntropyApp::new(Language::English);
    let written = RefCell::new(Vec::new());
    app.write_layer_led_color(&[1, 2], 7, &|q, v| {
        written.borrow_mut().push((q, v));
        Ok(())
    });
    assert!(written.borrow().is_empty());

    app.hid_connected = true;
    app.write_layer_led_color(&[1, 2, 3], 7, &|q, v| {
        written.borrow_mut().push((q, v));
        if q == 3 { Ok(()) } else { Err(format!("id {q}")) }
    });
    assert_eq!(*written.borrow(), vec![(1, 7), (2, 7), (3, 7)]);
    assert_eq!(
        app.status_msg,
        StatusMessage::SaveFailed { what: "Layer LED color".to_owned(), error: "id 2".to_owned() }
    );
}

#[test]
fn layer_led_numeric_width_chooses_the_write_and_clamps_bytes() {
    let mut app = EntropyApp::new(Language::English);
    app.hid_connected = true;
    let bytes = RefCell::new(Vec::new());
    let words = RefCell::new(Vec::new());
    app.write_layer_led_numeric(
        9,
        1,
        300,
        "Brightness",
        &|q, v| {
            bytes.borrow_mut().push((q, v));
            Ok(())
        },
        &|q, v| {
            words.borrow_mut().push((q, v));
            Ok(())
        },
    );
    assert_eq!(*bytes.borrow(), vec![(9, 255)]);
    app.write_layer_led_numeric(
        9,
        2,
        300,
        "Timeout",
        &|_, _| Ok(()),
        &|q, v| {
            words.borrow_mut().push((q, v));
            Err("busy".to_owned())
        },
    );
    assert_eq!(*words.borrow(), vec![(9, 300)]);
    assert_eq!(
        app.status_msg,
        StatusMessage::SaveFailed { what: "Timeout".to_owned(), error: "busy".to_owned() }
    );
}
