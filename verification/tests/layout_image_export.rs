use entropy::keyboard::{Language, PhysicalEncoder};
use entropy::layout_image_export::{
    escape_xml_text, export_button_label, export_encoder_members, ExportEncoderMembers, export_format_label, export_key_legend_label,
    export_safe_key_label, export_text, export_theme_label, layer_export_label,
    layout_image_export_descriptor, KeyLegendLayout, LayoutImageExportFormat,
    LayoutImageExportTheme,
};

#[test]
fn every_export_format_has_a_distinct_extension_and_filter() {
    let png = layout_image_export_descriptor(LayoutImageExportFormat::Png);
    let svg = layout_image_export_descriptor(LayoutImageExportFormat::Svg);
    let pdf = layout_image_export_descriptor(LayoutImageExportFormat::Pdf);

    assert_eq!(png, ("png", "PNG image"));
    assert_eq!(svg, ("svg", "SVG image"));
    assert_eq!(pdf, ("pdf", "PDF document"));

    let extensions = [png.0, svg.0, pdf.0];
    for (i, a) in extensions.iter().enumerate() {
        assert!(!a.is_empty());
        for b in &extensions[i + 1..] {
            assert_ne!(a, b);
        }
    }
}

#[test]
fn picker_and_writer_agree_on_the_extension_for_every_format() {
    for format in [
        LayoutImageExportFormat::Png,
        LayoutImageExportFormat::Svg,
        LayoutImageExportFormat::Pdf,
    ] {
        let (extension, filter) = layout_image_export_descriptor(format);
        assert!(!extension.is_empty(), "{format:?} has no extension");
        assert!(!filter.is_empty(), "{format:?} has no picker filter");
        let file_name = format!("board-layout.{extension}");
        assert!(file_name.ends_with(&format!(".{extension}")));
    }
}

#[test]
fn export_texts_follow_the_language_and_unknown_keys_are_empty() {
    assert_eq!(export_text(Language::English, "title"), "Export layout image");
    assert_eq!(export_text(Language::Russian, "export"), "Экспорт");
    assert_eq!(export_text(Language::English, "failed"), "Failed to export layout image");
    assert_eq!(export_text(Language::English, "no_such_key"), "");
    assert_eq!(export_format_label(Language::Russian, LayoutImageExportFormat::Svg), "SVG");
    assert_eq!(export_button_label(Language::English, LayoutImageExportFormat::Pdf), "Export PDF");
    assert_eq!(export_button_label(Language::Russian, LayoutImageExportFormat::Png), "Экспорт PNG");
    assert_eq!(export_theme_label(Language::Russian, LayoutImageExportTheme::Dark), "Тёмная");
    assert_eq!(export_theme_label(Language::English, LayoutImageExportTheme::Current), "Current");
    assert_eq!(
        export_key_legend_label(Language::English, KeyLegendLayout::RussianPrimary),
        "Russian: RU first"
    );
    assert_eq!(export_key_legend_label(Language::Russian, KeyLegendLayout::English), "English");
}

#[test]
fn layer_titles_use_the_name_unless_it_is_missing_or_the_number() {
    let names = vec!["  Base  ".to_owned(), "1".to_owned(), "   ".to_owned()];
    assert_eq!(layer_export_label(Language::English, &names, 0), "0. Base");
    assert_eq!(layer_export_label(Language::English, &names, 1), "Layer 1");
    assert_eq!(layer_export_label(Language::Russian, &names, 2), "Слой 2");
    assert_eq!(layer_export_label(Language::English, &names, 12), "Layer 12");
}

#[test]
fn symbol_legends_become_plain_words_and_others_stay() {
    assert_eq!(export_safe_key_label("🔊\nVol+".to_owned()), "Vol\n+");
    assert_eq!(export_safe_key_label("⏯\nPlay".to_owned()), "Play\nPause");
    assert_eq!(export_safe_key_label("🏠\nHome".to_owned()), "Home");
    assert_eq!(export_safe_key_label("Esc".to_owned()), "Esc");
}

#[test]
fn xml_text_escapes_ampersand_and_angle_brackets() {
    assert_eq!(escape_xml_text("a<b>&c"), "a&lt;b&gt;&amp;c");
    assert_eq!(escape_xml_text("&lt;"), "&amp;lt;");
    assert_eq!(escape_xml_text("plain"), "plain");
    assert_eq!(escape_xml_text(""), "");
}

#[test]
fn export_groups_encoder_directions_and_skips_hidden_encoders() {
    let encoders = vec![
        PhysicalEncoder { encoder_idx: 0, direction: 0 },
        PhysicalEncoder { encoder_idx: 1, direction: 0 },
        PhysicalEncoder { encoder_idx: 0, direction: 1 },
        PhysicalEncoder { encoder_idx: 1, direction: 1 },
        PhysicalEncoder { encoder_idx: 2, direction: 1 },
        PhysicalEncoder { encoder_idx: 3, direction: 0 },
    ];
    let shown = vec![true, true, true, true, true, false];
    let visibility = vec![true, false];
    assert_eq!(
        export_encoder_members(&encoders, &shown, &visibility),
        vec![
            ExportEncoderMembers { encoder_idx: 0, ccw: Some(0), cw: Some(2) },
            ExportEncoderMembers { encoder_idx: 2, ccw: None, cw: Some(4) },
        ]
    );
}

#[test]
fn export_encoder_slot_seen_twice_keeps_the_last() {
    let encoders = vec![
        PhysicalEncoder { encoder_idx: 5, direction: 1 },
        PhysicalEncoder { encoder_idx: 5, direction: 1 },
    ];
    assert_eq!(
        export_encoder_members(&encoders, &vec![true, true], &vec![]),
        vec![ExportEncoderMembers { encoder_idx: 5, ccw: None, cw: Some(1) }]
    );
}

#[test]
fn export_renders_the_marked_layers_the_keyboard_has() {
    let mut app = entropy::app::EntropyApp::new(Language::English);
    assert_eq!(app.layout_image_export_layers(), None);

    app.layout = Some(entropy::keyboard::KeyboardLayout {
        rows: 1,
        cols: 1,
        keys: vec![],
        encoders: vec![],
        layers: vec![vec![], vec![], vec![]],
        encoder_layers: vec![],
    });
    app.app_settings.layout_image_export_selected_layers = vec![true, false, true, true, true];
    assert_eq!(app.layout_image_export_layers(), Some(vec![0, 2]));
    app.layer_count = 4;
    assert_eq!(app.layout_image_export_layers(), Some(vec![0, 2, 3]));

    app.app_settings.layout_image_export_selected_layers = vec![false, false];
    assert_eq!(app.layout_image_export_layers(), None);
    assert_eq!(
        app.status_msg,
        entropy::app::StatusMessage::Literal(export_text(Language::English, "select_layer"))
    );
}

#[test]
fn escaped_text_decodes_back_by_successive_replacement() {
    for text in ["a < b && c > d", "&lt; stays &amp;", "<>&", "plain", ""] {
        let escaped = entropy::layout_image_export::escape_xml_text(text);
        assert!(!escaped.contains('<') && !escaped.contains('>'));
        let decoded = escaped.replace("&lt;", "<").replace("&gt;", ">").replace("&amp;", "&");
        assert_eq!(decoded, text);
    }
}
