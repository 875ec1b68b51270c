use entropy::app::{EntropyApp, MainMenuTab, SettingsTab};
use entropy::keyboard::Language;
use entropy::layout_device_dropdown::{
    about_device_label, entlayout_export_label, entlayout_import_label, layout_image_export_label,
};

#[test]
fn device_menu_captions_follow_the_language() {
    assert_eq!(entlayout_import_label(Language::English), "Import layout");
    assert_eq!(entlayout_import_label(Language::Russian), "Импорт раскладки");
    assert_eq!(entlayout_export_label(Language::English), "Export layout");
    assert_eq!(layout_image_export_label(Language::Russian), "Экспорт картинки");
    assert_eq!(about_device_label(Language::English), "About device");
}

#[test]
fn opening_the_export_page_selects_the_first_new_layer_only() {
    let mut app = EntropyApp::new(Language::English);
    app.layer_count = 3;
    assert!(app.open_layout_image_export_page());
    assert_eq!(app.app_settings.layout_image_export_selected_layers, vec![true, false, false]);
    assert_eq!(app.settings_tab, SettingsTab::LayoutImageExport);
    assert_eq!(app.main_menu_tab, MainMenuTab::Settings);

    app.app_settings.layout_image_export_selected_layers[0] = false;
    app.layer_count = 4;
    assert!(app.open_layout_image_export_page());
    assert_eq!(
        app.app_settings.layout_image_export_selected_layers,
        vec![false, false, false, false]
    );
    assert!(!app.ensure_layout_image_export_layers(2));
}

#[test]
fn export_page_covers_one_layer_without_a_keyboard() {
    let mut app = EntropyApp::new(Language::English);
    assert!(app.open_layout_image_export_page());
    assert_eq!(app.app_settings.layout_image_export_selected_layers, vec![true]);
}
