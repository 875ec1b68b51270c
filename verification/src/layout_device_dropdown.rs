//! Captions of the device menu.
use vstd::prelude::*;

use crate::keyboard::Language;

verus! {

/// The caption of the menu entry that imports a layout file.
pub fn entlayout_import_label(lang: Language) -> (label: &'static str)
    ensures
        label == (if lang is Russian { "Импорт раскладки" } else { "Import layout" }),
{
    match lang {
        Language::Russian => "Импорт раскладки",
        Language::English => "Import layout",
    }
}

/// The caption of the menu entry that exports the layout to a file.
pub fn entlayout_export_label(lang: Language) -> (label: &'static str)
    ensures
        label == (if lang is Russian { "Экспорт раскладки" } else { "Export layout" }),
{
    match lang {
        Language::Russian => "Экспорт раскладки",
        Language::English => "Export layout",
    }
}

/// The caption of the menu entry that exports the layout as an image.
pub fn layout_image_export_label(lang: Language) -> (label: &'static str)
    ensures
        label == (if lang is Russian { "Экспорт картинки" } else { "Export image" }),
{
    match lang {
        Language::Russian => "Экспорт картинки",
        Language::English => "Export image",
    }
}

/// The caption of the menu entry that shows information about the device.
pub fn about_device_label(lang: Language) -> (label: &'static str)
    ensures
        label == (if lang is Russian { "Об устройстве" } else { "About device" }),
{
    match lang {
        Language::Russian => "Об устройстве",
        Language::English => "About device",
    }
}

} // verus!
