//! The layout-image export page: its texts, the file type of each format, the label of
//! each layer, key legends that fit on an exported key, and XML escaping for SVG.
use vstd::prelude::*;

use crate::app::{EntropyApp, MainMenuTab, SettingsTab, StatusMessage};
use crate::keyboard::{Language, PhysicalEncoder};
use crate::text::{decimal_digits, decimal_string, str_eq, trim, trimmed};

verus! {

/// The file format of an exported layout image.
#[derive(Clone, Copy, Debug, PartialEq, Eq, Structural)]
pub enum LayoutImageExportFormat {
    Png,
    Svg,
    Pdf,
}

/// The colour theme of an exported layout image.
#[derive(Clone, Copy, Debug, PartialEq, Eq, Structural)]
pub enum LayoutImageExportTheme {
    Current,
    Light,
    Dark,
}

/// Which legends the keys show.
#[derive(Clone, Copy, Debug, PartialEq, Eq, Structural)]
pub enum KeyLegendLayout {
    English,
    Russian,
    RussianPrimary,
}

/// The texts of the export page, by key and language; the empty text for an unknown key.
pub open spec fn export_text_of(lang: Language, key: Seq<char>) -> &'static str {
    let ru = lang is Russian;
    if key == "title"@ {
        if ru { "Экспорт картинки раскладки" } else { "Export layout image" }
    } else if key == "description"@ {
        if ru {
            "PNG, SVG или PDF с выбранными слоями, темой и легендами клавиш"
        } else {
            "PNG, SVG, or PDF with selected layers, theme, and key legends"
        }
    } else if key == "pdf_pages_hint"@ {
        if ru {
            "PDF для печати: каждый выбранный слой на отдельной странице A4"
        } else {
            "Printable PDF: each selected layer on its own A4 page"
        }
    } else if key == "format"@ {
        if ru { "Формат" } else { "Format" }
    } else if key == "format_tooltip"@ {
        if ru { "Выбрать формат экспортируемого файла" } else { "Choose exported file format" }
    } else if key == "theme"@ {
        if ru { "Тема" } else { "Theme" }
    } else if key == "theme_tooltip"@ {
        if ru { "Выбрать тему экспортируемой картинки" } else { "Choose exported image theme" }
    } else if key == "legends"@ {
        if ru { "Легенды клавиш" } else { "Key legends" }
    } else if key == "legends_tooltip"@ {
        if ru {
            "Выбрать английские или русские подписи клавиш"
        } else {
            "Choose English or Russian key labels"
        }
    } else if key == "layer_names"@ {
        if ru { "Названия слоёв" } else { "Layer names" }
    } else if key == "layer_names_tooltip"@ {
        if ru {
            "Показывать заголовок над каждым экспортируемым слоем"
        } else {
            "Show a title above each exported layer"
        }
    } else if key == "layer_tooltip"@ {
        if ru {
            "Добавить слой в экспортируемую картинку"
        } else {
            "Include this layer in the exported image"
        }
    } else if key == "export"@ {
        if ru { "Экспорт" } else { "Export" }
    } else if key == "select_layer"@ {
        if ru {
            "Выберите хотя бы один слой для экспорта"
        } else {
            "Select at least one layer to export"
        }
    } else if key == "saved"@ {
        if ru { "Картинка раскладки экспортирована" } else { "Layout image exported" }
    } else if key == "failed"@ {
        if ru { "Не удалось экспортировать картинку" } else { "Failed to export layout image" }
    } else {
        ""
    }
}

/// A text of the export page in the user's language; the empty text for an unknown key.
pub fn export_text(lang: Language, key: &str) -> (text: &'static str)
    ensures
        text == export_text_of(lang, key@),
{
    let ru = matches!(lang, Language::Russian);
    if str_eq(key, "title") {
        if ru { "Экспорт картинки раскладки" } else { "Export layout image" }
    } else if str_eq(key, "description") {
        if ru {
            "PNG, SVG или PDF с выбранными слоями, темой и легендами клавиш"
        } else {
            "PNG, SVG, or PDF with selected layers, theme, and key legends"
        }
    } else if str_eq(key, "pdf_pages_hint") {
        if ru {
            "PDF для печати: каждый выбранный слой на отдельной странице A4"
        } else {
            "Printable PDF: each selected layer on its own A4 page"
        }
    } else if str_eq(key, "format") {
        if ru { "Формат" } else { "Format" }
    } else if str_eq(key, "format_tooltip") {
        if ru { "Выбрать формат экспортируемого файла" } else { "Choose exported file format" }
    } else if str_eq(key, "theme") {
        if ru { "Тема" } else { "Theme" }
    } else if str_eq(key, "theme_tooltip") {
        if ru { "Выбрать тему экспортируемой картинки" } else { "Choose exported image theme" }
    } else if str_eq(key, "legends") {
        if ru { "Легенды клавиш" } else { "Key legends" }
    } else if str_eq(key, "legends_tooltip") {
        if ru {
            "Выбрать английские или русские подписи клавиш"
        } else {
            "Choose English or Russian key labels"
        }
    } else if str_eq(key, "layer_names") {
        if ru { "Названия слоёв" } else { "Layer names" }
    } else if str_eq(key, "layer_names_tooltip") {
        if ru {
            "Показывать заголовок над каждым экспортируемым слоем"
        } else {
            "Show a title above each exported layer"
        }
    } else if str_eq(key, "layer_tooltip") {
        if ru {
            "Добавить слой в экспортируемую картинку"
        } else {
            "Include this layer in the exported image"
        }
    } else if str_eq(key, "export") {
        if ru { "Экспорт" } else { "Export" }
    } else if str_eq(key, "select_layer") {
        if ru {
            "Выберите хотя бы один слой для экспорта"
        } else {
            "Select at least one layer to export"
        }
    } else if str_eq(key, "saved") {
        if ru { "Картинка раскладки экспортирована" } else { "Layout image exported" }
    } else if str_eq(key, "failed") {
        if ru { "Не удалось экспортировать картинку" } else { "Failed to export layout image" }
    } else {
        ""
    }
}

/// The name of a format, the same in every language.
pub open spec fn format_label_of(format: LayoutImageExportFormat) -> &'static str {
    match format {
        LayoutImageExportFormat::Png => "PNG",
        LayoutImageExportFormat::Svg => "SVG",
        LayoutImageExportFormat::Pdf => "PDF",
    }
}

/// The name of a format, the same in every language.
pub fn export_format_label(lang: Language, format: LayoutImageExportFormat) -> (label: &'static str)
    ensures
        label == format_label_of(format),
{
    match format {
        LayoutImageExportFormat::Png => "PNG",
        LayoutImageExportFormat::Svg => "SVG",
        LayoutImageExportFormat::Pdf => "PDF",
    }
}

/// The export button's caption: the word for "export", a space, and the format's name.
pub fn export_button_label(lang: Language, format: LayoutImageExportFormat) -> (label: String)
    ensures
        label@ == export_text_of(lang, "export"@)@ + " "@ + format_label_of(format)@,
{
    let mut label = String::from_str(export_text(lang, "export"));
    label.append(" ");
    label.append(export_format_label(lang, format));
    label
}

/// The name of a theme in the user's language.
pub open spec fn theme_label_of(lang: Language, theme: LayoutImageExportTheme) -> &'static str {
    match (lang, theme) {
        (Language::Russian, LayoutImageExportTheme::Current) => "Текущая",
        (Language::English, LayoutImageExportTheme::Current) => "Current",
        (Language::Russian, LayoutImageExportTheme::Light) => "Светлая",
        (Language::English, LayoutImageExportTheme::Light) => "Light",
        (Language::Russian, LayoutImageExportTheme::Dark) => "Тёмная",
        (Language::English, LayoutImageExportTheme::Dark) => "Dark",
    }
}

/// The name of a theme in the user's language.
pub fn export_theme_label(lang: Language, theme: LayoutImageExportTheme) -> (label: &'static str)
    ensures
        label == theme_label_of(lang, theme),
{
    match (lang, theme) {
        (Language::Russian, LayoutImageExportTheme::Current) => "Текущая",
        (Language::English, LayoutImageExportTheme::Current) => "Current",
        (Language::Russian, LayoutImageExportTheme::Light) => "Светлая",
        (Language::English, LayoutImageExportTheme::Light) => "Light",
        (Language::Russian, LayoutImageExportTheme::Dark) => "Тёмная",
        (Language::English, LayoutImageExportTheme::Dark) => "Dark",
    }
}

/// The name of a choice of key legends in the user's language.
pub open spec fn key_legend_label_of(lang: Language, layout: KeyLegendLayout) -> &'static str {
    match (lang, layout) {
        (_, KeyLegendLayout::English) => "English",
        (Language::Russian, KeyLegendLayout::Russian) => "Русская: EN сверху",
        (Language::English, KeyLegendLayout::Russian) => "Russian: EN first",
        (Language::Russian, KeyLegendLayout::RussianPrimary) => "Русская: RU сверху",
        (Language::English, KeyLegendLayout::RussianPrimary) => "Russian: RU first",
    }
}

/// The name of a choice of key legends in the user's language.
pub fn export_key_legend_label(lang: Language, key_legend_layout: KeyLegendLayout) -> (label: &'static str)
    ensures
        label == key_legend_label_of(lang, key_legend_layout),
{
    match (lang, key_legend_layout) {
        (Language::Russian, KeyLegendLayout::English) => "English",
        (Language::English, KeyLegendLayout::English) => "English",
        (Language::Russian, KeyLegendLayout::Russian) => "Русская: EN сверху",
        (Language::English, KeyLegendLayout::Russian) => "Russian: EN first",
        (Language::Russian, KeyLegendLayout::RussianPrimary) => "Русская: RU сверху",
        (Language::English, KeyLegendLayout::RussianPrimary) => "Russian: RU first",
    }
}

/// The layer's own name, trimmed, where it has one.
pub open spec fn layer_name_of(layer_names: Seq<String>, layer_idx: usize) -> Seq<char> {
    if layer_idx < layer_names.len() {
        trimmed(layer_names[layer_idx as int]@)
    } else {
        Seq::empty()
    }
}

/// The title of an exported layer: `N. name` where the layer has a name of its own (other
/// than its number), else `Layer N` in the user's language.
pub open spec fn layer_export_label_of(lang: Language, layer_names: Seq<String>, layer_idx: usize) -> Seq<char> {
    let raw = layer_name_of(layer_names, layer_idx);
    let number = decimal_digits(layer_idx as nat);
    if raw.len() > 0 && raw != number {
        number + ". "@ + raw
    } else if lang is Russian {
        "Слой "@ + number
    } else {
        "Layer "@ + number
    }
}

/// The title of an exported layer: `N. name` where the layer has a name of its own (other
/// than its number), else `Layer N` in the user's language.
pub fn layer_export_label(lang: Language, layer_names: &[String], layer_idx: usize) -> (label: String)
    ensures
        label@ == layer_export_label_of(lang, layer_names@, layer_idx),
{
    let raw: &str = if layer_idx < layer_names.len() {
        trim(layer_names[layer_idx].as_str())
    } else {
        proof {
            reveal_strlit("");
        }
        ""
    };
    let number = decimal_string(layer_idx);
    if raw.unicode_len() > 0 && !str_eq(raw, number.as_str()) {
        let mut label = number;
        label.append(". ");
        label.append(raw);
        return label;
    }
    let mut label = match lang {
        Language::Russian => String::from_str("Слой "),
        Language::English => String::from_str("Layer "),
    };
    label.append(number.as_str());
    label
}

/// The legends of media and system keys that carry a symbol, and the plain legends that
/// replace them on an exported image.
pub open spec fn safe_key_label_of(label: Seq<char>) -> Seq<char> {
    if label == "⏻\nPower"@ {
        "Power"@
    } else if label == "🌙\nSleep"@ {
        "Sleep"@
    } else if label == "☀\nWake"@ {
        "Wake"@
    } else if label == "🔇\nMute"@ {
        "Mute"@
    } else if label == "🔊\nVol+"@ {
        "Vol\n+"@
    } else if label == "🔉\nVol-"@ {
        "Vol\n-"@
    } else if label == "⏭\nNext"@ {
        "Next\nTrack"@
    } else if label == "⏮\nPrev"@ {
        "Prev\nTrack"@
    } else if label == "⏹\nStop"@ {
        "Stop"@
    } else if label == "⏯\nPlay"@ {
        "Play\nPause"@
    } else if label == "🎵\nMedia"@ {
        "Media"@
    } else if label == "⏏\nEject"@ {
        "Eject"@
    } else if label == "✉\nMail"@ {
        "Mail"@
    } else if label == "🖩\nCalc"@ {
        "Calc"@
    } else if label == "💻\nFiles"@ {
        "Files"@
    } else if label == "🔍\nSearch"@ {
        "Search"@
    } else if label == "🏠\nHome"@ {
        "Home"@
    } else {
        label
    }
}

/// A key legend that the export fonts can draw: the symbols of media and system keys are
/// replaced by words; any other legend is kept.
pub fn export_safe_key_label(label: String) -> (safe: String)
    ensures
        safe@ == safe_key_label_of(label@),
{
    let l = label.as_str();
    let replacement: Option<&str> = if str_eq(l, "⏻\nPower") {
        Some("Power")
    } else if str_eq(l, "🌙\nSleep") {
        Some("Sleep")
    } else if str_eq(l, "☀\nWake") {
        Some("Wake")
    } else if str_eq(l, "🔇\nMute") {
        Some("Mute")
    } else if str_eq(l, "🔊\nVol+") {
        Some("Vol\n+")
    } else if str_eq(l, "🔉\nVol-") {
        Some("Vol\n-")
    } else if str_eq(l, "⏭\nNext") {
        Some("Next\nTrack")
    } else if str_eq(l, "⏮\nPrev") {
        Some("Prev\nTrack")
    } else if str_eq(l, "⏹\nStop") {
        Some("Stop")
    } else if str_eq(l, "⏯\nPlay") {
        Some("Play\nPause")
    } else if str_eq(l, "🎵\nMedia") {
        Some("Media")
    } else if str_eq(l, "⏏\nEject") {
        Some("Eject")
    } else if str_eq(l, "✉\nMail") {
        Some("Mail")
    } else if str_eq(l, "🖩\nCalc") {
        Some("Calc")
    } else if str_eq(l, "💻\nFiles") {
        Some("Files")
    } else if str_eq(l, "🔍\nSearch") {
        Some("Search")
    } else if str_eq(l, "🏠\nHome") {
        Some("Home")
    } else {
        None
    };
    match replacement {
        Some(r) => String::from_str(r),
        None => label,
    }
}

/// The file extension and the file-picker filter name of a format.
pub open spec fn export_descriptor_of(format: LayoutImageExportFormat) -> (&'static str, &'static str) {
    match format {
        LayoutImageExportFormat::Png => ("png", "PNG image"),
        LayoutImageExportFormat::Svg => ("svg", "SVG image"),
        LayoutImageExportFormat::Pdf => ("pdf", "PDF document"),
    }
}

/// The file extension and the file-picker filter name of a format. The picker and the
/// writer both take the extension from here, and no two formats share one.
pub fn layout_image_export_descriptor(format: LayoutImageExportFormat) -> (d: (&'static str, &'static str))
    ensures
        d == export_descriptor_of(format),
        d.0@.len() > 0,
        d.1@.len() > 0,
{
    proof {
        reveal_strlit("png");
        reveal_strlit("svg");
        reveal_strlit("pdf");
        reveal_strlit("PNG image");
        reveal_strlit("SVG image");
        reveal_strlit("PDF document");
    }
    match format {
        LayoutImageExportFormat::Png => ("png", "PNG image"),
        LayoutImageExportFormat::Svg => ("svg", "SVG image"),
        LayoutImageExportFormat::Pdf => ("pdf", "PDF document"),
    }
}

/// Distinct formats have distinct file extensions.
pub proof fn lemma_export_extensions_distinct(a: LayoutImageExportFormat, b: LayoutImageExportFormat)
    requires
        a != b,
    ensures
        export_descriptor_of(a).0@ != export_descriptor_of(b).0@,
{
    reveal_strlit("png");
    reveal_strlit("svg");
    reveal_strlit("pdf");
    assert("png"@[0] != "svg"@[0]);
    assert("png"@[1] != "pdf"@[1]);
    assert("svg"@[0] != "pdf"@[0]);
}

/// A character as XML text: `&`, `<` and `>` as entities, any other as itself.
pub open spec fn xml_char(c: char) -> Seq<char> {
    if c == '&' {
        "&amp;"@
    } else if c == '<' {
        "&lt;"@
    } else if c == '>' {
        "&gt;"@
    } else {
        seq![c]
    }
}

/// The text with `&`, `<` and `>` written as XML entities.
pub open spec fn xml_escaped(s: Seq<char>) -> Seq<char>
    decreases s.len(),
{
    if s.len() == 0 {
        Seq::empty()
    } else {
        xml_escaped(s.drop_last()) + xml_char(s.last())
    }
}

/// XML text read back, front to back: the entities `&amp;`, `&lt;` and `&gt;` become
/// `&`, `<` and `>`; every other character stands for itself.
pub open spec fn xml_unescaped(s: Seq<char>) -> Seq<char>
    decreases s.len(),
{
    if s.len() == 0 {
        Seq::empty()
    } else if s.len() >= 5 && s.subrange(0, 5) == "&amp;"@ {
        seq!['&'] + xml_unescaped(s.subrange(5, s.len() as int))
    } else if s.len() >= 4 && s.subrange(0, 4) == "&lt;"@ {
        seq!['<'] + xml_unescaped(s.subrange(4, s.len() as int))
    } else if s.len() >= 4 && s.subrange(0, 4) == "&gt;"@ {
        seq!['>'] + xml_unescaped(s.subrange(4, s.len() as int))
    } else {
        seq![s[0]] + xml_unescaped(s.subrange(1, s.len() as int))
    }
}

proof fn lemma_xml_escaped_front(c: char, rest: Seq<char>)
    ensures
        xml_escaped(seq![c] + rest) == xml_char(c) + xml_escaped(rest),
    decreases rest.len(),
{
    if rest.len() == 0 {
        assert(xml_escaped(seq![c]) == xml_escaped(seq![c].drop_last()) + xml_char(c));
        assert(seq![c].drop_last() =~= Seq::<char>::empty());
        assert(xml_char(c) + Seq::<char>::empty() =~= xml_char(c));
    } else {
        let s = seq![c] + rest;
        assert(s.drop_last() =~= seq![c] + rest.drop_last());
        assert(s.last() == rest.last());
        lemma_xml_escaped_front(c, rest.drop_last());
        assert(xml_char(c) + xml_escaped(rest.drop_last()) + xml_char(rest.last()) =~= xml_char(c) + (
        xml_escaped(rest.drop_last()) + xml_char(rest.last())));
    }
}

proof fn lemma_xml_unescaped_front(c: char, rest: Seq<char>)
    ensures
        xml_unescaped(xml_char(c) + rest) == seq![c] + xml_unescaped(rest),
{
    reveal_strlit("&amp;");
    reveal_strlit("&lt;");
    reveal_strlit("&gt;");
    let s = xml_char(c) + rest;
    if c == '&' {
        assert(s.subrange(0, 5) =~= "&amp;"@);
        assert(s.subrange(5, s.len() as int) =~= rest);
    } else if c == '<' {
        assert(s.len() >= 5 ==> s.subrange(0, 5)[1] != "&amp;"@[1]);
        assert(s.subrange(0, 4) =~= "&lt;"@);
        assert(s.subrange(4, s.len() as int) =~= rest);
    } else if c == '>' {
        assert(s.len() >= 5 ==> s.subrange(0, 5)[1] != "&amp;"@[1]);
        assert(s.subrange(0, 4) != "&lt;"@) by {
            assert(s.subrange(0, 4)[1] != "&lt;"@[1]);
        }
        assert(s.subrange(0, 4) =~= "&gt;"@);
        assert(s.subrange(4, s.len() as int) =~= rest);
    } else {
        assert(s[0] == c);
        assert(s.len() >= 5 ==> s.subrange(0, 5)[0] != "&amp;"@[0]);
        assert(s.len() >= 4 ==> s.subrange(0, 4)[0] != "&lt;"@[0]);
        assert(s.len() >= 4 ==> s.subrange(0, 4)[0] != "&gt;"@[0]);
        assert(s.subrange(1, s.len() as int) =~= rest);
    }
}

/// Escaped text holds no `<` or `>`, and reading it back gives the text.
pub proof fn lemma_xml_escape_round_trip(text: Seq<char>)
    ensures
        xml_unescaped(xml_escaped(text)) == text,
        forall|i: int|
            0 <= i < xml_escaped(text).len() ==> #[trigger] xml_escaped(text)[i] != '<' && xml_escaped(
                text,
            )[i] != '>',
    decreases text.len(),
{
    reveal_strlit("&amp;");
    reveal_strlit("&lt;");
    reveal_strlit("&gt;");
    if text.len() > 0 {
        let c = text[0];
        let rest = text.subrange(1, text.len() as int);
        assert(text =~= seq![c] + rest);
        lemma_xml_escaped_front(c, rest);
        lemma_xml_escape_round_trip(rest);
        lemma_xml_unescaped_front(c, xml_escaped(rest));
        let e = xml_escaped(text);
        assert forall|i: int| 0 <= i < e.len() implies #[trigger] e[i] != '<' && e[i] != '>' by {
            let n = xml_char(c).len();
            if i < n {
                assert(e[i] == xml_char(c)[i]);
            } else {
                assert(e[i] == xml_escaped(rest)[i - n]);
            }
        }
    }
}

/// `s` with every occurrence of the non-empty `pat` replaced by `rep`, scanning from the
/// front and resuming after each replaced occurrence, as `str::replace` does.
pub open spec fn replace_all(s: Seq<char>, pat: Seq<char>, rep: Seq<char>) -> Seq<char>
    decreases s.len(),
{
    if s.len() == 0 || pat.len() == 0 {
        s
    } else if s.len() >= pat.len() && s.subrange(0, pat.len() as int) == pat {
        rep + replace_all(s.subrange(pat.len() as int, s.len() as int), pat, rep)
    } else {
        seq![s[0]] + replace_all(s.subrange(1, s.len() as int), pat, rep)
    }
}

/// XML text decoded by successive replacements: `&lt;` by `<`, then `&gt;` by `>`, then
/// `&amp;` by `&`.
pub open spec fn xml_replaced_back(s: Seq<char>) -> Seq<char> {
    replace_all(replace_all(replace_all(s, "&lt;"@, "<"@), "&gt;"@, ">"@), "&amp;"@, "&"@)
}

/// What character `c` stands as after `stage` of the successive replacements: its entity
/// at first, then `<`, then also `>`, then every character itself.
pub open spec fn staged_char(c: char, stage: nat) -> Seq<char> {
    if stage == 0 {
        xml_char(c)
    } else if stage == 1 {
        if c == '<' { seq![c] } else { xml_char(c) }
    } else if stage == 2 {
        if c == '<' || c == '>' { seq![c] } else { xml_char(c) }
    } else {
        seq![c]
    }
}

/// The text as it stands after `stage` of the successive replacements.
pub open spec fn staged_text(t: Seq<char>, stage: nat) -> Seq<char>
    decreases t.len(),
{
    if t.len() == 0 {
        Seq::empty()
    } else {
        staged_char(t[0], stage) + staged_text(t.subrange(1, t.len() as int), stage)
    }
}

/// The pattern replaced in `stage`, and what replaces it.
pub open spec fn stage_pattern(stage: nat) -> (Seq<char>, Seq<char>) {
    if stage == 0 {
        ("&lt;"@, "<"@)
    } else if stage == 1 {
        ("&gt;"@, ">"@)
    } else {
        ("&amp;"@, "&"@)
    }
}

proof fn lemma_replace_piece(p: Seq<char>, x: Seq<char>, pat: Seq<char>, rep: Seq<char>)
    requires
        p.len() > 0,
        pat.len() > 0,
        pat[0] == '&',
        forall|i: int| 1 <= i < p.len() ==> p[i] != '&',
        p[0] == '&' ==> p == pat || (p.len() >= pat.len() && p.subrange(0, pat.len() as int) != pat),
    ensures
        replace_all(p + x, pat, rep) == (if p == pat { rep } else { p }) + replace_all(x, pat, rep),
    decreases p.len(),
{
    let s = p + x;
    if p == pat {
        assert(s.subrange(0, pat.len() as int) =~= pat);
        assert(s.subrange(pat.len() as int, s.len() as int) =~= x);
    } else {
        if p[0] == '&' {
            assert(s.subrange(0, pat.len() as int) =~= p.subrange(0, pat.len() as int));
        } else {
            assert(s.len() >= pat.len() ==> s.subrange(0, pat.len() as int)[0] != pat[0]);
        }
        let q = p.subrange(1, p.len() as int);
        assert(s.subrange(1, s.len() as int) =~= q + x);
        if p.len() == 1 {
            assert(q + x =~= x);
            assert(seq![p[0]] =~= p);
        } else {
            assert(q[0] == p[1]);
            lemma_replace_piece(q, x, pat, rep);
            assert(seq![p[0]] + (q + replace_all(x, pat, rep)) =~= p + replace_all(x, pat, rep));
        }
    }
}

proof fn lemma_replace_stage(t: Seq<char>, stage: nat)
    requires
        stage < 3,
    ensures
        replace_all(staged_text(t, stage), stage_pattern(stage).0, stage_pattern(stage).1) == staged_text(
            t,
            stage + 1,
        ),
    decreases t.len(),
{
    reveal_strlit("&amp;");
    reveal_strlit("&lt;");
    reveal_strlit("&gt;");
    reveal_strlit("<");
    reveal_strlit(">");
    reveal_strlit("&");
    let (pat, rep) = stage_pattern(stage);
    if t.len() == 0 {
        assert(staged_text(t, stage) =~= Seq::<char>::empty());
    } else {
        let c = t[0];
        let rest = t.subrange(1, t.len() as int);
        let p = staged_char(c, stage);
        lemma_replace_stage(rest, stage);
        assert(p.len() > 0);
        assert(forall|i: int| 1 <= i < p.len() ==> p[i] != '&');
        if p[0] == '&' {
            if p != pat {
                assert(p.len() >= pat.len());
                if p.subrange(0, pat.len() as int) == pat {
                    assert(p.subrange(0, pat.len() as int)[1] == pat[1]);
                    assert(p.subrange(0, pat.len() as int)[2] == pat[2]);
                }
            }
        }
        lemma_replace_piece(p, staged_text(rest, stage), pat, rep);
        if (stage == 0 && c == '<') || (stage == 1 && c == '>') || (stage == 2 && c == '&') {
            assert(p =~= pat);
            assert(rep =~= staged_char(c, stage + 1));
        } else {
            assert(p.len() != pat.len() || p[1] != pat[1]);
            assert(p != pat);
            assert(p =~= staged_char(c, stage + 1));
        }
        assert((if p == pat { rep } else { p }) == staged_char(c, stage + 1));
    }
}

proof fn lemma_staged_ends(t: Seq<char>)
    ensures
        staged_text(t, 0) == xml_escaped(t),
        staged_text(t, 3) == t,
    decreases t.len(),
{
    if t.len() > 0 {
        let rest = t.subrange(1, t.len() as int);
        lemma_staged_ends(rest);
        assert(t =~= seq![t[0]] + rest);
        lemma_xml_escaped_front(t[0], rest);
    } else {
        assert(t =~= Seq::<char>::empty());
    }
}

/// Decoding escaped text by successive replacements (`&lt;`, then `&gt;`, then `&amp;`)
/// gives the text back.
pub proof fn lemma_xml_escape_replacement_round_trip(text: Seq<char>)
    ensures
        xml_replaced_back(xml_escaped(text)) == text,
{
    lemma_staged_ends(text);
    lemma_replace_stage(text, 0);
    lemma_replace_stage(text, 1);
    lemma_replace_stage(text, 2);
}

/// The text with `&`, `<` and `>` written as XML entities, for SVG text content.
pub fn escape_xml_text(text: &str) -> (escaped: String)
    ensures
        escaped@ == xml_escaped(text@),
{
    let n = text.unicode_len();
    let mut out = String::new();
    let mut i: usize = 0;
    while i < n
        invariant
            n == text@.len(),
            i <= n,
            out@ == xml_escaped(text@.subrange(0, i as int)),
        decreases n - i,
    {
        let c = text.get_char(i);
        proof {
            let prefix = text@.subrange(0, i as int + 1);
            assert(prefix.drop_last() =~= text@.subrange(0, i as int));
            assert(prefix.last() == c);
        }
        if c == '&' {
            out.append("&amp;");
        } else if c == '<' {
            out.append("&lt;");
        } else if c == '>' {
            out.append("&gt;");
        } else {
            let one = text.substring_char(i, i + 1);
            assert(one@ =~= seq![c]);
            out.append(one);
        }
        i = i + 1;
    }
    assert(text@.subrange(0, n as int) =~= text@);
    out
}

/// Which layers the export includes: those known before stay as they are; each new layer
/// is included only if it is the first.
pub open spec fn extended_selection(selected: Seq<bool>, layer_count: nat) -> Seq<bool> {
    if selected.len() < layer_count {
        selected + Seq::new((layer_count - selected.len()) as nat, |i: int| selected.len() + i == 0)
    } else {
        selected
    }
}

impl EntropyApp {
    /// Makes the export selection cover `layer_count` layers; returns whether the settings
    /// changed, so that the caller saves them.
    pub fn ensure_layout_image_export_layers(&mut self, layer_count: usize) -> (changed: bool)
        ensures
            changed == (old(self).app_settings.layout_image_export_selected_layers@.len() < layer_count),
            final(self).app_settings.layout_image_export_selected_layers@ == extended_selection(
                old(self).app_settings.layout_image_export_selected_layers@,
                layer_count as nat,
            ),
            *final(self) == (EntropyApp {
                app_settings: final(self).app_settings,
                ..*old(self)
            }),
            final(self).app_settings == (crate::app::AppSettings {
                layout_image_export_selected_layers: final(self).app_settings.layout_image_export_selected_layers,
                ..old(self).app_settings
            }),
    {
        let previous_len = self.app_settings.layout_image_export_selected_layers.len();
        if previous_len >= layer_count {
            return false;
        }
        let ghost before = self.app_settings.layout_image_export_selected_layers@;
        let mut selected: Vec<bool> = Vec::new();
        std::mem::swap(&mut selected, &mut self.app_settings.layout_image_export_selected_layers);
        let mut idx = previous_len;
        while idx < layer_count
            invariant
                previous_len == before.len(),
                previous_len <= idx <= layer_count,
                selected@ == extended_selection(before, idx as nat),
            decreases layer_count - idx,
        {
            selected.push(idx == 0);
            idx = idx + 1;
            assert(selected@ =~= extended_selection(before, idx as nat));
        }
        self.app_settings.layout_image_export_selected_layers = selected;
        true
    }

    /// Opens the layout-image export page, with the selection covering every layer.
    pub fn open_layout_image_export_page(&mut self) -> (settings_changed: bool)
        ensures
            ({
                let count: usize = if old(self).layer_count >= 1 { old(self).layer_count } else { 1 };
                &&& settings_changed == (old(self).app_settings.layout_image_export_selected_layers@.len() < count)
                &&& final(self).app_settings.layout_image_export_selected_layers@ == extended_selection(
                    old(self).app_settings.layout_image_export_selected_layers@,
                    count as nat,
                )
            }),
            final(self).settings_tab == SettingsTab::LayoutImageExport,
            final(self).main_menu_tab == MainMenuTab::Settings,
            *final(self) == (EntropyApp {
                app_settings: final(self).app_settings,
                settings_tab: SettingsTab::LayoutImageExport,
                main_menu_tab: MainMenuTab::Settings,
                ..*old(self)
            }),
    {
        let layer_count = if self.layer_count >= 1 { self.layer_count } else { 1 };
        let changed = self.ensure_layout_image_export_layers(layer_count);
        self.settings_tab = SettingsTab::LayoutImageExport;
        self.main_menu_tab = MainMenuTab::Settings;
        changed
    }
}


/// The encoders of an exported layer, one entry per physical encoder: its firmware index
/// and the positions, in the layout's encoder list, of its two turning directions.
#[derive(Clone, Copy, Debug, PartialEq, Eq)]
pub struct ExportEncoderMembers {
    pub encoder_idx: u8,
    /// The slot turning counter-clockwise (direction 0).
    pub ccw: Option<usize>,
    /// The slot turning clockwise (any other direction).
    pub cw: Option<usize>,
}

/// Whether slot `i` of the encoder list is drawn: the layout and module conditions that
/// `shown` records pass, and the user has not hidden its encoder (an encoder past the end
/// of `visibility` counts as visible).
pub open spec fn encoder_slot_shown(
    encoders: Seq<PhysicalEncoder>,
    shown: Seq<bool>,
    visibility: Seq<bool>,
    i: int,
) -> bool {
    &&& shown[i]
    &&& (encoders[i].encoder_idx < visibility.len() ==> visibility[encoders[i].encoder_idx as int])
}

/// Whether slot `i` is a drawn slot of encoder `idx`.
pub open spec fn drawn_slot_of(
    encoders: Seq<PhysicalEncoder>,
    shown: Seq<bool>,
    visibility: Seq<bool>,
    i: int,
    idx: u8,
) -> bool {
    &&& 0 <= i < encoders.len()
    &&& encoder_slot_shown(encoders, shown, visibility, i)
    &&& encoders[i].encoder_idx == idx
}

/// The first drawn slot of encoder `idx` among the first `n` slots, or `n` if none is.
pub open spec fn first_drawn_slot(
    encoders: Seq<PhysicalEncoder>,
    shown: Seq<bool>,
    visibility: Seq<bool>,
    idx: u8,
    n: nat,
) -> nat
    decreases n,
{
    if n == 0 {
        0
    } else {
        let f = first_drawn_slot(encoders, shown, visibility, idx, (n - 1) as nat);
        if f < n - 1 {
            f
        } else if drawn_slot_of(encoders, shown, visibility, n - 1, idx) {
            (n - 1) as nat
        } else {
            n
        }
    }
}

/// The last drawn slot of encoder `idx` among the first `n` slots that turns
/// counter-clockwise (`ccw`) or clockwise (`!ccw`).
pub open spec fn last_drawn_slot(
    encoders: Seq<PhysicalEncoder>,
    shown: Seq<bool>,
    visibility: Seq<bool>,
    idx: u8,
    ccw: bool,
    n: nat,
) -> Option<usize>
    decreases n,
{
    if n == 0 {
        None
    } else if drawn_slot_of(encoders, shown, visibility, n - 1, idx) && (encoders[n - 1].direction
        == 0) == ccw {
        Some((n - 1) as usize)
    } else {
        last_drawn_slot(encoders, shown, visibility, idx, ccw, (n - 1) as nat)
    }
}

/// An entry that is right for the first `n` slots: its encoder has a drawn slot there, and
/// each direction names the last drawn slot turning that way.
pub open spec fn members_of_prefix(
    encoders: Seq<PhysicalEncoder>,
    shown: Seq<bool>,
    visibility: Seq<bool>,
    m: ExportEncoderMembers,
    n: nat,
) -> bool {
    &&& first_drawn_slot(encoders, shown, visibility, m.encoder_idx, n) < n
    &&& m.ccw == last_drawn_slot(encoders, shown, visibility, m.encoder_idx, true, n)
    &&& m.cw == last_drawn_slot(encoders, shown, visibility, m.encoder_idx, false, n)
}

proof fn lemma_first_drawn_slot(
    encoders: Seq<PhysicalEncoder>,
    shown: Seq<bool>,
    visibility: Seq<bool>,
    idx: u8,
    n: nat,
)
    requires
        n <= encoders.len(),
    ensures
        first_drawn_slot(encoders, shown, visibility, idx, n) <= n,
        first_drawn_slot(encoders, shown, visibility, idx, n) < n ==> drawn_slot_of(
            encoders,
            shown,
            visibility,
            first_drawn_slot(encoders, shown, visibility, idx, n) as int,
            idx,
        ),
        forall|j: int|
            0 <= j < first_drawn_slot(encoders, shown, visibility, idx, n) && j < n ==> !drawn_slot_of(
                encoders,
                shown,
                visibility,
                j,
                idx,
            ),
        first_drawn_slot(encoders, shown, visibility, idx, n) == n ==> last_drawn_slot(
            encoders,
            shown,
            visibility,
            idx,
            true,
            n,
        ) is None && last_drawn_slot(encoders, shown, visibility, idx, false, n) is None,
    decreases n,
{
    if n > 0 {
        lemma_first_drawn_slot(encoders, shown, visibility, idx, (n - 1) as nat);
    }
}

/// Groups the encoder slots of an exported layer by physical encoder, in the order in which
/// each encoder's first drawn slot comes; slots that are not drawn are left out. `shown`
/// holds, slot by slot, whether the layout and module conditions let it be drawn;
/// `visibility` is the user's choice of visible encoders, by firmware index.
pub fn export_encoder_members(
    encoders: &Vec<PhysicalEncoder>,
    shown: &Vec<bool>,
    visibility: &Vec<bool>,
) -> (groups: Vec<ExportEncoderMembers>)
    requires
        shown.len() == encoders.len(),
    ensures
        forall|g: int|
            0 <= g < groups.len() ==> #[trigger] members_of_prefix(
                encoders@,
                shown@,
                visibility@,
                groups@[g],
                encoders.len() as nat,
            ),
        forall|g1: int, g2: int|
            0 <= g1 < g2 < groups.len() ==> first_drawn_slot(
                encoders@,
                shown@,
                visibility@,
                #[trigger] groups@[g1].encoder_idx,
                encoders.len() as nat,
            ) < first_drawn_slot(
                encoders@,
                shown@,
                visibility@,
                #[trigger] groups@[g2].encoder_idx,
                encoders.len() as nat,
            ),
        forall|i: int|
            0 <= i < encoders.len() && #[trigger] encoder_slot_shown(encoders@, shown@, visibility@, i)
                ==> exists|g: int|
                0 <= g < groups.len() && groups@[g].encoder_idx == encoders@[i].encoder_idx,
{
    let mut groups: Vec<ExportEncoderMembers> = Vec::new();
    let mut k: usize = 0;
    while k < encoders.len()
        invariant
            k <= encoders.len(),
            shown.len() == encoders.len(),
            forall|g: int|
                0 <= g < groups.len() ==> #[trigger] members_of_prefix(
                    encoders@,
                    shown@,
                    visibility@,
                    groups@[g],
                    k as nat,
                ),
            forall|g1: int, g2: int|
                0 <= g1 < g2 < groups.len() ==> first_drawn_slot(
                    encoders@,
                    shown@,
                    visibility@,
                    #[trigger] groups@[g1].encoder_idx,
                    k as nat,
                ) < first_drawn_slot(
                    encoders@,
                    shown@,
                    visibility@,
                    #[trigger] groups@[g2].encoder_idx,
                    k as nat,
                ),
            forall|i: int|
                0 <= i < k && #[trigger] encoder_slot_shown(encoders@, shown@, visibility@, i)
                    ==> exists|g: int|
                    0 <= g < groups.len() && groups@[g].encoder_idx == encoders@[i].encoder_idx,
        decreases encoders.len() - k,
    {
        let e = encoders[k];
        let user_hidden = (e.encoder_idx as usize) < visibility.len()
            && !visibility[e.encoder_idx as usize];
        let ghost before = groups@;
        proof {
            assert forall|g: int| 0 <= g < before.len() implies first_drawn_slot(
                encoders@,
                shown@,
                visibility@,
                before[g].encoder_idx,
                k as nat,
            ) < k by {
                assert(members_of_prefix(encoders@, shown@, visibility@, before[g], k as nat));
            }
        }
        if shown[k] && !user_hidden {
            assert(encoder_slot_shown(encoders@, shown@, visibility@, k as int));
            let mut p: usize = 0;
            while p < groups.len() && groups[p].encoder_idx != e.encoder_idx
                invariant
                    p <= groups.len(),
                    forall|q: int| 0 <= q < p ==> groups@[q].encoder_idx != e.encoder_idx,
                decreases groups.len() - p,
            {
                p = p + 1;
            }
            if p < groups.len() {
                let mut m = groups[p];
                if e.direction == 0 {
                    m.ccw = Some(k);
                } else {
                    m.cw = Some(k);
                }
                groups.set(p, m);
                proof {
                    assert forall|g: int| 0 <= g < groups.len() && g != p implies before[g].encoder_idx
                        != e.encoder_idx by {
                        if g < p {
                            assert(first_drawn_slot(encoders@, shown@, visibility@, before[g].encoder_idx, k as nat)
                                < first_drawn_slot(encoders@, shown@, visibility@, before[p as int].encoder_idx, k as nat));
                        } else {
                            assert(first_drawn_slot(encoders@, shown@, visibility@, before[p as int].encoder_idx, k as nat)
                                < first_drawn_slot(encoders@, shown@, visibility@, before[g].encoder_idx, k as nat));
                        }
                    }
                    assert forall|g: int| 0 <= g < groups.len() implies #[trigger] members_of_prefix(
                        encoders@,
                        shown@,
                        visibility@,
                        groups@[g],
                        (k + 1) as nat,
                    ) by {
                        assert(members_of_prefix(encoders@, shown@, visibility@, before[g], k as nat));
                    }
                    assert forall|i: int|
                        0 <= i < k + 1 && #[trigger] encoder_slot_shown(encoders@, shown@, visibility@, i)
                            implies exists|g: int|
                            0 <= g < groups.len() && groups@[g].encoder_idx == encoders@[i].encoder_idx by {
                        if i < k {
                            let g = choose|g: int|
                                0 <= g < before.len() && before[g].encoder_idx == encoders@[i].encoder_idx;
                            assert(groups@[g].encoder_idx == before[g].encoder_idx);
                        } else {
                            assert(groups@[p as int].encoder_idx == encoders@[i].encoder_idx);
                        }
                    }
                }
            } else {
                proof {
                    lemma_first_drawn_slot(encoders@, shown@, visibility@, e.encoder_idx, k as nat);
                    let f = first_drawn_slot(encoders@, shown@, visibility@, e.encoder_idx, k as nat);
                    if f < k {
                        assert(encoder_slot_shown(encoders@, shown@, visibility@, f as int));
                        let g = choose|g: int|
                            0 <= g < before.len() && before[g].encoder_idx == encoders@[f as int].encoder_idx;
                        assert(before[g].encoder_idx != e.encoder_idx);
                    }
                    assert(f == k);
                }
                groups.push(
                    ExportEncoderMembers {
                        encoder_idx: e.encoder_idx,
                        ccw: if e.direction == 0 { Some(k) } else { None },
                        cw: if e.direction == 0 { None } else { Some(k) },
                    },
                );
                proof {
                    assert forall|g: int| 0 <= g < groups.len() implies #[trigger] members_of_prefix(
                        encoders@,
                        shown@,
                        visibility@,
                        groups@[g],
                        (k + 1) as nat,
                    ) by {
                        if g < before.len() {
                            assert(members_of_prefix(encoders@, shown@, visibility@, before[g], k as nat));
                            assert(groups@[g] == before[g]);
                        }
                    }
                    assert forall|i: int|
                        0 <= i < k + 1 && #[trigger] encoder_slot_shown(encoders@, shown@, visibility@, i)
                            implies exists|g: int|
                            0 <= g < groups.len() && groups@[g].encoder_idx == encoders@[i].encoder_idx by {
                        if i < k {
                            let g = choose|g: int|
                                0 <= g < before.len() && before[g].encoder_idx == encoders@[i].encoder_idx;
                            assert(groups@[g] == before[g]);
                        } else {
                            assert(groups@[before.len() as int].encoder_idx == encoders@[i].encoder_idx);
                        }
                    }
                }
            }
        } else {
            proof {
                assert(!encoder_slot_shown(encoders@, shown@, visibility@, k as int));
                assert forall|g: int| 0 <= g < groups.len() implies #[trigger] members_of_prefix(
                    encoders@,
                    shown@,
                    visibility@,
                    groups@[g],
                    (k + 1) as nat,
                ) by {
                    assert(members_of_prefix(encoders@, shown@, visibility@, groups@[g], k as nat));
                }
            }
        }
        k = k + 1;
    }
    groups
}

/// The layers among the first `n` that the export selection marks, in order.
pub open spec fn marked_layers(selected: Seq<bool>, n: nat) -> Seq<usize>
    decreases n,
{
    if n == 0 {
        Seq::empty()
    } else {
        let before = marked_layers(selected, (n - 1) as nat);
        if n - 1 < selected.len() && selected[n - 1] {
            before.push((n - 1) as usize)
        } else {
            before
        }
    }
}

/// The number of layers an export may cover: the keyboard's layer count or the layout's,
/// whichever is larger, and at least one.
pub open spec fn export_layer_span(layer_count: usize, layout_layers: nat) -> nat {
    let m = if layer_count >= layout_layers { layer_count as nat } else { layout_layers };
    if m >= 1 { m } else { 1 }
}

impl EntropyApp {
    /// The layers a layout-image export renders: those the selection marks among the
    /// layers the keyboard has. Without a layout there is nothing to export; with no layer
    /// marked the status asks the user to select one.
    pub fn layout_image_export_layers(&mut self) -> (layers: Option<Vec<usize>>)
        ensures
            match old(self).layout {
                None => layers is None && *final(self) == *old(self),
                Some(layout) => {
                    let marked = marked_layers(
                        old(self).app_settings.layout_image_export_selected_layers@,
                        export_layer_span(old(self).layer_count, layout.layers@.len()),
                    );
                    if marked.len() == 0 {
                        layers is None && final(self).status_msg == StatusMessage::Literal(
                            export_text_of(old(self).app_settings.language, "select_layer"@),
                        ) && *final(self) == (EntropyApp { status_msg: final(self).status_msg, ..*old(self) })
                    } else {
                        layers matches Some(v) && v@ == marked && *final(self) == *old(self)
                    }
                },
            },
    {
        let layout_layers = match &self.layout {
            Some(layout) => layout.layers.len(),
            None => return None,
        };
        let span = if self.layer_count >= layout_layers { self.layer_count } else { layout_layers };
        let span = if span >= 1 { span } else { 1 };
        let selected = &self.app_settings.layout_image_export_selected_layers;
        let mut layers: Vec<usize> = Vec::new();
        let mut i: usize = 0;
        while i < span
            invariant
                i <= span,
                layers@ == marked_layers(selected@, i as nat),
            decreases span - i,
        {
            if i < selected.len() && selected[i] {
                layers.push(i);
            }
            i = i + 1;
        }
        if layers.len() == 0 {
            self.status_msg = StatusMessage::Literal(export_text(self.app_settings.language, "select_layer"));
            return None;
        }
        Some(layers)
    }
}

} // verus!
