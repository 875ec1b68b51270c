//! The layer-LED settings page: which rows it shows and how it names each layer.
use vstd::prelude::*;

use crate::app::{EntropyApp, StatusMessage};
use crate::keyboard::Language;
use crate::layout_image_export::layer_name_of;
use crate::text::{decimal_digits, decimal_string, str_eq, trim};

verus! {

/// A numeric layer-LED setting: its settings id, its width in bytes, its value and its
/// highest value.
#[derive(Clone, Copy, Debug, PartialEq, Eq)]
pub struct LayerLedNumericSetting {
    pub qsid: u16,
    pub width: u8,
    pub value: u16,
    pub max: u16,
}

/// A colour of the layer LEDs: the settings ids it is written to, and the palette index.
#[derive(Clone, Debug, PartialEq, Eq)]
pub struct LayerLedColorSetting {
    pub qsids: Vec<u16>,
    pub value: u8,
}

/// The layer-LED settings the keyboard reports.
#[derive(Clone, Debug)]
pub struct LayerLedSettings {
    pub supported: bool,
    pub brightness: Option<LayerLedNumericSetting>,
    pub timeout: Option<LayerLedNumericSetting>,
    pub bt_profile_colors: Vec<LayerLedColorSetting>,
    pub layer_colors: Vec<LayerLedColorSetting>,
}

/// A row of the layer-LED settings page.
#[derive(Clone, Copy, Debug, PartialEq, Eq, Structural)]
pub enum LayerLedRow {
    Brightness,
    Timeout,
    BtProfileColor(usize),
    LayerColor(usize),
}

/// The rows of the page: brightness and timeout where the keyboard has them, then a colour
/// row for each Bluetooth profile and for each layer.
pub open spec fn led_rows(s: LayerLedSettings) -> Seq<LayerLedRow> {
    (if s.brightness is Some { seq![LayerLedRow::Brightness] } else { Seq::empty() })
        + (if s.timeout is Some { seq![LayerLedRow::Timeout] } else { Seq::empty() })
        + Seq::new(s.bt_profile_colors@.len(), |i: int| LayerLedRow::BtProfileColor(i as usize))
        + Seq::new(s.layer_colors@.len(), |i: int| LayerLedRow::LayerColor(i as usize))
}

/// The caption of a layer's colour row: `Layer N: name` with at most 22 characters of
/// the layer's own name (when it has one other than its number), else `Layer N color`, in
/// the user's language.
pub open spec fn layer_led_label_of(lang: Language, layer_names: Seq<String>, layer: usize) -> Seq<char> {
    let raw = layer_name_of(layer_names, layer);
    let number = decimal_digits(layer as nat);
    if raw.len() > 0 && raw != number {
        let visible = if raw.len() > 22 { raw.take(22) } else { raw };
        if lang is Russian {
            "Слой "@ + number + ": "@ + visible
        } else {
            "Layer "@ + number + ": "@ + visible
        }
    } else if lang is Russian {
        "Цвет слоя "@ + number
    } else {
        "Layer "@ + number + " color"@
    }
}

impl EntropyApp {
    /// The rows of the layer-LED settings page, in order.
    pub fn layer_led_rows(&self) -> (rows: Vec<LayerLedRow>)
        ensures
            rows@ == led_rows(self.layer_led_settings),
    {
        let s = &self.layer_led_settings;
        let mut rows: Vec<LayerLedRow> = Vec::new();
        if s.brightness.is_some() {
            rows.push(LayerLedRow::Brightness);
        }
        if s.timeout.is_some() {
            rows.push(LayerLedRow::Timeout);
        }
        let ghost head = rows@;
        let mut i: usize = 0;
        while i < s.bt_profile_colors.len()
            invariant
                i <= s.bt_profile_colors@.len(),
                rows@ == head + Seq::new(i as nat, |j: int| LayerLedRow::BtProfileColor(j as usize)),
            decreases s.bt_profile_colors@.len() - i,
        {
            rows.push(LayerLedRow::BtProfileColor(i));
            i = i + 1;
            assert(rows@ =~= head + Seq::new(i as nat, |j: int| LayerLedRow::BtProfileColor(j as usize)));
        }
        let ghost middle = rows@;
        let mut k: usize = 0;
        while k < s.layer_colors.len()
            invariant
                k <= s.layer_colors@.len(),
                rows@ == middle + Seq::new(k as nat, |j: int| LayerLedRow::LayerColor(j as usize)),
            decreases s.layer_colors@.len() - k,
        {
            rows.push(LayerLedRow::LayerColor(k));
            k = k + 1;
            assert(rows@ =~= middle + Seq::new(k as nat, |j: int| LayerLedRow::LayerColor(j as usize)));
        }
        assert(rows@ =~= led_rows(self.layer_led_settings));
        rows
    }

    /// The caption of a layer's colour row (see `layer_led_label_of`).
    pub fn layer_led_layer_label(&self, layer: usize) -> (label: String)
        ensures
            label@ == layer_led_label_of(self.app_settings.language, self.layer_names@, layer),
    {
        let raw: &str = if layer < self.layer_names.len() {
            trim(self.layer_names[layer].as_str())
        } else {
            proof {
                reveal_strlit("");
            }
            ""
        };
        let number = decimal_string(layer);
        let russian = matches!(self.app_settings.language, Language::Russian);
        let n = raw.unicode_len();
        if n > 0 && !str_eq(raw, number.as_str()) {
            let visible = if n > 22 { raw.substring_char(0, 22) } else { raw };
            let mut label = if russian { String::from_str("Слой ") } else { String::from_str("Layer ") };
            label.append(number.as_str());
            label.append(": ");
            label.append(visible);
            return label;
        }
        if russian {
            let mut label = String::from_str("Цвет слоя ");
            label.append(number.as_str());
            label
        } else {
            let mut label = String::from_str("Layer ");
            label.append(number.as_str());
            label.append(" color");
            label
        }
    }
}


/// Whether `status` reports the last failure among `answers`, or is `before` when every
/// write succeeded.
pub open spec fn reports_last_failure(
    status: StatusMessage,
    before: StatusMessage,
    what: Seq<char>,
    answers: Seq<Result<(), String>>,
) -> bool
    decreases answers.len(),
{
    if answers.len() == 0 {
        status == before
    } else {
        match answers.last() {
            Err(e) => status matches StatusMessage::SaveFailed { what: w, error } && w@ == what
                && error == e,
            Ok(()) => reports_last_failure(status, before, what, answers.drop_last()),
        }
    }
}

/// The value a one-byte setting takes of a numeric value: at most 255.
pub open spec fn byte_value(value: u16) -> u8 {
    if value < 255 { value as u8 } else { 255u8 }
}

impl EntropyApp {
    /// Writes a layer-LED colour to each of its settings ids through `set_u8`, when a
    /// keyboard is connected; every id is written even after a failure, and the status
    /// bar reports the last failure.
    pub fn write_layer_led_color<F: Fn(u16, u8) -> Result<(), String>>(
        &mut self,
        qsids: &[u16],
        value: u8,
        set_u8: &F,
    )
        requires
            forall|q: u16, v: u8| call_requires(*set_u8, (q, v)),
        ensures
            !old(self).hid_connected ==> *final(self) == *old(self),
            old(self).hid_connected ==> *final(self) == (EntropyApp {
                status_msg: final(self).status_msg,
                ..*old(self)
            }) && exists|answers: Seq<Result<(), String>>|
                answers.len() == qsids@.len() && (forall|i: int|
                    0 <= i < answers.len() ==> call_ensures(
                        *set_u8,
                        (qsids@[i], value),
                        #[trigger] answers[i],
                    )) && reports_last_failure(
                    final(self).status_msg,
                    old(self).status_msg,
                    "Layer LED color"@,
                    answers,
                ),
    {
        if !self.hid_connected {
            return ;
        }
        let ghost mut answers: Seq<Result<(), String>> = Seq::empty();
        let mut i: usize = 0;
        while i < qsids.len()
            invariant
                forall|q: u16, v: u8| call_requires(*set_u8, (q, v)),
                i <= qsids@.len(),
                answers.len() == i,
                *self == (EntropyApp { status_msg: self.status_msg, ..*old(self) }),
                forall|j: int|
                    0 <= j < answers.len() ==> call_ensures(
                        *set_u8,
                        (qsids@[j], value),
                        #[trigger] answers[j],
                    ),
                reports_last_failure(self.status_msg, old(self).status_msg, "Layer LED color"@, answers),
            decreases qsids@.len() - i,
        {
            let answer = set_u8(qsids[i], value);
            let ghost prev = answers;
            proof {
                answers = answers.push(answer);
                assert(answers.drop_last() =~= prev);
            }
            if let Err(e) = answer {
                self.status_msg = StatusMessage::SaveFailed { what: String::from_str("Layer LED color"), error: e };
            }
            i = i + 1;
        }
    }

    /// Writes a numeric layer-LED setting, when a keyboard is connected: as two bytes
    /// through `set_u16` when the setting is wider than one byte, else as one byte (at most
    /// 255) through `set_u8`. A failure is reported in the status bar with `label`.
    pub fn write_layer_led_numeric<
        F: Fn(u16, u8) -> Result<(), String>,
        G: Fn(u16, u16) -> Result<(), String>,
    >(&mut self, qsid: u16, width: u8, value: u16, label: &str, set_u8: &F, set_u16: &G)
        requires
            call_requires(*set_u8, (qsid, byte_value(value))),
            call_requires(*set_u16, (qsid, value)),
        ensures
            !old(self).hid_connected ==> *final(self) == *old(self),
            old(self).hid_connected ==> *final(self) == (EntropyApp {
                status_msg: final(self).status_msg,
                ..*old(self)
            }) && exists|answer: Result<(), String>|
                #![trigger seq![answer]]
                (if width > 1 {
                    call_ensures(*set_u16, (qsid, value), answer)
                } else {
                    call_ensures(*set_u8, (qsid, byte_value(value)), answer)
                }) && reports_last_failure(
                    final(self).status_msg,
                    old(self).status_msg,
                    label@,
                    seq![answer],
                ),
    {
        if !self.hid_connected {
            return ;
        }
        let answer = if width > 1 {
            set_u16(qsid, value)
        } else {
            let byte: u8 = if value < 255 { value as u8 } else { 255 };
            set_u8(qsid, byte)
        };
        proof {
            assert(seq![answer].drop_last() =~= Seq::<Result<(), String>>::empty());
        }
        if let Err(e) = answer {
            self.status_msg = StatusMessage::SaveFailed { what: String::from_str(label), error: e };
        }
        proof {
            if answer is Ok {
                assert(reports_last_failure(
                    self.status_msg,
                    old(self).status_msg,
                    label@,
                    Seq::<Result<(), String>>::empty(),
                ));
            }
        }
        assert(reports_last_failure(self.status_msg, old(self).status_msg, label@, seq![answer]));
    }
}

} // verus!
