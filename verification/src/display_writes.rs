//! Edits of the display settings and the queue of setting writes they request.
use vstd::prelude::*;

use crate::app::EntropyApp;
use crate::display_settings::DisplaySettingsState;

verus! {

/// A setting of the device's display, as the settings protocol addresses it.
#[derive(Clone, Copy, Debug, PartialEq, Eq, Structural)]
pub enum DisplaySettingId {
    Brightness,
    ButtonStyle,
    ClockStyle,
    ClockSize,
    ClockAlignment,
    ClockDelay,
    DisplayTimeout,
    ClockColonBlink,
    ClockBackgroundDim,
    /// An element of the date display, by its index.
    Date(usize),
    /// A channel (0 red, 1 green, 2 blue) of a colour: 0 the accent, 1 the background,
    /// 2 the clock text, 3 the clock background, 4 the clock info, 5 the modifiers colour.
    Color { kind: u8, channel: u8 },
}

/// A write of one setting to the device, waiting to be sent.
#[derive(Clone, Copy, Debug, PartialEq, Eq)]
pub struct SettingsWrite {
    /// The message-catalog key of the setting's name, for the status bar.
    pub label: &'static str,
    pub setting: DisplaySettingId,
    /// The value the device last confirmed.
    pub confirmed: u16,
    /// The value to write.
    pub requested: u16,
}

/// The value the latest queued write of `setting` requests, if any.
pub open spec fn pending_value(pending: Seq<SettingsWrite>, setting: DisplaySettingId) -> Option<u16>
    decreases pending.len(),
{
    if pending.len() == 0 {
        None
    } else if pending.last().setting == setting {
        Some(pending.last().requested)
    } else {
        pending_value(pending.drop_last(), setting)
    }
}

/// The value the device will hold once the queue is sent: the latest queued request, or
/// the confirmed value.
pub open spec fn displayed_value(pending: Seq<SettingsWrite>, setting: DisplaySettingId, confirmed: u16) -> u16 {
    match pending_value(pending, setting) {
        Some(v) => v,
        None => confirmed,
    }
}

/// The queue after requesting `value` for `setting`: a write is queued only where the
/// device would not already end at that value.
pub open spec fn after_request(
    pending: Seq<SettingsWrite>,
    label: &'static str,
    setting: DisplaySettingId,
    confirmed: u16,
    value: u16,
) -> Seq<SettingsWrite> {
    if displayed_value(pending, setting, confirmed) != value {
        pending.push(SettingsWrite { label, setting, confirmed, requested: value })
    } else {
        pending
    }
}


/// After a request, the device will end at the requested value.
pub proof fn lemma_request_reaches_value(
    pending: Seq<SettingsWrite>,
    label: &'static str,
    setting: DisplaySettingId,
    confirmed: u16,
    value: u16,
)
    ensures
        displayed_value(after_request(pending, label, setting, confirmed, value), setting, confirmed)
            == value,
{
    let after = after_request(pending, label, setting, confirmed, value);
    if displayed_value(pending, setting, confirmed) != value {
        assert(after.drop_last() =~= pending);
    }
}

/// Requesting the same value twice queues no more than requesting it once.
pub proof fn lemma_request_idempotent(
    pending: Seq<SettingsWrite>,
    label: &'static str,
    setting: DisplaySettingId,
    confirmed: u16,
    value: u16,
)
    ensures
        after_request(after_request(pending, label, setting, confirmed, value), label, setting, confirmed, value)
            == after_request(pending, label, setting, confirmed, value),
{
    lemma_request_reaches_value(pending, label, setting, confirmed, value);
}

/// The smaller of two values.
pub open spec fn min_u8(a: u8, b: u8) -> u8 {
    if a <= b { a } else { b }
}

/// The catalog key of a colour's name.
pub open spec fn color_label(kind: u8) -> &'static str {
    if kind == 1 {
        "display_settings.background_color"
    } else if kind == 2 {
        "display_settings.clock_text_color"
    } else if kind == 3 {
        "display_settings.clock_background_color"
    } else if kind == 4 {
        "display_settings.clock_info_color"
    } else if kind == 5 {
        "display_settings.clock_modifiers_color"
    } else {
        "display_settings.accent_color"
    }
}

/// The colour of a kind: 1 to 5 as `DisplaySettingId::Color` lists them, any other the
/// accent colour.
pub open spec fn color_of(ds: DisplaySettingsState, kind: u8) -> [u8; 3] {
    if kind == 1 {
        ds.background_color
    } else if kind == 2 {
        ds.clock_text_color
    } else if kind == 3 {
        ds.clock_background_color
    } else if kind == 4 {
        ds.clock_info_color
    } else if kind == 5 {
        ds.clock_modifiers_color
    } else {
        ds.color
    }
}

/// The confirmed colour of a kind.
pub open spec fn confirmed_color_of(ds: DisplaySettingsState, kind: u8) -> [u8; 3] {
    if kind == 1 {
        ds.confirmed_background_color
    } else if kind == 2 {
        ds.confirmed_clock_text_color
    } else if kind == 3 {
        ds.confirmed_clock_background_color
    } else if kind == 4 {
        ds.confirmed_clock_info_color
    } else if kind == 5 {
        ds.confirmed_clock_modifiers_color
    } else {
        ds.confirmed_color
    }
}

/// The settings with the colour of a kind replaced.
pub open spec fn with_color(ds: DisplaySettingsState, kind: u8, c: [u8; 3]) -> DisplaySettingsState {
    if kind == 1 {
        DisplaySettingsState { background_color: c, ..ds }
    } else if kind == 2 {
        DisplaySettingsState { clock_text_color: c, ..ds }
    } else if kind == 3 {
        DisplaySettingsState { clock_background_color: c, ..ds }
    } else if kind == 4 {
        DisplaySettingsState { clock_info_color: c, ..ds }
    } else if kind == 5 {
        DisplaySettingsState { clock_modifiers_color: c, ..ds }
    } else {
        DisplaySettingsState { color: c, ..ds }
    }
}

/// The kind under which a colour is addressed: 1 to 5, or 0 for the accent colour.
pub open spec fn color_slot(kind: u8) -> u8 {
    if 1 <= kind <= 5 { kind } else { 0 }
}

/// The queue after requesting each channel of a colour in turn.
pub open spec fn color_requests(
    pending: Seq<SettingsWrite>,
    kind: u8,
    confirmed: [u8; 3],
    c: [u8; 3],
    upto: int,
) -> Seq<SettingsWrite>
    decreases upto,
{
    if upto <= 0 {
        pending
    } else {
        let i = upto - 1;
        after_request(
            color_requests(pending, kind, confirmed, c, i),
            color_label(kind),
            DisplaySettingId::Color { kind: color_slot(kind), channel: i as u8 },
            confirmed[i] as u16,
            c[i] as u16,
        )
    }
}

/// The date settings after setting the element at `index` to `value`, and the write it
/// queues when the value changes.
pub open spec fn date_edit(
    date: Seq<u8>,
    pending: Seq<SettingsWrite>,
    confirmed_date: Seq<u8>,
    index: usize,
    value: u8,
) -> (Seq<u8>, Seq<SettingsWrite>) {
    if date[index as int] == value {
        (date, pending)
    } else {
        (
            date.update(index as int, value),
            pending.push(
                SettingsWrite {
                    label: "display_settings.date_element",
                    setting: DisplaySettingId::Date(index),
                    confirmed: confirmed_date[index as int] as u16,
                    requested: value as u16,
                },
            ),
        )
    }
}

/// The date settings after setting the three elements from `start` on to the channels of
/// a colour, in order.
pub open spec fn date_color_edit(
    date: Seq<u8>,
    pending: Seq<SettingsWrite>,
    confirmed_date: Seq<u8>,
    start: int,
    c: [u8; 3],
    upto: int,
) -> (Seq<u8>, Seq<SettingsWrite>)
    decreases upto,
{
    if upto <= 0 {
        (date, pending)
    } else {
        let prev = date_color_edit(date, pending, confirmed_date, start, c, upto - 1);
        date_edit(prev.0, prev.1, confirmed_date, (start + upto - 1) as usize, c[upto - 1])
    }
}

/// Whether `app` differs from `old` only in the display settings and the write queue.
#[verifier::opaque]
pub open spec fn only_display_changed(app: EntropyApp, old: EntropyApp) -> bool {
    app == (EntropyApp {
        display_settings: app.display_settings,
        pending_settings_writes: app.pending_settings_writes,
        ..old
    })
}

proof fn lemma_only_display_changed_trans(a: EntropyApp, b: EntropyApp, c: EntropyApp)
    requires
        only_display_changed(a, b),
        only_display_changed(b, c),
    ensures
        only_display_changed(a, c),
{
    reveal(only_display_changed);
}

proof fn lemma_only_display_changed_refl(a: EntropyApp)
    ensures
        only_display_changed(a, a),
{
    reveal(only_display_changed);
}

impl EntropyApp {
    /// The value the latest queued write of `setting` requests, if any.
    pub fn pending_settings_write_value(&self, setting: DisplaySettingId) -> (v: Option<u16>)
        ensures
            v == pending_value(self.pending_settings_writes@, setting),
    {
        let mut i = self.pending_settings_writes.len();
        assert(self.pending_settings_writes@.subrange(0, i as int) =~= self.pending_settings_writes@);
        while i > 0
            invariant
                i <= self.pending_settings_writes@.len(),
                pending_value(self.pending_settings_writes@, setting) == pending_value(
                    self.pending_settings_writes@.subrange(0, i as int),
                    setting,
                ),
            decreases i,
        {
            let w = self.pending_settings_writes[i - 1];
            proof {
                let s = self.pending_settings_writes@.subrange(0, i as int);
                assert(s.drop_last() =~= self.pending_settings_writes@.subrange(0, i - 1));
            }
            if w.setting == setting {
                return Some(w.requested);
            }
            i = i - 1;
        }
        None
    }

    /// Queues a write of `value` to `setting`.
    pub fn queue_display_setting_write(
        &mut self,
        label: &'static str,
        setting: DisplaySettingId,
        confirmed: u16,
        value: u16,
    )
        ensures
            only_display_changed(*final(self), *old(self)),
            final(self).display_settings == old(self).display_settings,
            final(self).pending_settings_writes@ == old(self).pending_settings_writes@.push(
                SettingsWrite { label, setting, confirmed, requested: value },
            ),
    {
        self.pending_settings_writes.push(SettingsWrite { label, setting, confirmed, requested: value });
        proof {
            reveal(only_display_changed);
        }
    }

    /// Requests `value` for `setting`, queueing a write unless the device will already end
    /// at that value.
    fn request_display_setting(
        &mut self,
        label: &'static str,
        setting: DisplaySettingId,
        confirmed: u16,
        value: u16,
    )
        ensures
            only_display_changed(*final(self), *old(self)),
            final(self).display_settings == old(self).display_settings,
            final(self).pending_settings_writes@ == after_request(
                old(self).pending_settings_writes@,
                label,
                setting,
                confirmed,
                value,
            ),
    {
        let displayed = match self.pending_settings_write_value(setting) {
            Some(v) => v,
            None => confirmed,
        };
        if displayed != value {
            self.queue_display_setting_write(label, setting, confirmed, value);
        } else {
            proof {
                lemma_only_display_changed_refl(*self);
            }
        }
    }

    /// Sets an element of the date display, queueing its write when the value changes.
    pub fn apply_date_setting(&mut self, index: usize, value: u8)
        requires
            index < old(self).display_settings.date@.len(),
            old(self).display_settings.date@[index as int] != value ==> index
                < old(self).display_settings.confirmed_date@.len(),
        ensures
            only_display_changed(*final(self), *old(self)),
            if old(self).display_settings.date@[index as int] == value {
                *final(self) == *old(self)
            } else {
                &&& final(self).display_settings == (DisplaySettingsState {
                    date: final(self).display_settings.date,
                    ..old(self).display_settings
                })
                &&& final(self).display_settings.date@ == old(self).display_settings.date@.update(
                    index as int,
                    value,
                )
                &&& final(self).pending_settings_writes@ == old(self).pending_settings_writes@.push(
                    SettingsWrite {
                        label: "display_settings.date_element",
                        setting: DisplaySettingId::Date(index),
                        confirmed: old(self).display_settings.confirmed_date@[index as int] as u16,
                        requested: value as u16,
                    },
                )
            },
    {
        if self.display_settings.date[index] == value {
            proof {
                lemma_only_display_changed_refl(*self);
            }
            return;
        }
        let confirmed = self.display_settings.confirmed_date[index] as u16;
        let ghost start = *self;
        self.set_date_element(index, value);
        let ghost mid = *self;
        self.queue_display_setting_write(
            "display_settings.date_element",
            DisplaySettingId::Date(index),
            confirmed,
            value as u16,
        );
        proof {
            lemma_only_display_changed_trans(*self, mid, start);
        }
    }

    fn set_date_element(&mut self, index: usize, value: u8)
        requires
            index < old(self).display_settings.date@.len(),
        ensures
            only_display_changed(*final(self), *old(self)),
            final(self).pending_settings_writes == old(self).pending_settings_writes,
            final(self).display_settings == (DisplaySettingsState {
                date: final(self).display_settings.date,
                ..old(self).display_settings
            }),
            final(self).display_settings.date@ == old(self).display_settings.date@.update(index as int, value),
    {
        self.display_settings.date.set(index, value);
        proof {
            reveal(only_display_changed);
        }
    }

    fn set_brightness(&mut self, v: u8)
        ensures
            only_display_changed(*final(self), *old(self)),
            final(self).pending_settings_writes == old(self).pending_settings_writes,
            final(self).display_settings == (DisplaySettingsState { brightness: v, ..old(self).display_settings }),
    {
        self.display_settings.brightness = v;
        proof {
            reveal(only_display_changed);
        }
    }

    fn set_clock_background_dim(&mut self, v: u8)
        ensures
            only_display_changed(*final(self), *old(self)),
            final(self).pending_settings_writes == old(self).pending_settings_writes,
            final(self).display_settings == (DisplaySettingsState {
                clock_background_dim: v,
                ..old(self).display_settings
            }),
    {
        self.display_settings.clock_background_dim = v;
        proof {
            reveal(only_display_changed);
        }
    }

    fn set_button_style(&mut self, v: u8)
        ensures
            only_display_changed(*final(self), *old(self)),
            final(self).pending_settings_writes == old(self).pending_settings_writes,
            final(self).display_settings == (DisplaySettingsState { button_style: v, ..old(self).display_settings }),
    {
        self.display_settings.button_style = v;
        proof {
            reveal(only_display_changed);
        }
    }

    fn set_clock_colon_blink(&mut self, v: bool)
        ensures
            only_display_changed(*final(self), *old(self)),
            final(self).pending_settings_writes == old(self).pending_settings_writes,
            final(self).display_settings == (DisplaySettingsState {
                clock_colon_blink: v,
                ..old(self).display_settings
            }),
    {
        self.display_settings.clock_colon_blink = v;
        proof {
            reveal(only_display_changed);
        }
    }

    #[verifier::rlimit(100)]
    fn set_clock_value(&mut self, setting: DisplaySettingId, v: u8)
        ensures
            only_display_changed(*final(self), *old(self)),
            final(self).pending_settings_writes == old(self).pending_settings_writes,
            final(self).display_settings == with_clock_value(old(self).display_settings, setting, v),
    {
        match setting {
            DisplaySettingId::ClockStyle => self.set_clock_style(v),
            DisplaySettingId::ClockSize => self.set_clock_size(v),
            DisplaySettingId::ClockAlignment => self.set_clock_alignment(v),
            DisplaySettingId::ClockDelay => self.set_clock_delay(v),
            _ => self.set_display_timeout(v),
        }
    }

    #[verifier::rlimit(100)]
    fn set_color_value(&mut self, kind: u8, c: [u8; 3])
        ensures
            only_display_changed(*final(self), *old(self)),
            final(self).pending_settings_writes == old(self).pending_settings_writes,
            final(self).display_settings == with_color(old(self).display_settings, kind, c),
    {
        match kind {
            1 => self.set_background_color(c),
            2 => self.set_clock_text_color(c),
            3 => self.set_clock_background_color(c),
            4 => self.set_clock_info_color(c),
            5 => self.set_clock_modifiers_color(c),
            _ => self.set_accent_color(c),
        }
    }
    fn set_clock_style(&mut self, v: u8)
        ensures
            only_display_changed(*final(self), *old(self)),
            final(self).pending_settings_writes == old(self).pending_settings_writes,
            final(self).display_settings == (DisplaySettingsState { clock_style: v, ..old(self).display_settings }),
    {
        self.display_settings.clock_style = v;
        proof {
            reveal(only_display_changed);
        }
    }

    fn set_clock_size(&mut self, v: u8)
        ensures
            only_display_changed(*final(self), *old(self)),
            final(self).pending_settings_writes == old(self).pending_settings_writes,
            final(self).display_settings == (DisplaySettingsState { clock_size: v, ..old(self).display_settings }),
    {
        self.display_settings.clock_size = v;
        proof {
            reveal(only_display_changed);
        }
    }

    fn set_clock_alignment(&mut self, v: u8)
        ensures
            only_display_changed(*final(self), *old(self)),
            final(self).pending_settings_writes == old(self).pending_settings_writes,
            final(self).display_settings == (DisplaySettingsState { clock_alignment: v, ..old(self).display_settings }),
    {
        self.display_settings.clock_alignment = v;
        proof {
            reveal(only_display_changed);
        }
    }

    fn set_clock_delay(&mut self, v: u8)
        ensures
            only_display_changed(*final(self), *old(self)),
            final(self).pending_settings_writes == old(self).pending_settings_writes,
            final(self).display_settings == (DisplaySettingsState { clock_delay: v, ..old(self).display_settings }),
    {
        self.display_settings.clock_delay = v;
        proof {
            reveal(only_display_changed);
        }
    }

    fn set_display_timeout(&mut self, v: u8)
        ensures
            only_display_changed(*final(self), *old(self)),
            final(self).pending_settings_writes == old(self).pending_settings_writes,
            final(self).display_settings == (DisplaySettingsState { display_timeout: v, ..old(self).display_settings }),
    {
        self.display_settings.display_timeout = v;
        proof {
            reveal(only_display_changed);
        }
    }

    fn set_background_color(&mut self, v: [u8; 3])
        ensures
            only_display_changed(*final(self), *old(self)),
            final(self).pending_settings_writes == old(self).pending_settings_writes,
            final(self).display_settings == (DisplaySettingsState { background_color: v, ..old(self).display_settings }),
    {
        self.display_settings.background_color = v;
        proof {
            reveal(only_display_changed);
        }
    }

    fn set_clock_text_color(&mut self, v: [u8; 3])
        ensures
            only_display_changed(*final(self), *old(self)),
            final(self).pending_settings_writes == old(self).pending_settings_writes,
            final(self).display_settings == (DisplaySettingsState { clock_text_color: v, ..old(self).display_settings }),
    {
        self.display_settings.clock_text_color = v;
        proof {
            reveal(only_display_changed);
        }
    }

    fn set_clock_background_color(&mut self, v: [u8; 3])
        ensures
            only_display_changed(*final(self), *old(self)),
            final(self).pending_settings_writes == old(self).pending_settings_writes,
            final(self).display_settings == (DisplaySettingsState { clock_background_color: v, ..old(self).display_settings }),
    {
        self.display_settings.clock_background_color = v;
        proof {
            reveal(only_display_changed);
        }
    }

    fn set_clock_info_color(&mut self, v: [u8; 3])
        ensures
            only_display_changed(*final(self), *old(self)),
            final(self).pending_settings_writes == old(self).pending_settings_writes,
            final(self).display_settings == (DisplaySettingsState { clock_info_color: v, ..old(self).display_settings }),
    {
        self.display_settings.clock_info_color = v;
        proof {
            reveal(only_display_changed);
        }
    }

    fn set_clock_modifiers_color(&mut self, v: [u8; 3])
        ensures
            only_display_changed(*final(self), *old(self)),
            final(self).pending_settings_writes == old(self).pending_settings_writes,
            final(self).display_settings == (DisplaySettingsState { clock_modifiers_color: v, ..old(self).display_settings }),
    {
        self.display_settings.clock_modifiers_color = v;
        proof {
            reveal(only_display_changed);
        }
    }

    fn set_accent_color(&mut self, v: [u8; 3])
        ensures
            only_display_changed(*final(self), *old(self)),
            final(self).pending_settings_writes == old(self).pending_settings_writes,
            final(self).display_settings == (DisplaySettingsState { color: v, ..old(self).display_settings }),
    {
        self.display_settings.color = v;
        proof {
            reveal(only_display_changed);
        }
    }


    /// Sets the display brightness, at most 100, queueing its write where needed.
    pub fn apply_display_brightness(&mut self, brightness: u8)
        ensures
            only_display_changed(*final(self), *old(self)),
            ({
                let v = min_u8(brightness, 100);
                if v == old(self).display_settings.brightness {
                    *final(self) == *old(self)
                } else {
                    &&& final(self).display_settings == (DisplaySettingsState {
                        brightness: v,
                        ..old(self).display_settings
                    })
                    &&& final(self).pending_settings_writes@ == after_request(
                        old(self).pending_settings_writes@,
                        "display_settings.brightness",
                        DisplaySettingId::Brightness,
                        old(self).display_settings.confirmed_brightness as u16,
                        v as u16,
                    )
                }
            }),
    {
        let brightness = if brightness < 100 { brightness } else { 100 };
        if brightness == self.display_settings.brightness {
            proof {
                lemma_only_display_changed_refl(*self);
            }
            return;
        }
        let ghost start = *self;
        self.set_brightness(brightness);
        let ghost mid = *self;
        let confirmed = self.display_settings.confirmed_brightness as u16;
        self.request_display_setting(
            "display_settings.brightness",
            DisplaySettingId::Brightness,
            confirmed,
            brightness as u16,
        );
        proof {
            lemma_only_display_changed_trans(*self, mid, start);
        }
    }

    /// Sets the dimming of the clock background, at most 100, queueing its write where
    /// needed.
    pub fn apply_clock_background_dim(&mut self, dim: u8)
        ensures
            only_display_changed(*final(self), *old(self)),
            ({
                let v = min_u8(dim, 100);
                if v == old(self).display_settings.clock_background_dim {
                    *final(self) == *old(self)
                } else {
                    &&& final(self).display_settings == (DisplaySettingsState {
                        clock_background_dim: v,
                        ..old(self).display_settings
                    })
                    &&& final(self).pending_settings_writes@ == after_request(
                        old(self).pending_settings_writes@,
                        "display_settings.clock_background_dim",
                        DisplaySettingId::ClockBackgroundDim,
                        old(self).display_settings.confirmed_clock_background_dim as u16,
                        v as u16,
                    )
                }
            }),
    {
        let dim = if dim < 100 { dim } else { 100 };
        if dim == self.display_settings.clock_background_dim {
            proof {
                lemma_only_display_changed_refl(*self);
            }
            return;
        }
        let ghost start = *self;
        self.set_clock_background_dim(dim);
        let ghost mid = *self;
        let confirmed = self.display_settings.confirmed_clock_background_dim as u16;
        self.request_display_setting(
            "display_settings.clock_background_dim",
            DisplaySettingId::ClockBackgroundDim,
            confirmed,
            dim as u16,
        );
        proof {
            lemma_only_display_changed_trans(*self, mid, start);
        }
    }

    /// Sets the style of the on-screen buttons, at most the highest style id, queueing its
    /// write where needed.
    pub fn apply_display_button_style(&mut self, style: u8)
        ensures
            only_display_changed(*final(self), *old(self)),
            ({
                let v = min_u8(style, 32);
                if v == old(self).display_settings.button_style {
                    *final(self) == *old(self)
                } else {
                    &&& final(self).display_settings == (DisplaySettingsState {
                        button_style: v,
                        ..old(self).display_settings
                    })
                    &&& final(self).pending_settings_writes@ == after_request(
                        old(self).pending_settings_writes@,
                        "display_settings.button_style",
                        DisplaySettingId::ButtonStyle,
                        old(self).display_settings.confirmed_button_style as u16,
                        v as u16,
                    )
                }
            }),
    {
        let style = if style < 32 { style } else { 32 };
        if style == self.display_settings.button_style {
            proof {
                lemma_only_display_changed_refl(*self);
            }
            return;
        }
        let ghost start = *self;
        self.set_button_style(style);
        let ghost mid = *self;
        let confirmed = self.display_settings.confirmed_button_style as u16;
        self.request_display_setting(
            "display_settings.button_style",
            DisplaySettingId::ButtonStyle,
            confirmed,
            style as u16,
        );
        proof {
            lemma_only_display_changed_trans(*self, mid, start);
        }
    }

    /// Turns the blinking of the clock's colon on or off, queueing its write where needed.
    pub fn apply_clock_colon_blink(&mut self, enabled: bool)
        ensures
            only_display_changed(*final(self), *old(self)),
            if enabled == old(self).display_settings.clock_colon_blink {
                *final(self) == *old(self)
            } else {
                &&& final(self).display_settings == (DisplaySettingsState {
                    clock_colon_blink: enabled,
                    ..old(self).display_settings
                })
                &&& final(self).pending_settings_writes@ == after_request(
                    old(self).pending_settings_writes@,
                    "display_settings.clock_colon_blink",
                    DisplaySettingId::ClockColonBlink,
                    if old(self).display_settings.confirmed_clock_colon_blink { 1 } else { 0 },
                    if enabled { 1 } else { 0 },
                )
            },
    {
        if enabled == self.display_settings.clock_colon_blink {
            proof {
                lemma_only_display_changed_refl(*self);
            }
            return;
        }
        let ghost start = *self;
        self.set_clock_colon_blink(enabled);
        let ghost mid = *self;
        let confirmed: u16 = if self.display_settings.confirmed_clock_colon_blink { 1 } else { 0 };
        let value: u16 = if enabled { 1 } else { 0 };
        self.request_display_setting(
            "display_settings.clock_colon_blink",
            DisplaySettingId::ClockColonBlink,
            confirmed,
            value,
        );
        proof {
            lemma_only_display_changed_trans(*self, mid, start);
        }
    }
}


/// The highest value a clock setting takes, for the settings `apply_clock_setting` edits.
pub open spec fn clock_setting_max(setting: DisplaySettingId) -> Option<u8> {
    match setting {
        DisplaySettingId::ClockStyle => Some(9u8),
        DisplaySettingId::ClockSize => Some(3u8),
        DisplaySettingId::ClockAlignment => Some(2u8),
        DisplaySettingId::ClockDelay => Some(7u8),
        DisplaySettingId::DisplayTimeout => Some(7u8),
        _ => None,
    }
}

/// The value a clock setting shows.
pub open spec fn clock_value(ds: DisplaySettingsState, setting: DisplaySettingId) -> u8 {
    match setting {
        DisplaySettingId::ClockStyle => ds.clock_style,
        DisplaySettingId::ClockSize => ds.clock_size,
        DisplaySettingId::ClockAlignment => ds.clock_alignment,
        DisplaySettingId::ClockDelay => ds.clock_delay,
        _ => ds.display_timeout,
    }
}

/// The value the device confirmed for a clock setting.
pub open spec fn confirmed_clock_value(ds: DisplaySettingsState, setting: DisplaySettingId) -> u8 {
    match setting {
        DisplaySettingId::ClockStyle => ds.confirmed_clock_style,
        DisplaySettingId::ClockSize => ds.confirmed_clock_size,
        DisplaySettingId::ClockAlignment => ds.confirmed_clock_alignment,
        DisplaySettingId::ClockDelay => ds.confirmed_clock_delay,
        _ => ds.confirmed_display_timeout,
    }
}

/// The settings with a clock setting replaced.
pub open spec fn with_clock_value(ds: DisplaySettingsState, setting: DisplaySettingId, v: u8) -> DisplaySettingsState {
    match setting {
        DisplaySettingId::ClockStyle => DisplaySettingsState { clock_style: v, ..ds },
        DisplaySettingId::ClockSize => DisplaySettingsState { clock_size: v, ..ds },
        DisplaySettingId::ClockAlignment => DisplaySettingsState { clock_alignment: v, ..ds },
        DisplaySettingId::ClockDelay => DisplaySettingsState { clock_delay: v, ..ds },
        _ => DisplaySettingsState { display_timeout: v, ..ds },
    }
}

impl EntropyApp {
    /// Sets one of the clock's settings (style, size, alignment, delay, or the display
    /// timeout), clamped to its highest value, and queues its write where needed. Any other
    /// setting is left alone.
    pub fn apply_clock_setting(&mut self, qsid: DisplaySettingId, value: u8, label_key: &'static str)
        ensures
            only_display_changed(*final(self), *old(self)),
            match clock_setting_max(qsid) {
                None => *final(self) == *old(self),
                Some(max) => {
                    let v = min_u8(value, max);
                    if v == clock_value(old(self).display_settings, qsid) {
                        *final(self) == *old(self)
                    } else {
                        &&& final(self).display_settings == with_clock_value(
                            old(self).display_settings,
                            qsid,
                            v,
                        )
                        &&& final(self).pending_settings_writes@ == after_request(
                            old(self).pending_settings_writes@,
                            label_key,
                            qsid,
                            confirmed_clock_value(old(self).display_settings, qsid) as u16,
                            v as u16,
                        )
                    }
                },
            },
    {
        let ds = &self.display_settings;
        let (current, confirmed, value) = match qsid {
            DisplaySettingId::ClockStyle => (
                ds.clock_style,
                ds.confirmed_clock_style,
                if value < 9 { value } else { 9 },
            ),
            DisplaySettingId::ClockSize => (
                ds.clock_size,
                ds.confirmed_clock_size,
                if value < 3 { value } else { 3 },
            ),
            DisplaySettingId::ClockAlignment => (
                ds.clock_alignment,
                ds.confirmed_clock_alignment,
                if value < 2 { value } else { 2 },
            ),
            DisplaySettingId::ClockDelay => (
                ds.clock_delay,
                ds.confirmed_clock_delay,
                if value < 7 { value } else { 7 },
            ),
            DisplaySettingId::DisplayTimeout => (
                ds.display_timeout,
                ds.confirmed_display_timeout,
                if value < 7 { value } else { 7 },
            ),
            _ => {
                proof {
                    lemma_only_display_changed_refl(*self);
                }
                return ;
            },
        };
        if value == current {
            proof {
                lemma_only_display_changed_refl(*self);
            }
            return ;
        }
        let ghost start = *self;
        self.set_clock_value(qsid, value);
        let ghost mid = *self;
        self.request_display_setting(label_key, qsid, confirmed as u16, value as u16);
        proof {
            lemma_only_display_changed_trans(*self, mid, start);
        }
    }

    /// Sets a colour: 1 to 5 as `DisplaySettingId::Color` lists them, 6 and 7 the two
    /// colours of the date display, any other the accent colour. A date colour is stored as
    /// three date elements; any other colour queues a write for each channel that changes.
    pub fn apply_display_color(&mut self, new_color: [u8; 3], color_kind: u8)
        requires
            color_kind == 7 ==> old(self).display_settings.date@.len() >= 15
                && old(self).display_settings.confirmed_date@.len() >= 15,
            color_kind == 6 ==> old(self).display_settings.date@.len() >= 5
                && old(self).display_settings.confirmed_date@.len() >= 5,
        ensures
            only_display_changed(*final(self), *old(self)),
            if color_kind == 7 || color_kind == 6 {
                let start: int = if color_kind == 7 { 12 } else { 2 };
                let edit = date_color_edit(
                    old(self).display_settings.date@,
                    old(self).pending_settings_writes@,
                    old(self).display_settings.confirmed_date@,
                    start,
                    new_color,
                    3,
                );
                &&& final(self).display_settings == (DisplaySettingsState {
                    date: final(self).display_settings.date,
                    ..old(self).display_settings
                })
                &&& final(self).display_settings.date@ == edit.0
                &&& final(self).pending_settings_writes@ == edit.1
            } else if new_color@ == color_of(old(self).display_settings, color_kind)@ {
                *final(self) == *old(self)
            } else {
                &&& final(self).display_settings == with_color(
                    old(self).display_settings,
                    color_kind,
                    new_color,
                )
                &&& final(self).pending_settings_writes@ == color_requests(
                    old(self).pending_settings_writes@,
                    color_kind,
                    confirmed_color_of(old(self).display_settings, color_kind),
                    new_color,
                    3,
                )
            },
    {
        if color_kind == 7 || color_kind == 6 {
            let start: usize = if color_kind == 7 { 12 } else { 2 };
            let ghost old_app = *self;
            proof {
                lemma_only_display_changed_refl(*self);
            }
            let mut i: usize = 0;
            while i < 3
                invariant
                    i <= 3,
                    start == (if color_kind == 7 { 12int } else { 2int }),
                    old_app.display_settings.date@.len() >= start + 3,
                    old_app.display_settings.confirmed_date@.len() >= start + 3,
                    only_display_changed(*self, old_app),
                    self.display_settings == (DisplaySettingsState {
                        date: self.display_settings.date,
                        ..old_app.display_settings
                    }),
                    self.display_settings.date@.len() == old_app.display_settings.date@.len(),
                    (self.display_settings.date@, self.pending_settings_writes@) == date_color_edit(
                        old_app.display_settings.date@,
                        old_app.pending_settings_writes@,
                        old_app.display_settings.confirmed_date@,
                        start as int,
                        new_color,
                        i as int,
                    ),
                decreases 3 - i,
            {
                let ghost before = *self;
                self.apply_date_setting(start + i, new_color[i]);
                proof {
                    lemma_only_display_changed_trans(*self, before, old_app);
                }
                i = i + 1;
            }
            proof {
                lemma_only_display_changed_refl(*self);
            }
            return ;
        }
        let current = match color_kind {
            1 => self.display_settings.background_color,
            2 => self.display_settings.clock_text_color,
            3 => self.display_settings.clock_background_color,
            4 => self.display_settings.clock_info_color,
            5 => self.display_settings.clock_modifiers_color,
            _ => self.display_settings.color,
        };
        if new_color[0] == current[0] && new_color[1] == current[1] && new_color[2] == current[2] {
            assert(new_color@ =~= current@);
            proof {
                lemma_only_display_changed_refl(*self);
            }
            return ;
        }
        assert(new_color@ != current@);
        let confirmed = match color_kind {
            1 => self.display_settings.confirmed_background_color,
            2 => self.display_settings.confirmed_clock_text_color,
            3 => self.display_settings.confirmed_clock_background_color,
            4 => self.display_settings.confirmed_clock_info_color,
            5 => self.display_settings.confirmed_clock_modifiers_color,
            _ => self.display_settings.confirmed_color,
        };
        let ghost start = *self;
        self.set_color_value(color_kind, new_color);
        let ghost mid = *self;
        let label: &'static str = match color_kind {
            1 => "display_settings.background_color",
            2 => "display_settings.clock_text_color",
            3 => "display_settings.clock_background_color",
            4 => "display_settings.clock_info_color",
            5 => "display_settings.clock_modifiers_color",
            _ => "display_settings.accent_color",
        };
        let slot: u8 = if 1 <= color_kind && color_kind <= 5 { color_kind } else { 0 };
        let ghost mid = *self;
        proof {
            lemma_only_display_changed_refl(*self);
        }
        let mut index: usize = 0;
        while index < 3
            invariant
                index <= 3,
                only_display_changed(*self, mid),
                self.display_settings == mid.display_settings,
                label == color_label(color_kind),
                slot == color_slot(color_kind),
                self.pending_settings_writes@ == color_requests(
                    mid.pending_settings_writes@,
                    color_kind,
                    confirmed,
                    new_color,
                    index as int,
                ),
            decreases 3 - index,
        {
            let ghost before = *self;
            self.request_display_setting(
                label,
                DisplaySettingId::Color { kind: slot, channel: index as u8 },
                confirmed[index] as u16,
                new_color[index] as u16,
            );
            proof {
                lemma_only_display_changed_trans(*self, before, mid);
            }
            index = index + 1;
        }
        proof {
            lemma_only_display_changed_trans(*self, mid, start);
        }
    }
}

} // verus!
