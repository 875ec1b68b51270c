use vstd::prelude::*;

use crate::keyboard::{ComboEntry, KeyboardLayout, Language, TapDanceEntry};
use crate::layer_operations::{DeferredLayerWrite, LayerSnapshot, LayerWriteTask};
use crate::layout_indicator::StickyLayoutTapDanceState;
use crate::display_settings::DisplaySettingsState;
use crate::display_writes::SettingsWrite;
use crate::key_assignment::PendingMiddleClickAssignment;
use crate::layer_led_settings::LayerLedSettings;
use crate::file_dialog::FileDialogAction;
use crate::layout_indicator_window::{StickyLayoutSettings, StickyLayoutVisibilityMode};
use crate::emoji_assignment::{EmojiAssignment, EmojiAssignmentError, EmojiAssignmentReclaimTask, EmojiAssignmentTask};

verus! {

/// A value substituted into a status message.
#[derive(Clone, Debug, PartialEq, Eq)]
pub enum StatusArg {
    /// A message-catalog entry, shown in the user's language.
    Catalog(&'static str),
    /// A number, shown in decimal.
    Number(usize),
    /// Text shown as it is.
    Text(String),
}

/// A status-bar message.
#[derive(Clone, Debug, PartialEq, Eq)]
pub enum StatusMessage {
    /// A message-catalog entry and the values for its placeholders.
    Catalog { key: &'static str, args: Vec<(&'static str, StatusArg)> },
    /// Text shown as it is.
    Literal(&'static str),
    /// "Failed to save", the name of what was not saved, and the keyboard's error.
    SaveFailed { what: String, error: String },
}

impl StatusMessage {
    /// A message-catalog entry without placeholders.
    pub open spec fn is_plain(self, key: &'static str) -> bool {
        self.is_catalog(key, Seq::empty())
    }

    /// A message-catalog entry and the values for its placeholders.
    pub open spec fn is_catalog(self, key: &'static str, args: Seq<(&'static str, StatusArg)>) -> bool {
        self matches StatusMessage::Catalog { key: k, args: a } && k == key && a@ == args
    }

    /// A message-catalog entry without placeholders.
    pub fn plain(key: &'static str) -> (msg: Self)
        ensures
            msg.is_plain(key),
    {
        let args: Vec<(&'static str, StatusArg)> = Vec::new();
        assert(args@ =~= Seq::empty());
        StatusMessage::Catalog { key, args }
    }
}

/// An edit the user can undo.
#[derive(Clone, Debug, PartialEq, Eq)]
pub enum UndoAction {
    Key { layer: usize, key_idx: usize, old_binding: u16 },
    Encoder { layer: usize, encoder_visual_idx: usize, old_kc: u16 },
    Layer { layer: usize, old: LayerSnapshot, requires_firmware: bool },
}

/// The part of the key picker's state that the application logic reads and writes.
#[derive(Clone, Debug)]
pub struct KeycodePickerState {
    pub tap_dance_entries: Vec<TapDanceEntry>,
    /// Whether the picker is open.
    pub open: bool,
    /// The keycode the user picked and the application has not applied yet.
    pub result: Option<u16>,
    /// The encoded actions of each macro slot.
    pub macro_actions: Vec<Vec<u8>>,
    /// The text of each macro slot.
    pub macro_texts: Vec<Vec<u8>>,
    /// Whether the macros were edited and not saved.
    pub macros_dirty: bool,
    /// An emoji assignment staged for the user to retry.
    pub emoji_assignment: Option<EmojiAssignment>,
    /// Why the staged emoji assignment failed.
    pub emoji_assignment_error: Option<EmojiAssignmentError>,
    /// Whether the picker may offer native key actions, which only keys can hold.
    pub rmk_native_key_actions_allowed_for_target: bool,
    /// The text typed into the picker's search field.
    pub search_query: String,
    /// The user's layer names, as the picker shows them on layer keys.
    pub layer_names: Vec<String>,
    /// A modifier base chosen first, waiting for the key to combine it with.
    pub vial_quantum_pending_mod: Option<u16>,
    /// A mod-tap or layer-tap base chosen first, waiting for its tap key.
    pub vial_quantum_pending_mt: Option<u16>,
    /// A layer key without its target, waiting for the layer.
    pub vial_layer_pending: Option<u16>,
    /// The tap dance whose editor is open, if any.
    pub tap_dance_editor_open: Option<u8>,
    /// The macro selected in the picker's inline macro editor, if any.
    pub macro_inline_selected: Option<u8>,
    /// The tap dance whose tap or hold key the picker is choosing, if any.
    pub td_key_pick: Option<u8>,
    /// The tap dance whose modifier key the picker is choosing, if any.
    pub td_mod_key_pick: Option<u8>,
}

/// The application settings this library reads and writes.
#[derive(Clone, Debug)]
pub struct AppSettings {
    pub language: Language,
    pub middle_click_assigns_transparent: bool,
    /// For each layer, whether the layout-image export includes it.
    pub layout_image_export_selected_layers: Vec<bool>,
    /// The floating layout indicator's window settings.
    pub sticky_layout: StickyLayoutSettings,
}

/// The tab of the main menu.
#[derive(Clone, Copy, Debug, PartialEq, Eq, Structural)]
pub enum MainMenuTab {
    Keyboard,
    Advanced,
    Settings,
}

/// The page shown under the settings tab.
#[derive(Clone, Copy, Debug, PartialEq, Eq, Structural)]
pub enum SettingsTab {
    Display,
    MouseKeys,
    TypingTrainer,
    AboutDevice,
    LayoutImageExport,
}

/// The application state this library reasons about.
pub struct EntropyApp {
    pub app_settings: AppSettings,
    /// The layout of the connected keyboard, if any.
    pub layout: Option<KeyboardLayout>,
    /// The layer shown in the layout editor.
    pub selected_layer: usize,
    /// The message shown in the status bar.
    pub status_msg: StatusMessage,
    pub undo_stack: Vec<UndoAction>,
    /// Whether the application holds an open HID handle to the keyboard.
    pub hid_connected: bool,
    /// Whether a background task is writing to the keyboard.
    pub hid_write_busy: bool,
    /// Set when a background worker lost the keyboard: the application must run its
    /// disconnect handling.
    pub hid_disconnect_pending: bool,
    /// Set when the layout changed in a way the layer picker's content flags depend on.
    pub layer_picker_flags_dirty: bool,
    /// A layer write that must be replayed once the keyboard reconnects.
    pub pending_layer_write: Option<DeferredLayerWrite>,
    /// The layer write running on a background worker, if any.
    pub layer_write_task: Option<LayerWriteTask>,
    /// The switch matrix as last reported by the device, row-major.
    pub matrix_tester_pressed: Vec<bool>,
    pub combo_entries: Vec<ComboEntry>,
    pub keycode_picker: KeycodePickerState,
    pub sticky_layout_prev_pressed: Vec<bool>,
    pub sticky_layout_pressed_key_layers: Vec<Option<usize>>,
    pub sticky_layout_toggled_layers: Vec<bool>,
    pub sticky_layout_active_combos: Vec<bool>,
    pub sticky_layout_tap_dance_states: Vec<StickyLayoutTapDanceState>,
    pub sticky_layout_base_layer: usize,
    /// The key being edited, as layer and key index.
    pub selected_key: Option<(usize, usize)>,
    /// The encoder slot being edited, as layer and slot index.
    pub selected_encoder: Option<(usize, usize)>,
    /// The emoji write in progress, if any.
    pub emoji_assignment_task: Option<EmojiAssignmentTask>,
    /// An abandoned emoji write whose worker is still to be drained.
    pub emoji_assignment_reclaim_task: Option<EmojiAssignmentReclaimTask>,
    /// Counts the keyboard handles the application held; work started under an older one
    /// is stale.
    pub hid_connection_generation: u64,
    /// Middle-click assignments waiting until the keyboard can take a write, oldest first.
    pub pending_middle_click_assignments: Vec<PendingMiddleClickAssignment>,
    /// Counts the connections made to keyboards; work started under an older one is stale.
    pub connection_generation: u64,
    /// The device chosen in the device menu, by its index.
    pub selected_device: Option<usize>,
    /// The number of layers of the connected keyboard.
    pub layer_count: usize,
    pub main_menu_tab: MainMenuTab,
    pub settings_tab: SettingsTab,
    pub display_settings: DisplaySettingsState,
    /// Setting writes waiting to be sent to the keyboard, oldest first.
    pub pending_settings_writes: Vec<SettingsWrite>,
    /// The user's name of each layer.
    pub layer_names: Vec<String>,
    /// The keycodes of the layer last copied.
    pub layer_clipboard: Option<LayerSnapshot>,
    pub layer_led_settings: LayerLedSettings,
    /// The combo slot waiting for the picker's result, if any.
    pub combo_pick_target: Option<usize>,
    /// The key-override slot waiting for the picker's result, if any.
    pub key_override_pick_target: Option<usize>,
    /// The alt-repeat slot waiting for the picker's result, if any.
    pub alt_repeat_pick_target: Option<usize>,
    /// A swap of a modifier's hand waiting for Ctrl to be released: layer, key index, and
    /// the keycode to write.
    pub pending_handed_swap: Option<(usize, usize, u16)>,
    /// The file dialog in flight, if any: its follow-up action and the connection it was
    /// opened under.
    pub file_dialog_pending: Option<(FileDialogAction, u64)>,
    /// Whether a secondary click on the layout was acted on in this frame.
    pub secondary_click_handled: bool,
    /// The layers left by following layer keys, most recent last.
    pub jump_back_stack: Vec<usize>,
    /// The layer previewed while the pointer rests on a layer key, if any.
    pub hover_layer: Option<usize>,
    /// Frames for which the layout indicator stays opaque after a resize.
    pub sticky_layout_resize_opacity_hold_frames: u8,
    /// An undo asked for while the keyboard was busy loading, to run once it is free.
    pub pending_layout_undo: bool,
}

impl KeycodePickerState {
    /// A closed picker with no macros, tap dances or staged emoji.
    pub fn new() -> (picker: Self)
        ensures
            !picker.open,
            picker.result is None,
            picker.tap_dance_entries@.len() == 0,
            picker.macro_actions@.len() == 0,
            picker.macro_texts@.len() == 0,
            !picker.macros_dirty,
            picker.emoji_assignment is None,
            picker.emoji_assignment_error is None,
    {
        KeycodePickerState {
            tap_dance_entries: Vec::new(),
            open: false,
            result: None,
            macro_actions: Vec::new(),
            macro_texts: Vec::new(),
            macros_dirty: false,
            emoji_assignment: None,
            emoji_assignment_error: None,
            rmk_native_key_actions_allowed_for_target: false,
            search_query: String::new(),
            layer_names: Vec::new(),
            vial_quantum_pending_mod: None,
            vial_quantum_pending_mt: None,
            vial_layer_pending: None,
            tap_dance_editor_open: None,
            macro_inline_selected: None,
            td_key_pick: None,
            td_mod_key_pick: None,
        }
    }
}

impl DisplaySettingsState {
    /// A display that supports nothing, with every value 0.
    pub fn unsupported() -> (s: Self)
        ensures
            !s.clock_settings_supported,
            s.date@.len() == 0,
            s.confirmed_date@.len() == 0,
            s.brightness == 0,
            s.button_style == 0,
    {
        DisplaySettingsState {
            clock_settings_supported: false,
            background_color_supported: false,
            brightness_supported: false,
            button_style_supported: false,
            clock_info_color_supported: false,
            clock_background_asset_supported: false,
            clock_background_speed_supported: false,
            clock_background_dim_supported: false,
            clock_colon_blink_supported: false,
            clock_overlay_controls_supported: false,
            standby_controls_supported: false,
            date_supported: false,
            color: [0, 0, 0],
            confirmed_color: [0, 0, 0],
            background_color: [0, 0, 0],
            confirmed_background_color: [0, 0, 0],
            clock_text_color: [0, 0, 0],
            confirmed_clock_text_color: [0, 0, 0],
            clock_background_color: [0, 0, 0],
            confirmed_clock_background_color: [0, 0, 0],
            clock_info_color: [0, 0, 0],
            confirmed_clock_info_color: [0, 0, 0],
            clock_modifiers_color: [0, 0, 0],
            confirmed_clock_modifiers_color: [0, 0, 0],
            date: Vec::new(),
            confirmed_date: Vec::new(),
            clock_style: 0,
            confirmed_clock_style: 0,
            clock_size: 0,
            confirmed_clock_size: 0,
            clock_alignment: 0,
            confirmed_clock_alignment: 0,
            clock_delay: 0,
            confirmed_clock_delay: 0,
            display_timeout: 0,
            confirmed_display_timeout: 0,
            clock_colon_blink: false,
            confirmed_clock_colon_blink: false,
            clock_background_dim: 0,
            confirmed_clock_background_dim: 0,
            brightness: 0,
            confirmed_brightness: 0,
            button_style: 0,
            confirmed_button_style: 0,
        }
    }
}

impl EntropyApp {
    /// The application before any keyboard is connected.
    pub fn new(language: Language) -> (app: Self)
        ensures
            app.app_settings.language == language,
            !app.app_settings.middle_click_assigns_transparent,
            app.app_settings.layout_image_export_selected_layers@.len() == 0,
            app.layout is None,
            app.selected_layer == 0,
            app.status_msg == StatusMessage::Literal(""),
            app.undo_stack@.len() == 0,
            !app.hid_connected,
            !app.hid_write_busy,
            !app.hid_disconnect_pending,
            app.pending_layer_write is None,
            app.layer_write_task is None,
            app.pending_middle_click_assignments@.len() == 0,
            app.pending_settings_writes@.len() == 0,
            app.emoji_assignment_task is None,
            app.emoji_assignment_reclaim_task is None,
            app.selected_key is None,
            app.selected_encoder is None,
            app.layer_count == 0,
            app.layer_clipboard is None,
            !app.secondary_click_handled,
            app.jump_back_stack@.len() == 0,
            app.hover_layer is None,
    {
        EntropyApp {
            app_settings: AppSettings {
                language,
                middle_click_assigns_transparent: false,
                layout_image_export_selected_layers: Vec::new(),
                sticky_layout: StickyLayoutSettings {
                    window_open: false,
                    dark_mode: false,
                    visibility_mode: StickyLayoutVisibilityMode::LayoutAndPresses,
                    always_on_top: false,
                },
            },
            layout: None,
            selected_layer: 0,
            status_msg: StatusMessage::Literal(""),
            undo_stack: Vec::new(),
            hid_connected: false,
            hid_write_busy: false,
            hid_disconnect_pending: false,
            layer_picker_flags_dirty: false,
            pending_layer_write: None,
            layer_write_task: None,
            matrix_tester_pressed: Vec::new(),
            combo_entries: Vec::new(),
            keycode_picker: KeycodePickerState::new(),
            sticky_layout_prev_pressed: Vec::new(),
            sticky_layout_pressed_key_layers: Vec::new(),
            sticky_layout_toggled_layers: Vec::new(),
            sticky_layout_active_combos: Vec::new(),
            sticky_layout_tap_dance_states: Vec::new(),
            sticky_layout_base_layer: 0,
            selected_key: None,
            selected_encoder: None,
            emoji_assignment_task: None,
            emoji_assignment_reclaim_task: None,
            hid_connection_generation: 0,
            pending_middle_click_assignments: Vec::new(),
            connection_generation: 0,
            selected_device: None,
            layer_count: 0,
            main_menu_tab: MainMenuTab::Keyboard,
            settings_tab: SettingsTab::Display,
            display_settings: DisplaySettingsState::unsupported(),
            pending_settings_writes: Vec::new(),
            layer_names: Vec::new(),
            layer_clipboard: None,
            layer_led_settings: LayerLedSettings {
                supported: false,
                brightness: None,
                timeout: None,
                bt_profile_colors: Vec::new(),
                layer_colors: Vec::new(),
            },
            combo_pick_target: None,
            key_override_pick_target: None,
            alt_repeat_pick_target: None,
            pending_handed_swap: None,
            file_dialog_pending: None,
            secondary_click_handled: false,
            jump_back_stack: Vec::new(),
            hover_layer: None,
            sticky_layout_resize_opacity_hold_frames: 0,
            pending_layout_undo: false,
        }
    }

    /// Hands the loss of the keyboard by a background worker to the connection logic:
    /// the handle is gone and the disconnect handling must run.
    pub fn handoff_hid_worker_disconnect(&mut self, status: StatusMessage)
        ensures
            *final(self) == (EntropyApp {
                hid_connected: false,
                hid_disconnect_pending: true,
                status_msg: status,
                ..*old(self)
            }),
    {
        self.hid_connected = false;
        self.hid_disconnect_pending = true;
        self.status_msg = status;
    }
}

} // verus!
