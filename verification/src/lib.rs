//! Verified core of the Entropy keyboard configurator's user-interface logic.
pub mod keyboard;
pub mod keycode;
pub mod layout_indicator;
pub mod app;
pub mod file_dialog;
pub mod layer_operations;
pub mod text;
pub mod display_settings;
pub mod display_writes;
pub mod layout_hints;
pub mod layout_image_export;
pub mod layout_device_dropdown;
pub mod layout_indicator_window;
pub mod key_assignment;
pub mod mirror;
pub mod emoji_assignment;
pub mod paste;
pub mod layer_led_settings;
pub mod encoder_visibility_settings;
pub mod key_writes;
pub mod emoji_writes;
pub mod secondary_click;
pub mod pictogram_editor;
