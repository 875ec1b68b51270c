use entropy::app::{EntropyApp, StatusMessage};
use entropy::keyboard::Language;
use entropy::layout_indicator_window::{
    close_layout_indicator_while_locked, toggle_layout_indicator_window, LayoutIndicatorToggle,
    LayoutIndicatorUnlock, sticky_layout_pin_viewport_commands, sticky_layout_should_bring_window_forward,
    sticky_layout_window_level, sticky_layout_window_resizable, StickyLayoutViewportEvent,
    StickyLayoutVisibilityMode, StickyLayoutWindowLevel,
};

#[test]
fn macos_order_front_policy_is_edge_triggered() {
    assert!(sticky_layout_should_bring_window_forward(true, true, true));
    assert!(!sticky_layout_should_bring_window_forward(true, false, false));
    assert!(sticky_layout_should_bring_window_forward(false, false, true));
    assert!(!sticky_layout_should_bring_window_forward(false, true, false));
    assert!(!sticky_layout_should_bring_window_forward(false, true, true));
    assert!(!sticky_layout_should_bring_window_forward(false, false, false));
}

#[test]
fn pinned_indicator_window_is_not_resizable() {
    assert!(!sticky_layout_window_resizable(true));
    assert!(sticky_layout_window_resizable(false));
}

#[test]
fn viewport_events_update_settings_and_hold_opacity_after_resizes() {
    let mut app = EntropyApp::new(Language::English);
    app.app_settings.sticky_layout.window_open = true;
    let (close, save) = app.apply_sticky_layout_viewport_events(&vec![
        StickyLayoutViewportEvent::Controls {
            dark_mode: true,
            opacity_changed: false,
            visibility_mode: StickyLayoutVisibilityMode::PressedOnly,
            always_on_top: false,
        },
        StickyLayoutViewportEvent::WindowSize { resized: true, differs_from_saved: false },
    ]);
    assert!(!close);
    assert!(save);
    assert!(app.app_settings.sticky_layout.dark_mode);
    assert_eq!(app.app_settings.sticky_layout.visibility_mode, StickyLayoutVisibilityMode::PressedOnly);
    assert!(app.app_settings.sticky_layout.window_open);
    // The hold starts at eight frames and this frame already counts.
    assert_eq!(app.sticky_layout_resize_opacity_hold_frames, 7);

    // Controls that repeat the settings, and a size seen before, change nothing.
    let (close, save) = app.apply_sticky_layout_viewport_events(&vec![
        StickyLayoutViewportEvent::Controls {
            dark_mode: true,
            opacity_changed: false,
            visibility_mode: StickyLayoutVisibilityMode::PressedOnly,
            always_on_top: false,
        },
        StickyLayoutViewportEvent::WindowSize { resized: false, differs_from_saved: false },
    ]);
    assert!(!close);
    assert!(!save);
    assert_eq!(app.sticky_layout_resize_opacity_hold_frames, 6);

    // Closing shuts the window, ends the hold and saves.
    let (close, save) = app.apply_sticky_layout_viewport_events(&vec![
        StickyLayoutViewportEvent::ResizeActive,
        StickyLayoutViewportEvent::Close,
    ]);
    assert!(close);
    assert!(save);
    assert!(!app.app_settings.sticky_layout.window_open);
    assert_eq!(app.sticky_layout_resize_opacity_hold_frames, 0);
}

#[test]
fn pin_transition_commands_are_symmetric() {
    assert_eq!(
        sticky_layout_pin_viewport_commands(true),
        (StickyLayoutWindowLevel::AlwaysOnTop, false)
    );
    assert_eq!(sticky_layout_pin_viewport_commands(false), (StickyLayoutWindowLevel::Normal, true));
    assert_eq!(sticky_layout_window_level(true), StickyLayoutWindowLevel::AlwaysOnTop);
}

#[test]
fn background_matrix_poll_needs_an_open_unlocked_indicator_and_a_layout() {
    let mut app = EntropyApp::new(Language::English);
    app.layout = Some(entropy::keyboard::KeyboardLayout {
        rows: 5,
        cols: 14,
        keys: vec![],
        encoders: vec![],
        layers: vec![],
        encoder_layers: vec![],
    });
    assert_eq!(app.poll_sticky_layout_background(false), None);
    app.app_settings.sticky_layout.window_open = true;
    assert_eq!(app.poll_sticky_layout_background(true), None);
    assert_eq!(app.poll_sticky_layout_background(false), Some((5, 14)));
    app.layout = None;
    assert_eq!(app.poll_sticky_layout_background(false), None);
}

fn is_unlock_request(status: &StatusMessage) -> bool {
    matches!(
        status,
        StatusMessage::Catalog { key: "matrix_tester.keyboard_is_locked_unlock_it_to_use_matrix_tester", .. }
    )
}

#[test]
fn indicator_menu_entry_opens_closes_and_waits_for_an_unlock() {
    let app = EntropyApp::new(Language::English);
    let mut settings = app.app_settings.sticky_layout;
    let mut unlock = LayoutIndicatorUnlock { unlock_open: false, open_after_unlock: false };
    let mut status = StatusMessage::Literal("");

    let toggle = toggle_layout_indicator_window(&mut settings, &mut unlock, &mut status, true);
    assert_eq!(toggle, LayoutIndicatorToggle::AwaitingUnlock);
    assert!(!settings.window_open);
    assert_eq!(unlock, LayoutIndicatorUnlock { unlock_open: true, open_after_unlock: true });
    assert!(is_unlock_request(&status));

    let mut status = StatusMessage::Literal("");
    let toggle = toggle_layout_indicator_window(&mut settings, &mut unlock, &mut status, false);
    assert_eq!(toggle, LayoutIndicatorToggle::Opened);
    assert!(settings.window_open);

    let toggle = toggle_layout_indicator_window(&mut settings, &mut unlock, &mut status, true);
    assert_eq!(toggle, LayoutIndicatorToggle::Closed);
    assert!(!settings.window_open);
    assert!(!unlock.open_after_unlock);
    assert!(!is_unlock_request(&status));
}

#[test]
fn open_indicator_closes_when_the_keyboard_is_locked() {
    let app = EntropyApp::new(Language::English);
    let mut settings = app.app_settings.sticky_layout;
    settings.window_open = true;
    let mut unlock = LayoutIndicatorUnlock { unlock_open: false, open_after_unlock: false };
    let mut status = StatusMessage::Literal("");

    assert!(!close_layout_indicator_while_locked(&mut settings, &mut unlock, &mut status, false));
    assert!(settings.window_open);
    assert!(close_layout_indicator_while_locked(&mut settings, &mut unlock, &mut status, true));
    assert!(!settings.window_open);
    assert_eq!(unlock, LayoutIndicatorUnlock { unlock_open: true, open_after_unlock: true });
    assert!(is_unlock_request(&status));
}
