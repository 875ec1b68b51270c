//! Window policies of the floating layout indicator.
use vstd::prelude::*;

use crate::app::{EntropyApp, StatusMessage};

verus! {

/// Which keys the layout indicator shows.
#[derive(Clone, Copy, Debug, PartialEq, Eq, Structural)]
pub enum StickyLayoutVisibilityMode {
    /// The whole layout, with the pressed keys marked.
    LayoutAndPresses,
    /// Only the pressed keys.
    PressedOnly,
}

/// The layout indicator's window settings that the application saves.
#[derive(Clone, Copy, Debug, PartialEq, Eq, Structural)]
pub struct StickyLayoutSettings {
    pub window_open: bool,
    pub dark_mode: bool,
    pub visibility_mode: StickyLayoutVisibilityMode,
    pub always_on_top: bool,
}

/// An event of the indicator window, with what the window's measurements showed: whether
/// the opacity chosen differs from the saved one, whether a new window size differs from
/// the last one seen and from the saved one. Sizes that are not positive and finite are
/// not events.
#[derive(Clone, Copy, Debug, PartialEq, Eq, Structural)]
pub enum StickyLayoutViewportEvent {
    Close,
    Controls {
        dark_mode: bool,
        opacity_changed: bool,
        visibility_mode: StickyLayoutVisibilityMode,
        always_on_top: bool,
    },
    WindowSize { resized: bool, differs_from_saved: bool },
    ResizeActive,
}

/// How long the indicator stays opaque after a resize, in frames.
pub const STICKY_LAYOUT_RESIZE_HOLD_FRAMES: u8 = 8;

/// The settings, the opacity hold and whether the window closes and the settings must be
/// saved, after the events in order.
pub open spec fn after_viewport_events(
    settings: StickyLayoutSettings,
    hold: u8,
    events: Seq<StickyLayoutViewportEvent>,
) -> (StickyLayoutSettings, u8, bool, bool)
    decreases events.len(),
{
    if events.len() == 0 {
        (settings, hold, false, false)
    } else {
        let (s, h, close, save) = after_viewport_events(settings, hold, events.drop_last());
        match events.last() {
            StickyLayoutViewportEvent::Close => (s, h, true, true),
            StickyLayoutViewportEvent::Controls { dark_mode, opacity_changed, visibility_mode, always_on_top } => (
                StickyLayoutSettings { dark_mode, visibility_mode, always_on_top, ..s },
                h,
                close,
                save || s.dark_mode != dark_mode || opacity_changed || s.visibility_mode != visibility_mode
                    || s.always_on_top != always_on_top,
            ),
            StickyLayoutViewportEvent::WindowSize { resized, differs_from_saved } => (
                s,
                if resized { STICKY_LAYOUT_RESIZE_HOLD_FRAMES } else { h },
                close,
                save || differs_from_saved,
            ),
            StickyLayoutViewportEvent::ResizeActive => (s, STICKY_LAYOUT_RESIZE_HOLD_FRAMES, close, save),
        }
    }
}

/// The stacking level of the indicator window.
#[derive(Clone, Copy, Debug, PartialEq, Eq, Structural)]
pub enum StickyLayoutWindowLevel {
    Normal,
    AlwaysOnTop,
}

/// The level of the indicator window: on top of other windows while pinned.
pub open spec fn window_level_of(always_on_top: bool) -> StickyLayoutWindowLevel {
    if always_on_top {
        StickyLayoutWindowLevel::AlwaysOnTop
    } else {
        StickyLayoutWindowLevel::Normal
    }
}

/// The level of the indicator window: on top of other windows while pinned.
pub fn sticky_layout_window_level(always_on_top: bool) -> (level: StickyLayoutWindowLevel)
    ensures
        level == window_level_of(always_on_top),
{
    if always_on_top {
        StickyLayoutWindowLevel::AlwaysOnTop
    } else {
        StickyLayoutWindowLevel::Normal
    }
}

/// What pinning or unpinning the indicator window sends to it: the new level, and whether
/// it may be resized; pinning and unpinning send opposite commands.
pub fn sticky_layout_pin_viewport_commands(always_on_top: bool) -> (commands: (StickyLayoutWindowLevel, bool))
    ensures
        commands == (window_level_of(always_on_top), !always_on_top),
        commands.0 == StickyLayoutWindowLevel::AlwaysOnTop <==> !commands.1,
{
    (sticky_layout_window_level(always_on_top), sticky_layout_window_resizable(always_on_top))
}

/// The indicator window can be resized only while it is not pinned on top.
pub fn sticky_layout_window_resizable(always_on_top: bool) -> (r: bool)
    ensures
        r == !always_on_top,
{
    !always_on_top
}

/// Whether the indicator window must be brought to the front: when it opens pinned on top,
/// or when it becomes pinned; never merely because it stays pinned.
pub fn sticky_layout_should_bring_window_forward(
    window_opening: bool,
    was_always_on_top: bool,
    is_always_on_top: bool,
) -> (r: bool)
    ensures
        r == ((window_opening && is_always_on_top) || (!was_always_on_top && is_always_on_top)),
        !is_always_on_top ==> !r,
        !window_opening && was_always_on_top ==> !r,
{
    (window_opening && is_always_on_top) || (!was_always_on_top && is_always_on_top)
}

impl EntropyApp {
    /// Takes in the indicator window's events of one frame, in order: closing it, its
    /// control changes, its new sizes and an active resize. The opacity hold then counts
    /// down one frame; a close shuts the window and ends the hold. Returns whether the window
    /// closed and whether the settings changed and must be saved.
    pub fn apply_sticky_layout_viewport_events(&mut self, events: &Vec<StickyLayoutViewportEvent>) -> (result: (
        bool,
        bool,
    ))
        ensures
            ({
                let (s, h, close, save) = after_viewport_events(
                    old(self).app_settings.sticky_layout,
                    old(self).sticky_layout_resize_opacity_hold_frames,
                    events@,
                );
                let counted = if h > 0 { (h - 1) as u8 } else { 0u8 };
                &&& result == (close, save)
                &&& final(self).app_settings.sticky_layout == (if close {
                    StickyLayoutSettings { window_open: false, ..s }
                } else {
                    s
                })
                &&& final(self).sticky_layout_resize_opacity_hold_frames == (if close { 0u8 } else { counted })
            }),
            *final(self) == (EntropyApp {
                app_settings: crate::app::AppSettings {
                    sticky_layout: final(self).app_settings.sticky_layout,
                    ..old(self).app_settings
                },
                sticky_layout_resize_opacity_hold_frames: final(self).sticky_layout_resize_opacity_hold_frames,
                ..*old(self)
            }),
    {
        let ghost settings0 = self.app_settings.sticky_layout;
        let ghost hold0 = self.sticky_layout_resize_opacity_hold_frames;
        let mut settings = self.app_settings.sticky_layout;
        let mut hold = self.sticky_layout_resize_opacity_hold_frames;
        let mut should_close = false;
        let mut should_save = false;
        let mut i: usize = 0;
        while i < events.len()
            invariant
                i <= events.len(),
                (settings, hold, should_close, should_save) == after_viewport_events(
                    settings0,
                    hold0,
                    events@.take(i as int),
                ),
            decreases events.len() - i,
        {
            proof {
                assert(events@.take(i as int + 1).drop_last() =~= events@.take(i as int));
            }
            match events[i] {
                StickyLayoutViewportEvent::Close => {
                    should_close = true;
                    should_save = true;
                },
                StickyLayoutViewportEvent::Controls { dark_mode, opacity_changed, visibility_mode, always_on_top } => {
                    if settings.dark_mode != dark_mode {
                        settings.dark_mode = dark_mode;
                        should_save = true;
                    }
                    if opacity_changed {
                        should_save = true;
                    }
                    if settings.visibility_mode != visibility_mode {
                        settings.visibility_mode = visibility_mode;
                        should_save = true;
                    }
                    if settings.always_on_top != always_on_top {
                        settings.always_on_top = always_on_top;
                        should_save = true;
                    }
                },
                StickyLayoutViewportEvent::WindowSize { resized, differs_from_saved } => {
                    if resized {
                        hold = STICKY_LAYOUT_RESIZE_HOLD_FRAMES;
                    }
                    if differs_from_saved {
                        should_save = true;
                    }
                },
                StickyLayoutViewportEvent::ResizeActive => {
                    hold = STICKY_LAYOUT_RESIZE_HOLD_FRAMES;
                },
            }
            i = i + 1;
        }
        proof {
            assert(events@.take(events@.len() as int) =~= events@);
        }
        if hold > 0 {
            hold = hold - 1;
        }
        if should_close {
            settings.window_open = false;
            hold = 0;
        }
        self.app_settings.sticky_layout = settings;
        self.sticky_layout_resize_opacity_hold_frames = hold;
        (should_close, should_save)
    }
}

/// What the layout indicator's menu entry did.
#[derive(Clone, Copy, Debug, PartialEq, Eq, Structural)]
pub enum LayoutIndicatorToggle {
    /// The open window closed.
    Closed,
    /// The keyboard is locked: the unlock dialog opened, and the window opens after it.
    AwaitingUnlock,
    /// The window opened.
    Opened,
}

/// The message that asks the user to unlock the keyboard first.
pub open spec fn asks_to_unlock(msg: StatusMessage) -> bool {
    msg.is_plain("matrix_tester.keyboard_is_locked_unlock_it_to_use_matrix_tester")
}

/// The state around the layout indicator that waits on an unlock of the keyboard.
#[derive(Clone, Copy, Debug, PartialEq, Eq, Structural)]
pub struct LayoutIndicatorUnlock {
    /// Whether the dialog that unlocks the keyboard is open.
    pub unlock_open: bool,
    /// Whether the layout indicator opens once the keyboard is unlocked.
    pub open_after_unlock: bool,
}

/// The layout indicator's menu entry: an open window closes (and no longer waits to open
/// after an unlock); a closed one opens, unless the keyboard is locked, where the unlock
/// dialog opens with a message and the window waits to open after the unlock. The
/// settings are saved after `Closed` and `Opened`.
pub fn toggle_layout_indicator_window(
    settings: &mut StickyLayoutSettings,
    unlock: &mut LayoutIndicatorUnlock,
    status: &mut StatusMessage,
    vial_locked: bool,
) -> (toggle: LayoutIndicatorToggle)
    ensures
        if old(settings).window_open {
            &&& toggle == LayoutIndicatorToggle::Closed
            &&& *final(settings) == (StickyLayoutSettings { window_open: false, ..*old(settings) })
            &&& *final(unlock) == (LayoutIndicatorUnlock { open_after_unlock: false, ..*old(unlock) })
            &&& *final(status) == *old(status)
        } else if vial_locked {
            &&& toggle == LayoutIndicatorToggle::AwaitingUnlock
            &&& *final(settings) == *old(settings)
            &&& *final(unlock) == (LayoutIndicatorUnlock { unlock_open: true, open_after_unlock: true })
            &&& asks_to_unlock(*final(status))
        } else {
            &&& toggle == LayoutIndicatorToggle::Opened
            &&& *final(settings) == (StickyLayoutSettings { window_open: true, ..*old(settings) })
            &&& *final(unlock) == *old(unlock)
            &&& *final(status) == *old(status)
        },
{
    if settings.window_open {
        settings.window_open = false;
        unlock.open_after_unlock = false;
        LayoutIndicatorToggle::Closed
    } else if vial_locked {
        unlock.unlock_open = true;
        unlock.open_after_unlock = true;
        *status = StatusMessage::plain("matrix_tester.keyboard_is_locked_unlock_it_to_use_matrix_tester");
        LayoutIndicatorToggle::AwaitingUnlock
    } else {
        settings.window_open = true;
        LayoutIndicatorToggle::Opened
    }
}

/// The open layout indicator finds the keyboard locked: the window closes, the unlock
/// dialog opens with a message, and the window waits to open after the unlock. Returns
/// whether that happened (and the settings must be saved); nothing changes when the window
/// is closed or the keyboard is unlocked.
pub fn close_layout_indicator_while_locked(
    settings: &mut StickyLayoutSettings,
    unlock: &mut LayoutIndicatorUnlock,
    status: &mut StatusMessage,
    vial_locked: bool,
) -> (closed: bool)
    ensures
        closed == (old(settings).window_open && vial_locked),
        !closed ==> *final(settings) == *old(settings) && *final(unlock) == *old(unlock)
            && *final(status) == *old(status),
        closed ==> *final(settings) == (StickyLayoutSettings { window_open: false, ..*old(settings) })
            && *final(unlock) == (LayoutIndicatorUnlock { unlock_open: true, open_after_unlock: true })
            && asks_to_unlock(*final(status)),
{
    if !(settings.window_open && vial_locked) {
        return false;
    }
    settings.window_open = false;
    unlock.unlock_open = true;
    unlock.open_after_unlock = true;
    *status = StatusMessage::plain("matrix_tester.keyboard_is_locked_unlock_it_to_use_matrix_tester");
    true
}

impl EntropyApp {
    /// The switch matrix the open layout indicator polls in the background, as rows and
    /// columns: none while the window is closed, the keyboard is locked, or no layout is
    /// known.
    pub fn poll_sticky_layout_background(&self, vial_locked: bool) -> (matrix: Option<(usize, usize)>)
        ensures
            matrix == (if !self.app_settings.sticky_layout.window_open || vial_locked {
                None
            } else {
                match self.layout {
                    Some(l) => Some((l.rows, l.cols)),
                    None => None,
                }
            }),
    {
        if !self.app_settings.sticky_layout.window_open || vial_locked {
            return None;
        }
        match &self.layout {
            Some(l) => Some((l.rows, l.cols)),
            None => None,
        }
    }
}

} // verus!
