//! The hints shown under the layout for the key under the pointer.
use vstd::prelude::*;

use crate::keycode::{handed_counterpart, toggle_handed_modifier};
use crate::secondary_click::SecondaryClickBinding;

verus! {

/// What kind of binding the hovered key holds, as far as the hints depend on it.
#[derive(Clone, Copy, Debug, PartialEq, Eq, Structural)]
pub enum LayoutBottomHintKind {
    Empty,
    Basic,
    Modifier { can_swap_side: bool, can_retarget_key: bool, is_mod_tap: bool },
    Macro,
    TapDance,
    Mouse { settings_available: bool },
    AltRepeat,
    GraveEscape,
    Layer { is_layer_tap: bool },
}

/// The catalog key of the hint that the key can be changed.
pub open spec fn change_key_hint() -> &'static str {
    "key_hints.change_key"
}

/// The catalog key of the hint that the key can be cleared.
pub open spec fn clear_key_hint() -> &'static str {
    "key_hints.clear_key"
}

/// The hints for a kind of binding, in the order they are shown.
pub open spec fn hint_keys(kind: LayoutBottomHintKind, transparent: bool) -> Seq<&'static str> {
    match kind {
        LayoutBottomHintKind::Empty => if transparent {
            seq![change_key_hint(), clear_key_hint()]
        } else {
            seq![change_key_hint()]
        },
        LayoutBottomHintKind::Basic => seq![change_key_hint(), clear_key_hint()],
        LayoutBottomHintKind::Modifier { can_swap_side, can_retarget_key, is_mod_tap } => {
            if !can_swap_side && can_retarget_key && is_mod_tap {
                seq![change_key_hint(), "key_hints.change_mod_tap_key", clear_key_hint()]
            } else if !can_swap_side {
                seq![change_key_hint(), "key_hints.change_modifier_key", clear_key_hint()]
            } else if !can_retarget_key {
                seq![change_key_hint(), "key_hints.switch_modifier_side", clear_key_hint()]
            } else if is_mod_tap {
                seq![
                    change_key_hint(),
                    "key_hints.change_mod_tap_key",
                    "key_hints.switch_modifier_side",
                    clear_key_hint(),
                ]
            } else {
                seq![
                    change_key_hint(),
                    "key_hints.change_modifier_key",
                    "key_hints.switch_modifier_side",
                    clear_key_hint(),
                ]
            }
        },
        LayoutBottomHintKind::Macro => seq![change_key_hint(), "key_hints.edit_macro", clear_key_hint()],
        LayoutBottomHintKind::TapDance => seq![
            change_key_hint(),
            "key_hints.edit_tap_dance",
            clear_key_hint(),
        ],
        LayoutBottomHintKind::Mouse { settings_available } => if settings_available {
            seq![change_key_hint(), "key_hints.open_mouse_keys", clear_key_hint()]
        } else {
            seq![change_key_hint(), clear_key_hint()]
        },
        LayoutBottomHintKind::AltRepeat => seq![
            change_key_hint(),
            "key_hints.open_alt_repeat",
            clear_key_hint(),
        ],
        LayoutBottomHintKind::GraveEscape => seq![
            change_key_hint(),
            "key_hints.open_grave_escape",
            clear_key_hint(),
        ],
        LayoutBottomHintKind::Layer { is_layer_tap } => if is_layer_tap {
            seq![
                change_key_hint(),
                "key_hints.go_to_that_layer",
                "key_hints.change_tap_key",
                clear_key_hint(),
            ]
        } else {
            seq![
                change_key_hint(),
                "key_hints.go_to_that_layer",
                "key_hints.change_layer_target",
                clear_key_hint(),
            ]
        },
    }
}

impl LayoutBottomHintKind {
    /// The catalog keys of the hints for this kind of binding, in the order they are shown.
    /// Changing the key always comes first; clearing it comes last, and is offered for every
    /// binding except an empty one (unless middle click makes keys transparent).
    pub fn keys(self, middle_click_assigns_transparent: bool) -> (keys: Vec<&'static str>)
        ensures
            keys@ == hint_keys(self, middle_click_assigns_transparent),
            keys@.len() >= 1,
            keys@[0] == change_key_hint(),
            (keys@.last() == clear_key_hint()) <==> !(self is Empty && !middle_click_assigns_transparent),
    {
        let keys = match self {
            LayoutBottomHintKind::Empty => if middle_click_assigns_transparent {
                vec!["key_hints.change_key", "key_hints.clear_key"]
            } else {
                vec!["key_hints.change_key"]
            },
            LayoutBottomHintKind::Basic => vec!["key_hints.change_key", "key_hints.clear_key"],
            LayoutBottomHintKind::Modifier { can_swap_side, can_retarget_key, is_mod_tap } => {
                if !can_swap_side && can_retarget_key && is_mod_tap {
                    vec!["key_hints.change_key", "key_hints.change_mod_tap_key", "key_hints.clear_key"]
                } else if !can_swap_side {
                    vec!["key_hints.change_key", "key_hints.change_modifier_key", "key_hints.clear_key"]
                } else if !can_retarget_key {
                    vec!["key_hints.change_key", "key_hints.switch_modifier_side", "key_hints.clear_key"]
                } else if is_mod_tap {
                    vec![
                        "key_hints.change_key",
                        "key_hints.change_mod_tap_key",
                        "key_hints.switch_modifier_side",
                        "key_hints.clear_key",
                    ]
                } else {
                    vec![
                        "key_hints.change_key",
                        "key_hints.change_modifier_key",
                        "key_hints.switch_modifier_side",
                        "key_hints.clear_key",
                    ]
                }
            },
            LayoutBottomHintKind::Macro => vec![
                "key_hints.change_key",
                "key_hints.edit_macro",
                "key_hints.clear_key",
            ],
            LayoutBottomHintKind::TapDance => vec![
                "key_hints.change_key",
                "key_hints.edit_tap_dance",
                "key_hints.clear_key",
            ],
            LayoutBottomHintKind::Mouse { settings_available } => if settings_available {
                vec!["key_hints.change_key", "key_hints.open_mouse_keys", "key_hints.clear_key"]
            } else {
                vec!["key_hints.change_key", "key_hints.clear_key"]
            },
            LayoutBottomHintKind::AltRepeat => vec![
                "key_hints.change_key",
                "key_hints.open_alt_repeat",
                "key_hints.clear_key",
            ],
            LayoutBottomHintKind::GraveEscape => vec![
                "key_hints.change_key",
                "key_hints.open_grave_escape",
                "key_hints.clear_key",
            ],
            LayoutBottomHintKind::Layer { is_layer_tap } => if is_layer_tap {
                vec![
                    "key_hints.change_key",
                    "key_hints.go_to_that_layer",
                    "key_hints.change_tap_key",
                    "key_hints.clear_key",
                ]
            } else {
                vec![
                    "key_hints.change_key",
                    "key_hints.go_to_that_layer",
                    "key_hints.change_layer_target",
                    "key_hints.clear_key",
                ]
            },
        };
        proof {
            reveal_strlit("key_hints.change_key");
            reveal_strlit("key_hints.clear_key");
        }
        assert(keys@ =~= hint_keys(self, middle_click_assigns_transparent));
        keys
    }
}

/// Whether `kc` is a plain modifier: a modifier key (`0xE0..=0xE7`) or a one-shot modifier
/// of exactly one of Ctrl, Shift, Alt or GUI, on either hand.
pub open spec fn is_plain_modifier(kc: u16) -> bool {
    ||| 0x00E0 <= kc <= 0x00E7
    ||| kc == 0x52A1 || kc == 0x52A2 || kc == 0x52A4 || kc == 0x52A7 || kc == 0x52A8
    ||| kc == 0x52AF || kc == 0x52B1 || kc == 0x52B2 || kc == 0x52B4 || kc == 0x52B8
}

/// Whether `kc` is a key combined with modifiers (`0x0100..0x2000`, with a key).
pub open spec fn is_modified_key(kc: u16) -> bool {
    0x0100 <= kc < 0x2000 && kc % 256 != 0
}

/// The hint kind of the hovered binding `b`: empty; a modifier (plain, modified key or
/// mod-tap, with whether its hand can be swapped and its key changed); a macro; a tap
/// dance; a mouse key (with whether its settings can be opened); an alt-repeat key; grave
/// escape; a layer key (with whether it is a layer-tap); else a basic key.
pub open spec fn hint_kind_of(b: SecondaryClickBinding, is_empty: bool, mouse_settings_supported: bool) -> LayoutBottomHintKind {
    let kc = b.keycode;
    let is_native_mod_tap = b.native_mod_tap_base is Some;
    let is_mod_tap = (0x2000 <= kc < 0x4000) || is_native_mod_tap;
    let is_mod = is_plain_modifier(kc) || is_mod_tap || is_modified_key(kc);
    let is_layer = b.layer_target is Some;
    if is_empty {
        LayoutBottomHintKind::Empty
    } else if is_mod {
        LayoutBottomHintKind::Modifier {
            can_swap_side: handed_counterpart(kc) is Some || is_native_mod_tap,
            can_retarget_key: !is_layer && (is_mod_tap || is_modified_key(kc)),
            is_mod_tap,
        }
    } else if 0x7700 <= kc <= 0x77FF {
        LayoutBottomHintKind::Macro
    } else if 0x5700 <= kc <= 0x57FF {
        LayoutBottomHintKind::TapDance
    } else if b.is_mouse_key {
        LayoutBottomHintKind::Mouse { settings_available: mouse_settings_supported }
    } else if b.is_alt_repeat_key {
        LayoutBottomHintKind::AltRepeat
    } else if kc == 0x7C16 {
        LayoutBottomHintKind::GraveEscape
    } else if is_layer {
        LayoutBottomHintKind::Layer { is_layer_tap: 0x4000 <= kc < 0x5000 }
    } else {
        LayoutBottomHintKind::Basic
    }
}

/// The hint kind of the hovered binding, as `hint_kind_of` says. `is_empty` says whether the
/// binding assigns nothing; the keycode classes come with `b`.
pub fn layout_hint_kind(b: SecondaryClickBinding, is_empty: bool, mouse_settings_supported: bool) -> (kind: LayoutBottomHintKind)
    ensures
        kind == hint_kind_of(b, is_empty, mouse_settings_supported),
{
    let kc = b.keycode;
    let is_native_mod_tap = b.native_mod_tap_base.is_some();
    let is_mod_tap = (0x2000 <= kc && kc < 0x4000) || is_native_mod_tap;
    let is_plain_mod = (0x00E0 <= kc && kc <= 0x00E7) || kc == 0x52A1 || kc == 0x52A2 || kc == 0x52A4
        || kc == 0x52A7 || kc == 0x52A8 || kc == 0x52AF || kc == 0x52B1 || kc == 0x52B2 || kc == 0x52B4
        || kc == 0x52B8;
    let is_modified = 0x0100 <= kc && kc < 0x2000 && kc % 256 != 0;
    let is_layer = b.layer_target.is_some();
    if is_empty {
        LayoutBottomHintKind::Empty
    } else if is_plain_mod || is_mod_tap || is_modified {
        LayoutBottomHintKind::Modifier {
            can_swap_side: toggle_handed_modifier(kc).is_some() || is_native_mod_tap,
            can_retarget_key: !is_layer && (is_mod_tap || is_modified),
            is_mod_tap,
        }
    } else if 0x7700 <= kc && kc <= 0x77FF {
        LayoutBottomHintKind::Macro
    } else if 0x5700 <= kc && kc <= 0x57FF {
        LayoutBottomHintKind::TapDance
    } else if b.is_mouse_key {
        LayoutBottomHintKind::Mouse { settings_available: mouse_settings_supported }
    } else if b.is_alt_repeat_key {
        LayoutBottomHintKind::AltRepeat
    } else if kc == 0x7C16 {
        LayoutBottomHintKind::GraveEscape
    } else if is_layer {
        LayoutBottomHintKind::Layer { is_layer_tap: 0x4000 <= kc && kc < 0x5000 }
    } else {
        LayoutBottomHintKind::Basic
    }
}


/// Whether the hovered key holds a layer-tap binding (`0x4000..=0x4FFF`).
pub open spec fn is_layer_tap_keycode(kc: Option<u16>) -> bool {
    kc matches Some(k) && 0x4000 <= k < 0x5000
}

/// The hints while the pointer rests on a layer key and the layout previews layer
/// `hover_layer`: changing the key; going to that layer, unless it is the selected one;
/// changing the tap key of a layer-tap key, else the layer number; going back, while there
/// is a layer to jump back to.
pub open spec fn hover_layer_hints(
    hover_layer: usize,
    selected_layer: usize,
    is_layer_tap: bool,
    jump_back: bool,
) -> Seq<&'static str> {
    let first = seq![change_key_hint()];
    let with_go_to = if hover_layer != selected_layer {
        first.push("key_hints.go_to_layer")
    } else {
        first
    };
    let with_action = with_go_to.push(
        if is_layer_tap {
            "key_hints.change_tap_key"
        } else {
            "key_hints.change_layer_number"
        },
    );
    if jump_back {
        with_action.push("key_hints.esc_back")
    } else {
        with_action
    }
}

/// The hints while the layout shows a layer jumped to and no layer is previewed: changing
/// the key when one is hovered, then going back.
pub open spec fn jump_back_hints(any_hovered: bool) -> Seq<&'static str> {
    if any_hovered {
        seq![change_key_hint(), "key_hints.right_click_or_esc_back"]
    } else {
        seq!["key_hints.right_click_or_esc_back"]
    }
}

/// The catalog keys of the hints while layer `hover_layer` is previewed, in the order they
/// are shown; `hovered_keycode` is the keycode of the key the hints are about, if any. The
/// hint to go to the layer takes the layer's number and name.
pub fn hover_layer_hint_keys(
    hover_layer: usize,
    selected_layer: usize,
    hovered_keycode: Option<u16>,
    jump_back: bool,
) -> (keys: Vec<&'static str>)
    ensures
        keys@ == hover_layer_hints(
            hover_layer,
            selected_layer,
            is_layer_tap_keycode(hovered_keycode),
            jump_back,
        ),
{
    let is_layer_tap = match hovered_keycode {
        Some(kc) => {
            assert(((kc & 0xF000u16) == 0x4000u16) == (0x4000u16 <= kc && kc < 0x5000u16)) by (bit_vector);
            (kc & 0xF000) == 0x4000
        },
        None => false,
    };
    let mut keys: Vec<&'static str> = vec!["key_hints.change_key"];
    if hover_layer != selected_layer {
        keys.push("key_hints.go_to_layer");
    }
    if is_layer_tap {
        keys.push("key_hints.change_tap_key");
    } else {
        keys.push("key_hints.change_layer_number");
    }
    if jump_back {
        keys.push("key_hints.esc_back");
    }
    keys
}

/// The catalog keys of the hints while a layer jumped to is shown and none is previewed, in
/// the order they are shown.
pub fn jump_back_hint_keys(any_hovered: bool) -> (keys: Vec<&'static str>)
    ensures
        keys@ == jump_back_hints(any_hovered),
{
    if any_hovered {
        vec!["key_hints.change_key", "key_hints.right_click_or_esc_back"]
    } else {
        vec!["key_hints.right_click_or_esc_back"]
    }
}

} // verus!
