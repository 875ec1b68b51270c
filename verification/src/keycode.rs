use vstd::prelude::*;

verus! {

/// The empty keycode (`KC_NO`).
pub const KC_NO: u16 = 0x0000;

/// The transparent keycode (`KC_TRNS`): the key inherits the binding of a lower layer.
pub const KC_TRNS: u16 = 0x0001;

/// QMK layer-operation keycodes (`TO`, `MO`, `DF`, `TG`, `OSL`, `OSM`, `TT`, `PDF`)
/// occupy `0x5200..0x5300`: bits 5..8 select the operation, bits 0..5 the target.
pub open spec fn is_layer_op_keycode(kc: u16) -> bool {
    0x5200 <= kc < 0x5300
}

/// The operation and target of a layer-operation keycode.
pub open spec fn layer_op_of(kc: u16) -> Option<(u8, usize)> {
    if is_layer_op_keycode(kc) {
        Some((((kc - 0x5200) / 32) as u8, ((kc - 0x5200) % 32) as usize))
    } else {
        None
    }
}

/// Decodes a layer-operation keycode into its operation number and target layer.
pub fn vial_layer_op_target(kc: u16) -> (res: Option<(u8, usize)>)
    ensures
        res == layer_op_of(kc),
{
    if 0x5200 <= kc && kc < 0x5300 {
        let offset = kc - 0x5200;
        Some(((offset / 32) as u8, (offset % 32) as usize))
    } else {
        None
    }
}

/// Whether `kc` is a one-modifier bit (Ctrl, Shift, Alt or GUI) of the 4-bit modifier field.
pub open spec fn is_single_modifier(mods: u16) -> bool {
    mods == 1 || mods == 2 || mods == 4 || mods == 8
}

/// The same binding on the other hand: left Ctrl/Shift/Alt/GUI become the right ones
/// and back. Plain modifiers (`0xE0..=0xE7`), modified keys (`0x0100..0x2000`),
/// mod-taps (`0x2000..0x4000`) and one-shot modifiers (`0x52A0..0x52C0`) carrying
/// exactly one modifier have a counterpart; chords and all other keycodes have none.
pub open spec fn handed_counterpart(kc: u16) -> Option<u16> {
    if 0xE0 <= kc <= 0xE7 {
        Some(if kc < 0xE4 { (kc + 4) as u16 } else { (kc - 4) as u16 })
    } else if (0x0100 <= kc < 0x4000) && kc % 256 != 0 && is_single_modifier((kc / 256) % 16) {
        Some(if (kc / 0x1000) % 2 == 0 { (kc + 0x1000) as u16 } else { (kc - 0x1000) as u16 })
    } else if 0x52A0 <= kc < 0x52C0 && is_single_modifier(kc % 16) {
        Some(if kc < 0x52B0 { (kc + 0x10) as u16 } else { (kc - 0x10) as u16 })
    } else {
        None
    }
}

/// Swaps the hand of a single-modifier binding; `None` where the keycode has no handed
/// counterpart.
pub fn toggle_handed_modifier(kc: u16) -> (res: Option<u16>)
    ensures
        res == handed_counterpart(kc),
{
    if 0xE0 <= kc && kc <= 0xE7 {
        Some(if kc < 0xE4 { kc + 4 } else { kc - 4 })
    } else if 0x0100 <= kc && kc < 0x4000 && kc % 256 != 0 && {
        let mods = (kc / 256) % 16;
        mods == 1 || mods == 2 || mods == 4 || mods == 8
    } {
        Some(if (kc / 0x1000) % 2 == 0 { kc + 0x1000 } else { kc - 0x1000 })
    } else if 0x52A0 <= kc && kc < 0x52C0 && {
        let mods = kc % 16;
        mods == 1 || mods == 2 || mods == 4 || mods == 8
    } {
        Some(if kc < 0x52B0 { kc + 0x10 } else { kc - 0x10 })
    } else {
        None
    }
}

/// Swapping the hand twice gives the keycode back.
pub proof fn lemma_handed_counterpart_involutive(kc: u16)
    requires
        handed_counterpart(kc) is Some,
    ensures
        handed_counterpart(handed_counterpart(kc)->0) == Some(kc),
{
    let other = handed_counterpart(kc)->0;
    if 0xE0 <= kc <= 0xE7 {
    } else if (0x0100 <= kc < 0x4000) && kc % 256 != 0 && is_single_modifier((kc / 256) % 16) {
        assert((other / 256) % 16 == (kc / 256) % 16);
        assert(other % 256 == kc % 256);
    } else {
    }
}

} // verus!
