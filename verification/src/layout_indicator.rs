use vstd::prelude::*;

use crate::keyboard::{ComboEntry, KeyboardLayout, PhysicalKey, TapDanceEntry};
use crate::keycode::{layer_op_of, vial_layer_op_target, KC_TRNS};
use crate::app::EntropyApp;

verus! {

// ---------------------------------------------------------------------------
// Layer keycodes
// ---------------------------------------------------------------------------

/// The layer a keycode activates while its key is held: `MO`, `OSL`, `TT` (layer
/// operations 1, 4 and 6), `LT` (`0x4000..0x5000`, layer in bits 8..12) and `LM`
/// (`0x5000..0x5200`, layer in bits 4..8).
pub open spec fn momentary_target(kc: u16) -> Option<usize> {
    match layer_op_of(kc) {
        Some((op, target)) => if op == 1 || op == 4 || op == 6 {
            Some(target)
        } else {
            None
        },
        None => if 0x4000 <= kc < 0x5000 {
            Some(((kc - 0x4000) / 256) as usize)
        } else if 0x5000 <= kc < 0x5200 {
            Some((((kc - 0x5000) / 16) % 16) as usize)
        } else {
            None
        },
    }
}

/// The layer a `TG` keycode (layer operation 3) toggles.
pub open spec fn toggle_target(kc: u16) -> Option<usize> {
    match layer_op_of(kc) {
        Some((op, target)) => if op == 3 {
            Some(target)
        } else {
            None
        },
        None => None,
    }
}

/// The layer a `TO`, `DF` or `PDF` keycode (layer operations 0, 2 and 7) makes the base.
pub open spec fn base_target(kc: u16) -> Option<usize> {
    match layer_op_of(kc) {
        Some((op, target)) => if op == 0 || op == 2 || op == 7 {
            Some(target)
        } else {
            None
        },
        None => None,
    }
}

pub fn sticky_momentary_layer_target(kc: u16) -> (res: Option<usize>)
    ensures
        res == momentary_target(kc),
{
    if let Some((op, target)) = vial_layer_op_target(kc) {
        return if op == 1 || op == 4 || op == 6 {
            Some(target)
        } else {
            None
        };
    }
    if 0x4000 <= kc && kc < 0x5000 {
        return Some(((kc - 0x4000) / 256) as usize);
    }
    if 0x5000 <= kc && kc < 0x5200 {
        return Some((((kc - 0x5000) / 16) % 16) as usize);
    }
    None
}

pub fn sticky_toggle_layer_target(kc: u16) -> (res: Option<usize>)
    ensures
        res == toggle_target(kc),
{
    match vial_layer_op_target(kc) {
        Some((op, target)) => if op == 3 {
            Some(target)
        } else {
            None
        },
        None => None,
    }
}

pub fn sticky_base_layer_target(kc: u16) -> (res: Option<usize>)
    ensures
        res == base_target(kc),
{
    match vial_layer_op_target(kc) {
        Some((op, target)) => if op == 0 || op == 2 || op == 7 {
            Some(target)
        } else {
            None
        },
        None => None,
    }
}

// ---------------------------------------------------------------------------
// Effective keycodes
// ---------------------------------------------------------------------------

/// The first keycode for `key` that is not transparent, searching the layers below
/// `layer` from the top down; `KC_NO` when every one of them is transparent.
pub open spec fn fallback_keycode(layout: KeyboardLayout, layer: int, key: int) -> u16
    decreases layer,
{
    if layer <= 0 {
        0
    } else if layout.keycode_at(layer - 1, key) != KC_TRNS {
        layout.keycode_at(layer - 1, key)
    } else {
        fallback_keycode(layout, layer - 1, key)
    }
}

/// The keycode a key actually sends on `layer`: its own keycode, or for a transparent
/// key the first non-transparent keycode of a lower layer.
pub open spec fn effective_keycode(layout: KeyboardLayout, layer: int, key: int) -> u16 {
    if layout.keycode_at(layer, key) != KC_TRNS {
        layout.keycode_at(layer, key)
    } else {
        fallback_keycode(layout, layer, key)
    }
}

pub fn layout_effective_keycode(layout: &KeyboardLayout, layer: usize, key_idx: usize) -> (kc:
    u16)
    ensures
        kc == effective_keycode(*layout, layer as int, key_idx as int),
{
    let kc = layout.get_keycode(layer, key_idx);
    if kc != KC_TRNS {
        return kc;
    }
    let mut fallback_layer = layer;
    while fallback_layer > 0
        invariant
            fallback_layer <= layer,
            layout.keycode_at(layer as int, key_idx as int) == KC_TRNS,
            fallback_keycode(*layout, layer as int, key_idx as int) == fallback_keycode(
                *layout,
                fallback_layer as int,
                key_idx as int,
            ),
        decreases fallback_layer,
    {
        let candidate = layout.get_keycode(fallback_layer - 1, key_idx);
        if candidate != KC_TRNS {
            return candidate;
        }
        fallback_layer = fallback_layer - 1;
    }
    0
}

// ---------------------------------------------------------------------------
// Persistent layer actions
// ---------------------------------------------------------------------------

/// The toggled layers and base layer after a key sends `keycode`: `TG` flips its layer,
/// `TO`/`DF`/`PDF` make their layer the base and clear every toggle; targets at or above
/// `layer_count` and all other keycodes change nothing.
pub open spec fn persistent_layer_action(
    keycode: u16,
    layer_count: int,
    toggled: Seq<bool>,
    base: usize,
) -> (Seq<bool>, usize) {
    match toggle_target(keycode) {
        Some(target) if target < layer_count => if target < toggled.len() {
            (toggled.update(target as int, !toggled[target as int]), base)
        } else {
            (toggled, base)
        },
        _ => match base_target(keycode) {
            Some(target) if target < layer_count => (Seq::new(toggled.len(), |i: int| false), target),
            _ => (toggled, base),
        },
    }
}

pub fn sticky_apply_persistent_layer_action(
    keycode: u16,
    layer_count: usize,
    toggled_layers: &mut Vec<bool>,
    base_layer: &mut usize,
)
    ensures
        (final(toggled_layers)@, *final(base_layer)) == persistent_layer_action(
            keycode,
            layer_count as int,
            old(toggled_layers)@,
            *old(base_layer),
        ),
{
    let toggle = sticky_toggle_layer_target(keycode);
    if toggle.is_some() && toggle.unwrap() < layer_count {
        let target = toggle.unwrap();
        if target < toggled_layers.len() {
            let enabled = toggled_layers[target];
            toggled_layers.set(target, !enabled);
        }
        return;
    }
    let base = sticky_base_layer_target(keycode);
    if base.is_some() && base.unwrap() < layer_count {
        *base_layer = base.unwrap();
        let mut i: usize = 0;
        let ghost len = toggled_layers@.len();
        while i < toggled_layers.len()
            invariant
                toggled_layers@.len() == len,
                i <= len,
                forall|j: int| 0 <= j < i ==> toggled_layers@[j] == false,
            decreases len - i,
        {
            toggled_layers.set(i, false);
            i = i + 1;
        }
        assert(toggled_layers@ =~= Seq::new(len, |j: int| false));
    }
}

// ---------------------------------------------------------------------------
// Combos
// ---------------------------------------------------------------------------

/// How often `value` occurs in `s`.
pub open spec fn occurrences(s: Seq<u16>, value: u16) -> nat
    decreases s.len(),
{
    if s.len() == 0 {
        0
    } else {
        occurrences(s.drop_last(), value) + if s.last() == value {
            1nat
        } else {
            0nat
        }
    }
}

/// How often `value` occurs at the positions of `s` that `marked` flags.
pub open spec fn marked_occurrences(s: Seq<u16>, marked: Seq<bool>, value: u16) -> nat
    decreases s.len(),
{
    if s.len() == 0 || marked.len() == 0 {
        0
    } else {
        marked_occurrences(s.drop_last(), marked.drop_last(), value) + if marked.last()
            && s.last() == value {
            1nat
        } else {
            0nat
        }
    }
}

/// Whether the combo has at least one trigger (a non-zero slot).
pub open spec fn combo_has_trigger(combo: ComboEntry) -> bool {
    exists|k: int| 0 <= k < 4 && #[trigger] combo.keys@[k] != 0
}

/// A combo fires when it has at least one trigger, a non-empty output, and every trigger
/// is matched by a pressed key of its own: each non-zero keycode is pressed at least as
/// often as it occurs among the trigger slots.
pub open spec fn combo_active(combo: ComboEntry, pressed: Seq<u16>) -> bool {
    &&& combo_has_trigger(combo)
    &&& combo.output != 0
    &&& forall|kc: u16| kc != 0 ==> #[trigger] occurrences(combo.keys@, kc) <= occurrences(pressed, kc)
}

proof fn lemma_occurrences_take_succ(s: Seq<u16>, k: int, value: u16)
    requires
        0 <= k < s.len(),
    ensures
        occurrences(s.take(k + 1), value) == occurrences(s.take(k), value) + if s[k] == value {
            1nat
        } else {
            0nat
        },
{
    assert(s.take(k + 1).drop_last() =~= s.take(k));
}

proof fn lemma_marked_le(s: Seq<u16>, marked: Seq<bool>, value: u16)
    requires
        s.len() == marked.len(),
    ensures
        marked_occurrences(s, marked, value) <= occurrences(s, value),
    decreases s.len(),
{
    if s.len() > 0 {
        lemma_marked_le(s.drop_last(), marked.drop_last(), value);
    }
}

proof fn lemma_marked_all(s: Seq<u16>, marked: Seq<bool>, value: u16)
    requires
        s.len() == marked.len(),
        forall|i: int| 0 <= i < s.len() && s[i] == value ==> marked[i],
    ensures
        marked_occurrences(s, marked, value) == occurrences(s, value),
    decreases s.len(),
{
    if s.len() > 0 {
        lemma_marked_all(s.drop_last(), marked.drop_last(), value);
    }
}

proof fn lemma_marked_update(s: Seq<u16>, marked: Seq<bool>, idx: int, value: u16)
    requires
        s.len() == marked.len(),
        0 <= idx < s.len(),
        !marked[idx],
    ensures
        marked_occurrences(s, marked.update(idx, true), value) == marked_occurrences(
            s,
            marked,
            value,
        ) + if s[idx] == value {
            1nat
        } else {
            0nat
        },
    decreases s.len(),
{
    let m2 = marked.update(idx, true);
    if idx == s.len() - 1 {
        assert(m2.drop_last() =~= marked.drop_last());
    } else {
        assert(m2.drop_last() =~= marked.drop_last().update(idx, true));
        lemma_marked_update(s.drop_last(), marked.drop_last(), idx, value);
    }
}

pub fn sticky_combo_is_active(combo: &ComboEntry, pressed_keycodes: &[u16]) -> (active: bool)
    ensures
        active == combo_active(*combo, pressed_keycodes@),
{
    let n = pressed_keycodes.len();
    let ghost pressed = pressed_keycodes@;
    let mut used: Vec<bool> = Vec::new();
    while used.len() < n
        invariant
            used@.len() <= n,
            forall|i: int| 0 <= i < used@.len() ==> !used@[i],
        decreases n - used@.len(),
    {
        used.push(false);
    }
    proof {
        assert forall|v: u16| v != 0 implies #[trigger] occurrences(combo.keys@.take(0), v)
            == marked_occurrences(pressed, used@, v) by {
            assert(combo.keys@.take(0).len() == 0);
            lemma_marked_zero(pressed, used@, v);
        }
    }
    let mut trigger_count: usize = 0;
    let mut k: usize = 0;
    while k < 4
        invariant
            k <= 4,
            used@.len() == n,
            pressed == pressed_keycodes@,
            n == pressed.len(),
            trigger_count <= k,
            (trigger_count > 0) == (exists|j: int| 0 <= j < k && #[trigger] combo.keys@[j] != 0),
            forall|v: u16| v != 0 ==> #[trigger] occurrences(combo.keys@.take(k as int), v)
                == marked_occurrences(pressed, used@, v),
        decreases 4 - k,
    {
        let trigger = combo.keys[k];
        if trigger != 0 {
            trigger_count = trigger_count + 1;
            let mut idx: usize = 0;
            while idx < n && (used[idx] || pressed_keycodes[idx] != trigger)
                invariant
                    idx <= n,
                    used@.len() == n,
                    n == pressed_keycodes@.len(),
                    forall|j: int| 0 <= j < idx ==> (used@[j] || pressed_keycodes@[j] != trigger),
                decreases n - idx,
            {
                idx = idx + 1;
            }
            if idx == n {
                proof {
                    lemma_marked_all(pressed, used@, trigger);
                    lemma_occurrences_take_succ(combo.keys@, k as int, trigger);
                    lemma_occurrences_prefix_le(combo.keys@, k as int + 1, trigger);
                    assert(combo.keys@.take(4) =~= combo.keys@);
                }
                return false;
            }
            proof {
                assert forall|v: u16| v != 0 implies #[trigger] occurrences(
                    combo.keys@.take(k + 1),
                    v,
                ) == marked_occurrences(pressed, used@.update(idx as int, true), v) by {
                    lemma_occurrences_take_succ(combo.keys@, k as int, v);
                    lemma_marked_update(pressed, used@, idx as int, v);
                }
            }
            used.set(idx, true);
        } else {
            proof {
                assert forall|v: u16| v != 0 implies #[trigger] occurrences(
                    combo.keys@.take(k + 1),
                    v,
                ) == marked_occurrences(pressed, used@, v) by {
                    lemma_occurrences_take_succ(combo.keys@, k as int, v);
                }
            }
        }
        k = k + 1;
    }
    proof {
        assert(combo.keys@.take(4) =~= combo.keys@);
        assert forall|v: u16| v != 0 implies #[trigger] occurrences(combo.keys@, v) <= occurrences(
            pressed,
            v,
        ) by {
            lemma_marked_le(pressed, used@, v);
        }
    }
    trigger_count > 0 && combo.output != 0
}

proof fn lemma_marked_zero(s: Seq<u16>, marked: Seq<bool>, value: u16)
    requires
        s.len() == marked.len(),
        forall|i: int| 0 <= i < marked.len() ==> !marked[i],
    ensures
        marked_occurrences(s, marked, value) == 0,
    decreases s.len(),
{
    if s.len() > 0 {
        lemma_marked_zero(s.drop_last(), marked.drop_last(), value);
    }
}

proof fn lemma_occurrences_prefix_le(s: Seq<u16>, k: int, value: u16)
    requires
        0 <= k <= s.len(),
    ensures
        occurrences(s.take(k), value) <= occurrences(s, value),
    decreases s.len() - k,
{
    if k < s.len() {
        lemma_occurrences_take_succ(s, k, value);
        lemma_occurrences_prefix_le(s, k + 1, value);
    } else {
        assert(s.take(k) =~= s);
    }
}

/// A combo restricted to a layer fires only on that layer, unless it was already active.
pub open spec fn combo_active_on_layer(
    combo: ComboEntry,
    pressed: Seq<u16>,
    active_layer: usize,
    was_active: bool,
) -> bool {
    combo_active(combo, pressed) && (was_active || match combo.layer {
        None => true,
        Some(layer) => layer as usize == active_layer,
    })
}

pub fn sticky_combo_is_active_on_layer(
    combo: &ComboEntry,
    pressed_keycodes: &[u16],
    active_layer: usize,
    was_active: bool,
) -> (active: bool)
    ensures
        active == combo_active_on_layer(*combo, pressed_keycodes@, active_layer, was_active),
{
    sticky_combo_is_active(combo, pressed_keycodes) && (was_active || match combo.layer {
        None => true,
        Some(layer) => layer as usize == active_layer,
    })
}

} // verus!

verus! {

// ---------------------------------------------------------------------------
// Tap dance
// ---------------------------------------------------------------------------

/// The tap-dance entry a keycode invokes: `TD(n)` is `0x5700 + n`.
pub open spec fn tap_dance_index(keycode: u16) -> Option<usize> {
    if 0x5700 <= keycode <= 0x57FF {
        Some((keycode - 0x5700) as usize)
    } else {
        None
    }
}

pub fn sticky_tap_dance_index(keycode: u16) -> (res: Option<usize>)
    ensures
        res == tap_dance_index(keycode),
{
    if 0x5700 <= keycode && keycode <= 0x57FF {
        Some((keycode - 0x5700) as usize)
    } else {
        None
    }
}

/// Nanoseconds per millisecond.
pub const NANOS_PER_MILLI: u64 = 1_000_000;

/// The tapping term of an entry in nanoseconds.
pub open spec fn tap_dance_term(entries: Seq<TapDanceEntry>, entry: usize) -> Option<u64> {
    if entry < entries.len() {
        Some((entries[entry as int].tapping_term as u64 * NANOS_PER_MILLI) as u64)
    } else {
        None
    }
}

pub fn sticky_tap_dance_term(entries: &[TapDanceEntry], entry: usize) -> (term: Option<u64>)
    ensures
        term == tap_dance_term(entries@, entry),
{
    if entry < entries.len() {
        Some(entries[entry].tapping_term as u64 * NANOS_PER_MILLI)
    } else {
        None
    }
}

pub open spec fn tap_dance_tap_action(entries: Seq<TapDanceEntry>, entry: usize) -> Option<u16> {
    if entry < entries.len() {
        Some(entries[entry as int].on_tap)
    } else {
        None
    }
}

pub fn sticky_tap_dance_tap_action(entries: &[TapDanceEntry], entry: usize) -> (action: Option<
    u16,
>)
    ensures
        action == tap_dance_tap_action(entries@, entry),
{
    if entry < entries.len() {
        Some(entries[entry].on_tap)
    } else {
        None
    }
}

/// The hold action of an entry: tap-then-hold after two or more taps, hold otherwise.
pub open spec fn tap_dance_hold_action(
    entries: Seq<TapDanceEntry>,
    entry: usize,
    tap_count: u8,
) -> Option<u16> {
    if entry < entries.len() {
        Some(
            if tap_count >= 2 {
                entries[entry as int].on_tap_hold
            } else {
                entries[entry as int].on_hold
            },
        )
    } else {
        None
    }
}

pub fn sticky_tap_dance_hold_action(entries: &[TapDanceEntry], entry: usize, tap_count: u8) -> (action:
    Option<u16>)
    ensures
        action == tap_dance_hold_action(entries@, entry, tap_count),
{
    if entry < entries.len() {
        Some(
            if tap_count >= 2 {
                entries[entry].on_tap_hold
            } else {
                entries[entry].on_hold
            },
        )
    } else {
        None
    }
}

/// What one key's tap dance is doing. Times are nanoseconds on a monotonic clock.
#[derive(Clone, Copy, Debug, PartialEq, Eq)]
pub enum StickyLayoutTapDanceState {
    Idle,
    WaitingForSecondTap { entry: usize, released_at: u64 },
    Pressed { entry: usize, pressed_at: u64, tap_count: u8, hold_active: bool },
}

/// The time from `since` to `now`, or zero if `now` is earlier.
pub open spec fn elapsed(now: u64, since: u64) -> u64 {
    if now >= since {
        (now - since) as u64
    } else {
        0
    }
}

/// A fresh single press of `pressed_entry`, when it names an existing entry.
pub open spec fn fresh_press(
    pressed_entry: Option<usize>,
    entries: Seq<TapDanceEntry>,
    now: u64,
) -> StickyLayoutTapDanceState {
    match pressed_entry {
        Some(entry) if entry < entries.len() => StickyLayoutTapDanceState::Pressed {
            entry,
            pressed_at: now,
            tap_count: 1,
            hold_active: false,
        },
        _ => StickyLayoutTapDanceState::Idle,
    }
}

/// One step of a key's tap dance: the next state and the layer action it emits, if any.
pub open spec fn tap_dance_step(
    state: StickyLayoutTapDanceState,
    is_pressed: bool,
    pressed_entry: Option<usize>,
    entries: Seq<TapDanceEntry>,
    now: u64,
) -> (StickyLayoutTapDanceState, Option<u16>) {
    match state {
        StickyLayoutTapDanceState::Idle => if is_pressed {
            (fresh_press(pressed_entry, entries, now), None)
        } else {
            (StickyLayoutTapDanceState::Idle, None)
        },
        StickyLayoutTapDanceState::WaitingForSecondTap { entry, released_at } => {
            let term = match tap_dance_term(entries, entry) {
                Some(t) => t,
                None => 0,
            };
            if is_pressed {
                if pressed_entry == Some(entry) && elapsed(now, released_at) < term {
                    (
                        StickyLayoutTapDanceState::Pressed {
                            entry,
                            pressed_at: now,
                            tap_count: 2,
                            hold_active: false,
                        },
                        None,
                    )
                } else {
                    (fresh_press(pressed_entry, entries, now), tap_dance_tap_action(entries, entry))
                }
            } else if elapsed(now, released_at) >= term {
                (StickyLayoutTapDanceState::Idle, tap_dance_tap_action(entries, entry))
            } else {
                (state, None)
            }
        },
        StickyLayoutTapDanceState::Pressed { entry, pressed_at, tap_count, hold_active } => {
            let term = match tap_dance_term(entries, entry) {
                Some(t) => t,
                None => 0,
            };
            let held_long_enough = elapsed(now, pressed_at) >= term;
            if !is_pressed {
                if hold_active || held_long_enough {
                    (
                        StickyLayoutTapDanceState::Idle,
                        if !hold_active {
                            tap_dance_hold_action(entries, entry, tap_count)
                        } else {
                            None
                        },
                    )
                } else if tap_count >= 2 {
                    (
                        StickyLayoutTapDanceState::Idle,
                        if entry < entries.len() {
                            Some(entries[entry as int].on_double_tap)
                        } else {
                            None
                        },
                    )
                } else {
                    (
                        StickyLayoutTapDanceState::WaitingForSecondTap { entry, released_at: now },
                        None,
                    )
                }
            } else if !hold_active && held_long_enough {
                (
                    StickyLayoutTapDanceState::Pressed {
                        entry,
                        pressed_at,
                        tap_count,
                        hold_active: true,
                    },
                    tap_dance_hold_action(entries, entry, tap_count),
                )
            } else {
                (state, None)
            }
        },
    }
}

/// The emitted actions as a sequence: an emitted `KC_NO` is dropped.
pub open spec fn emitted(action: Option<u16>) -> Seq<u16> {
    match action {
        Some(kc) if kc != 0 => seq![kc],
        _ => seq![],
    }
}

fn fresh_press_exec(pressed_entry: Option<usize>, entries: &[TapDanceEntry], now: u64) -> (state:
    StickyLayoutTapDanceState)
    ensures
        state == fresh_press(pressed_entry, entries@, now),
{
    match pressed_entry {
        Some(entry) if entry < entries.len() => StickyLayoutTapDanceState::Pressed {
            entry,
            pressed_at: now,
            tap_count: 1,
            hold_active: false,
        },
        _ => StickyLayoutTapDanceState::Idle,
    }
}

fn elapsed_exec(now: u64, since: u64) -> (d: u64)
    ensures
        d == elapsed(now, since),
{
    if now >= since {
        now - since
    } else {
        0
    }
}

/// Advances a key's tap dance by one frame and returns the non-empty layer actions it emits.
pub fn sticky_update_tap_dance_state(
    state: &mut StickyLayoutTapDanceState,
    is_pressed: bool,
    pressed_entry: Option<usize>,
    entries: &[TapDanceEntry],
    now: u64,
) -> (actions: Vec<u16>)
    ensures
        *final(state) == tap_dance_step(*old(state), is_pressed, pressed_entry, entries@, now).0,
        actions@ == emitted(tap_dance_step(*old(state), is_pressed, pressed_entry, entries@, now).1),
{
    let previous = *state;
    let (next, action): (StickyLayoutTapDanceState, Option<u16>) = match previous {
        StickyLayoutTapDanceState::Idle => {
            if is_pressed {
                (fresh_press_exec(pressed_entry, entries, now), None)
            } else {
                (StickyLayoutTapDanceState::Idle, None)
            }
        },
        StickyLayoutTapDanceState::WaitingForSecondTap { entry, released_at } => {
            let term = match sticky_tap_dance_term(entries, entry) {
                Some(t) => t,
                None => 0,
            };
            if is_pressed {
                if pressed_entry == Some(entry) && elapsed_exec(now, released_at) < term {
                    (
                        StickyLayoutTapDanceState::Pressed {
                            entry,
                            pressed_at: now,
                            tap_count: 2,
                            hold_active: false,
                        },
                        None,
                    )
                } else {
                    (
                        fresh_press_exec(pressed_entry, entries, now),
                        sticky_tap_dance_tap_action(entries, entry),
                    )
                }
            } else if elapsed_exec(now, released_at) >= term {
                (StickyLayoutTapDanceState::Idle, sticky_tap_dance_tap_action(entries, entry))
            } else {
                (previous, None)
            }
        },
        StickyLayoutTapDanceState::Pressed { entry, pressed_at, tap_count, hold_active } => {
            let term = match sticky_tap_dance_term(entries, entry) {
                Some(t) => t,
                None => 0,
            };
            let held_long_enough = elapsed_exec(now, pressed_at) >= term;
            if !is_pressed {
                if hold_active || held_long_enough {
                    (
                        StickyLayoutTapDanceState::Idle,
                        if !hold_active {
                            sticky_tap_dance_hold_action(entries, entry, tap_count)
                        } else {
                            None
                        },
                    )
                } else if tap_count >= 2 {
                    (
                        StickyLayoutTapDanceState::Idle,
                        if entry < entries.len() {
                            Some(entries[entry].on_double_tap)
                        } else {
                            None
                        },
                    )
                } else {
                    (
                        StickyLayoutTapDanceState::WaitingForSecondTap { entry, released_at: now },
                        None,
                    )
                }
            } else if !hold_active && held_long_enough {
                (
                    StickyLayoutTapDanceState::Pressed {
                        entry,
                        pressed_at,
                        tap_count,
                        hold_active: true,
                    },
                    sticky_tap_dance_hold_action(entries, entry, tap_count),
                )
            } else {
                (previous, None)
            }
        },
    };
    *state = next;
    let mut actions: Vec<u16> = Vec::new();
    if let Some(kc) = action {
        if kc != 0 {
            actions.push(kc);
        }
    }
    proof {
        assert(actions@ =~= emitted(action));
    }
    actions
}

/// The layer action a tap dance holds while its hold is active.
pub open spec fn tap_dance_active_keycode(
    state: StickyLayoutTapDanceState,
    entries: Seq<TapDanceEntry>,
) -> Option<u16> {
    match state {
        StickyLayoutTapDanceState::Pressed { entry, tap_count, hold_active, .. } if hold_active => {
            match tap_dance_hold_action(entries, entry, tap_count) {
                Some(kc) if kc != 0 => Some(kc),
                _ => None,
            }
        },
        _ => None,
    }
}

pub fn sticky_tap_dance_active_keycode(
    state: &StickyLayoutTapDanceState,
    entries: &[TapDanceEntry],
) -> (kc: Option<u16>)
    ensures
        kc == tap_dance_active_keycode(*state, entries@),
{
    match *state {
        StickyLayoutTapDanceState::Pressed { entry, tap_count, hold_active, .. } if hold_active => {
            match sticky_tap_dance_hold_action(entries, entry, tap_count) {
                Some(kc) if kc != 0 => Some(kc),
                _ => None,
            }
        },
        _ => None,
    }
}

} // verus!

verus! {

// ---------------------------------------------------------------------------
// Virtual layer keycodes
// ---------------------------------------------------------------------------

/// The outputs of the first `n` combos that are active and send something.
pub open spec fn active_combo_outputs(active: Seq<bool>, combos: Seq<ComboEntry>, n: int) -> Seq<
    u16,
>
    decreases n,
{
    if n <= 0 {
        seq![]
    } else {
        active_combo_outputs(active, combos, n - 1) + if active[n - 1] && combos[n - 1].output != 0 {
            seq![combos[n - 1].output]
        } else {
            seq![]
        }
    }
}

/// The layer actions held by the first `n` tap dances.
pub open spec fn held_tap_dance_keycodes(
    states: Seq<StickyLayoutTapDanceState>,
    entries: Seq<TapDanceEntry>,
    n: int,
) -> Seq<u16>
    decreases n,
{
    if n <= 0 {
        seq![]
    } else {
        held_tap_dance_keycodes(states, entries, n - 1) + match tap_dance_active_keycode(
            states[n - 1],
            entries,
        ) {
            Some(kc) => seq![kc],
            None => seq![],
        }
    }
}

pub open spec fn min_int(a: int, b: int) -> int {
    if a <= b {
        a
    } else {
        b
    }
}

/// The keycodes that act as if held without a physical key: outputs of active combos
/// (paired with the combo list up to the shorter of the two) followed by held tap-dance
/// actions.
pub open spec fn virtual_layer_keycodes(
    active: Seq<bool>,
    combos: Seq<ComboEntry>,
    states: Seq<StickyLayoutTapDanceState>,
    entries: Seq<TapDanceEntry>,
) -> Seq<u16> {
    active_combo_outputs(active, combos, min_int(active.len() as int, combos.len() as int))
        + held_tap_dance_keycodes(states, entries, states.len() as int)
}

pub fn sticky_virtual_layer_keycodes(
    active_combos: &[bool],
    combos: &[ComboEntry],
    tap_dance_states: &[StickyLayoutTapDanceState],
    tap_dance_entries: &[TapDanceEntry],
) -> (keycodes: Vec<u16>)
    ensures
        keycodes@ == virtual_layer_keycodes(
            active_combos@,
            combos@,
            tap_dance_states@,
            tap_dance_entries@,
        ),
{
    let mut keycodes: Vec<u16> = Vec::new();
    let pairs = if active_combos.len() < combos.len() {
        active_combos.len()
    } else {
        combos.len()
    };
    let mut i: usize = 0;
    while i < pairs
        invariant
            i <= pairs,
            pairs == min_int(active_combos@.len() as int, combos@.len() as int),
            keycodes@ == active_combo_outputs(active_combos@, combos@, i as int),
        decreases pairs - i,
    {
        let output = combos[i].output;
        if active_combos[i] && output != 0 {
            keycodes.push(output);
        }
        proof {
            assert(keycodes@ =~= active_combo_outputs(active_combos@, combos@, i + 1));
        }
        i = i + 1;
    }
    let ghost combo_part = keycodes@;
    let mut j: usize = 0;
    while j < tap_dance_states.len()
        invariant
            j <= tap_dance_states@.len(),
            combo_part == active_combo_outputs(active_combos@, combos@, pairs as int),
            pairs == min_int(active_combos@.len() as int, combos@.len() as int),
            keycodes@ == combo_part + held_tap_dance_keycodes(
                tap_dance_states@,
                tap_dance_entries@,
                j as int,
            ),
        decreases tap_dance_states@.len() - j,
    {
        let held = sticky_tap_dance_active_keycode(&tap_dance_states[j], tap_dance_entries);
        if let Some(kc) = held {
            keycodes.push(kc);
        }
        proof {
            assert(keycodes@ =~= combo_part + held_tap_dance_keycodes(
                tap_dance_states@,
                tap_dance_entries@,
                j + 1,
            ));
        }
        j = j + 1;
    }
    keycodes
}

// ---------------------------------------------------------------------------
// Pressed keys
// ---------------------------------------------------------------------------

/// The number of layers the indicator reasons about (at least one).
pub open spec fn layer_count_of(layout: KeyboardLayout) -> int {
    if layout.layers@.len() == 0 {
        1
    } else {
        layout.layers@.len() as int
    }
}

/// Whether the matrix reports the key at `(row, col)` as pressed.
pub open spec fn matrix_key_pressed(layout: KeyboardLayout, pressed: Seq<bool>, key: PhysicalKey) -> bool {
    let idx = layout.matrix_index(key.row, key.col);
    0 <= idx < pressed.len() && pressed[idx]
}

/// The layer a pressed key reads its keycode from: the layer recorded when it went down,
/// if it is a real layer, else `fallback`.
pub open spec fn key_source_layer(
    layout: KeyboardLayout,
    pressed_key_layers: Seq<Option<usize>>,
    key: PhysicalKey,
    fallback: usize,
) -> usize {
    let idx = layout.matrix_index(key.row, key.col);
    if 0 <= idx < pressed_key_layers.len() && pressed_key_layers[idx] is Some
        && pressed_key_layers[idx]->0 < layer_count_of(layout) {
        pressed_key_layers[idx]->0
    } else {
        fallback
    }
}

/// The effective keycodes of the pressed keys among the first `n` keys, in key order.
pub open spec fn pressed_keycodes_upto(
    layout: KeyboardLayout,
    matrix_pressed: Seq<bool>,
    pressed_key_layers: Seq<Option<usize>>,
    fallback: usize,
    n: int,
) -> Seq<u16>
    decreases n,
{
    if n <= 0 {
        seq![]
    } else {
        let key = layout.keys@[n - 1];
        pressed_keycodes_upto(layout, matrix_pressed, pressed_key_layers, fallback, n - 1)
            + if matrix_key_pressed(layout, matrix_pressed, key) {
            seq![
                effective_keycode(
                    layout,
                    key_source_layer(layout, pressed_key_layers, key, fallback) as int,
                    n - 1,
                ),
            ]
        } else {
            seq![]
        }
    }
}

fn matrix_index_exec(layout: &KeyboardLayout, key: PhysicalKey) -> (idx: usize)
    requires
        layout.matrix_fits(),
    ensures
        idx == layout.matrix_index(key.row, key.col),
{
    proof {
        assert(key.row * layout.cols <= 255 * layout.cols) by (nonlinear_arith)
            requires
                key.row <= 255,
        ;
    }
    key.row as usize * layout.cols + key.col as usize
}

/// Whether the matrix reports the key at `(row, col)` as pressed; positions outside the
/// reported matrix read as released.
pub fn layout_matrix_key_pressed(
    layout: &KeyboardLayout,
    matrix_pressed: &[bool],
    row: u8,
    col: u8,
) -> (pressed: bool)
    requires
        layout.matrix_fits(),
    ensures
        pressed == matrix_key_pressed(*layout, matrix_pressed@, PhysicalKey { row, col }),
{
    let idx = matrix_index_exec(layout, PhysicalKey { row, col });
    idx < matrix_pressed.len() && matrix_pressed[idx]
}

fn key_source_layer_exec(
    layout: &KeyboardLayout,
    pressed_key_layers: &[Option<usize>],
    key: PhysicalKey,
    fallback: usize,
) -> (layer: usize)
    requires
        layout.matrix_fits(),
    ensures
        layer == key_source_layer(*layout, pressed_key_layers@, key, fallback),
{
    let layer_count = if layout.layers.len() == 0 {
        1
    } else {
        layout.layers.len()
    };
    let idx = matrix_index_exec(layout, key);
    if idx < pressed_key_layers.len() {
        if let Some(layer) = pressed_key_layers[idx] {
            if layer < layer_count {
                return layer;
            }
        }
    }
    fallback
}

pub fn sticky_pressed_keycodes(
    layout: &KeyboardLayout,
    matrix_pressed: &[bool],
    pressed_key_layers: &[Option<usize>],
    fallback_layer: usize,
) -> (keycodes: Vec<u16>)
    requires
        layout.matrix_fits(),
    ensures
        keycodes@ == pressed_keycodes_upto(
            *layout,
            matrix_pressed@,
            pressed_key_layers@,
            fallback_layer,
            layout.keys@.len() as int,
        ),
{
    let mut keycodes: Vec<u16> = Vec::new();
    let mut key_idx: usize = 0;
    while key_idx < layout.keys.len()
        invariant
            layout.matrix_fits(),
            key_idx <= layout.keys@.len(),
            keycodes@ == pressed_keycodes_upto(
                *layout,
                matrix_pressed@,
                pressed_key_layers@,
                fallback_layer,
                key_idx as int,
            ),
        decreases layout.keys@.len() - key_idx,
    {
        let key = layout.keys[key_idx];
        if layout_matrix_key_pressed(layout, matrix_pressed, key.row, key.col) {
            let source = key_source_layer_exec(layout, pressed_key_layers, key, fallback_layer);
            keycodes.push(layout_effective_keycode(layout, source, key_idx));
        }
        proof {
            assert(keycodes@ =~= pressed_keycodes_upto(
                *layout,
                matrix_pressed@,
                pressed_key_layers@,
                fallback_layer,
                key_idx + 1,
            ));
        }
        key_idx = key_idx + 1;
    }
    keycodes
}

// ---------------------------------------------------------------------------
// Active layer
// ---------------------------------------------------------------------------

pub open spec fn max_opt(a: Option<usize>, b: Option<usize>) -> Option<usize> {
    match (a, b) {
        (Some(x), Some(y)) => Some(if x >= y { x } else { y }),
        (Some(x), None) => Some(x),
        (None, _) => b,
    }
}

/// A momentary target, kept only when it names a real layer.
pub open spec fn momentary_target_below(kc: u16, layer_count: int) -> Option<usize> {
    match momentary_target(kc) {
        Some(t) if t < layer_count => Some(t),
        _ => None,
    }
}

/// The highest layer held by the first `n` virtual keycodes.
pub open spec fn virtual_target_upto(virtual_keycodes: Seq<u16>, layer_count: int, n: int) -> Option<
    usize,
>
    decreases n,
{
    if n <= 0 {
        None
    } else {
        max_opt(
            virtual_target_upto(virtual_keycodes, layer_count, n - 1),
            momentary_target_below(virtual_keycodes[n - 1], layer_count),
        )
    }
}

/// The highest layer held by the pressed keys among the first `n` keys, each read on the
/// layer where it went down (or on `active` when none is recorded).
pub open spec fn physical_target_upto(
    layout: KeyboardLayout,
    matrix_pressed: Seq<bool>,
    pressed_key_layers: Seq<Option<usize>>,
    active: usize,
    n: int,
) -> Option<usize>
    decreases n,
{
    if n <= 0 {
        None
    } else {
        let key = layout.keys@[n - 1];
        max_opt(
            physical_target_upto(layout, matrix_pressed, pressed_key_layers, active, n - 1),
            if matrix_key_pressed(layout, matrix_pressed, key) {
                momentary_target_below(
                    effective_keycode(
                        layout,
                        key_source_layer(layout, pressed_key_layers, key, active) as int,
                        n - 1,
                    ),
                    layer_count_of(layout),
                )
            } else {
                None
            },
        )
    }
}

/// The highest layer the held keys and virtual keycodes ask for while `active` is active.
pub open spec fn requested_layer(
    layout: KeyboardLayout,
    matrix_pressed: Seq<bool>,
    pressed_key_layers: Seq<Option<usize>>,
    virtual_keycodes: Seq<u16>,
    active: usize,
) -> Option<usize> {
    max_opt(
        virtual_target_upto(virtual_keycodes, layer_count_of(layout), virtual_keycodes.len() as int),
        physical_target_upto(layout, matrix_pressed, pressed_key_layers, active, layout.keys@.len() as int),
    )
}

/// Follows the requested layer from `active` until it stops changing, at most `fuel` steps.
pub open spec fn settle_layer(
    layout: KeyboardLayout,
    matrix_pressed: Seq<bool>,
    pressed_key_layers: Seq<Option<usize>>,
    virtual_keycodes: Seq<u16>,
    active: usize,
    fuel: nat,
) -> usize
    decreases fuel,
{
    if fuel == 0 {
        active
    } else {
        match requested_layer(layout, matrix_pressed, pressed_key_layers, virtual_keycodes, active) {
            Some(next) if next != active => settle_layer(
                layout,
                matrix_pressed,
                pressed_key_layers,
                virtual_keycodes,
                next,
                (fuel - 1) as nat,
            ),
            _ => active,
        }
    }
}

/// The highest toggled layer among the first `n` toggles that is a real layer.
pub open spec fn highest_toggled(toggled: Seq<bool>, layer_count: int, n: int) -> Option<usize>
    decreases n,
{
    if n <= 0 {
        None
    } else if toggled[n - 1] && n - 1 < layer_count {
        Some((n - 1) as usize)
    } else {
        highest_toggled(toggled, layer_count, n - 1)
    }
}

/// The layer in effect before any held key: the highest toggled layer, else the base
/// layer clamped to the real layers.
pub open spec fn resting_layer(toggled: Seq<bool>, base: usize, layer_count: int) -> usize {
    match highest_toggled(toggled, layer_count, toggled.len() as int) {
        Some(layer) => layer,
        None => if base < layer_count {
            base
        } else {
            (layer_count - 1) as usize
        },
    }
}

/// The layer the keyboard is on: the resting layer, then the layers that held keys and
/// virtual keycodes request, followed for at most as many steps as there are layers.
pub open spec fn active_layer(
    layout: KeyboardLayout,
    matrix_pressed: Seq<bool>,
    pressed_key_layers: Seq<Option<usize>>,
    toggled: Seq<bool>,
    base: usize,
    virtual_keycodes: Seq<u16>,
) -> usize {
    settle_layer(
        layout,
        matrix_pressed,
        pressed_key_layers,
        virtual_keycodes,
        resting_layer(toggled, base, layer_count_of(layout)),
        layer_count_of(layout) as nat,
    )
}

fn max_opt_exec(a: Option<usize>, b: Option<usize>) -> (m: Option<usize>)
    ensures
        m == max_opt(a, b),
{
    match (a, b) {
        (Some(x), Some(y)) => Some(if x >= y { x } else { y }),
        (Some(x), None) => Some(x),
        (None, _) => b,
    }
}

fn momentary_target_below_exec(kc: u16, layer_count: usize) -> (t: Option<usize>)
    ensures
        t == momentary_target_below(kc, layer_count as int),
{
    match sticky_momentary_layer_target(kc) {
        Some(t) if t < layer_count => Some(t),
        _ => None,
    }
}

fn requested_layer_exec(
    layout: &KeyboardLayout,
    matrix_pressed: &[bool],
    pressed_key_layers: &[Option<usize>],
    virtual_layer_keycodes: &[u16],
    active: usize,
) -> (next: Option<usize>)
    requires
        layout.matrix_fits(),
    ensures
        next == requested_layer(
            *layout,
            matrix_pressed@,
            pressed_key_layers@,
            virtual_layer_keycodes@,
            active,
        ),
{
    let layer_count = if layout.layers.len() == 0 {
        1
    } else {
        layout.layers.len()
    };
    let mut virtual_target: Option<usize> = None;
    let mut i: usize = 0;
    while i < virtual_layer_keycodes.len()
        invariant
            i <= virtual_layer_keycodes@.len(),
            layer_count == layer_count_of(*layout),
            virtual_target == virtual_target_upto(virtual_layer_keycodes@, layer_count as int, i as int),
        decreases virtual_layer_keycodes@.len() - i,
    {
        virtual_target = max_opt_exec(
            virtual_target,
            momentary_target_below_exec(virtual_layer_keycodes[i], layer_count),
        );
        i = i + 1;
    }
    let mut physical_target: Option<usize> = None;
    let mut key_idx: usize = 0;
    while key_idx < layout.keys.len()
        invariant
            layout.matrix_fits(),
            key_idx <= layout.keys@.len(),
            layer_count == layer_count_of(*layout),
            physical_target == physical_target_upto(
                *layout,
                matrix_pressed@,
                pressed_key_layers@,
                active,
                key_idx as int,
            ),
        decreases layout.keys@.len() - key_idx,
    {
        let key = layout.keys[key_idx];
        let held = if layout_matrix_key_pressed(layout, matrix_pressed, key.row, key.col) {
            let source = key_source_layer_exec(layout, pressed_key_layers, key, active);
            momentary_target_below_exec(layout_effective_keycode(layout, source, key_idx), layer_count)
        } else {
            None
        };
        physical_target = max_opt_exec(physical_target, held);
        key_idx = key_idx + 1;
    }
    max_opt_exec(virtual_target, physical_target)
}

pub fn sticky_layout_active_layer(
    layout: &KeyboardLayout,
    matrix_pressed: &[bool],
    pressed_key_layers: &[Option<usize>],
    toggled_layers: &[bool],
    base_layer: usize,
    virtual_layer_keycodes: &[u16],
) -> (layer: usize)
    requires
        layout.matrix_fits(),
    ensures
        layer == active_layer(
            *layout,
            matrix_pressed@,
            pressed_key_layers@,
            toggled_layers@,
            base_layer,
            virtual_layer_keycodes@,
        ),
{
    let layer_count = if layout.layers.len() == 0 {
        1
    } else {
        layout.layers.len()
    };
    let mut toggled: Option<usize> = None;
    let mut n = toggled_layers.len();
    while n > 0
        invariant_except_break
            toggled is None,
        invariant
            n <= toggled_layers@.len(),
            layer_count == layer_count_of(*layout),
            highest_toggled(toggled_layers@, layer_count as int, toggled_layers@.len() as int)
                == highest_toggled(toggled_layers@, layer_count as int, n as int),
        ensures
            toggled == highest_toggled(
                toggled_layers@,
                layer_count as int,
                toggled_layers@.len() as int,
            ),
        decreases n,
    {
        if toggled_layers[n - 1] && n - 1 < layer_count {
            toggled = Some(n - 1);
            break;
        }
        n = n - 1;
    }
    let mut active_layer = match toggled {
        Some(layer) => layer,
        None => if base_layer < layer_count {
            base_layer
        } else {
            layer_count - 1
        },
    };
    let mut steps: usize = 0;
    while steps < layer_count
        invariant
            layout.matrix_fits(),
            steps <= layer_count,
            layer_count == layer_count_of(*layout),
            settle_layer(
                *layout,
                matrix_pressed@,
                pressed_key_layers@,
                virtual_layer_keycodes@,
                resting_layer(toggled_layers@, base_layer, layer_count as int),
                layer_count as nat,
            ) == settle_layer(
                *layout,
                matrix_pressed@,
                pressed_key_layers@,
                virtual_layer_keycodes@,
                active_layer,
                (layer_count - steps) as nat,
            ),
        ensures
            settle_layer(
                *layout,
                matrix_pressed@,
                pressed_key_layers@,
                virtual_layer_keycodes@,
                resting_layer(toggled_layers@, base_layer, layer_count as int),
                layer_count as nat,
            ) == active_layer,
        decreases layer_count - steps,
    {
        match requested_layer_exec(
            layout,
            matrix_pressed,
            pressed_key_layers,
            virtual_layer_keycodes,
            active_layer,
        ) {
            Some(next) if next != active_layer => active_layer = next,
            _ => break,
        }
        steps = steps + 1;
    }
    active_layer
}

} // verus!

verus! {

// ---------------------------------------------------------------------------
// Following the keyboard's layer state from the live switch matrix
// ---------------------------------------------------------------------------

/// Per-key bookkeeping while walking the keys: recorded source layers, tap-dance states,
/// toggled layers, base layer, and the layer actions generated by tap dances.
pub type KeyPassState = (
    Seq<Option<usize>>,
    Seq<StickyLayoutTapDanceState>,
    Seq<bool>,
    usize,
    Seq<u16>,
);

/// Whether the matrix position `idx` reads as pressed in `matrix`.
pub open spec fn pressed_at(matrix: Seq<bool>, idx: int) -> bool {
    0 <= idx < matrix.len() && matrix[idx]
}

/// One key's update: a key that goes down records the layer it was pressed on, feeds its
/// tap dance, and applies its persistent layer action; a released key forgets its layer.
pub open spec fn key_step(
    layout: KeyboardLayout,
    pressed: Seq<bool>,
    prev: Seq<bool>,
    entries: Seq<TapDanceEntry>,
    layer_before: usize,
    layer_count: int,
    now: u64,
    st: KeyPassState,
    k: int,
) -> KeyPassState {
    let key = layout.keys@[k];
    let idx = layout.matrix_index(key.row, key.col);
    let is_pressed = pressed_at(pressed, idx);
    let went_down = is_pressed && !pressed_at(prev, idx);
    let layers1 = if went_down && 0 <= idx < st.0.len() {
        st.0.update(idx, Some(layer_before))
    } else {
        st.0
    };
    let source = if 0 <= idx < layers1.len() && layers1[idx] is Some {
        layers1[idx]->0
    } else {
        layer_before
    };
    let keycode = effective_keycode(layout, source as int, k);
    let td_entry = if is_pressed {
        tap_dance_index(keycode)
    } else {
        None
    };
    let tds = if 0 <= idx < st.1.len() {
        st.1.update(idx, tap_dance_step(st.1[idx], is_pressed, td_entry, entries, now).0)
    } else {
        st.1
    };
    let generated = if 0 <= idx < st.1.len() {
        st.4 + emitted(tap_dance_step(st.1[idx], is_pressed, td_entry, entries, now).1)
    } else {
        st.4
    };
    let persistent = if went_down {
        persistent_layer_action(keycode, layer_count, st.2, st.3)
    } else {
        (st.2, st.3)
    };
    let layers2 = if !is_pressed && 0 <= idx < layers1.len() {
        layers1.update(idx, None)
    } else {
        layers1
    };
    (layers2, tds, persistent.0, persistent.1, generated)
}

/// The bookkeeping after the first `k` keys.
pub open spec fn key_pass(
    layout: KeyboardLayout,
    pressed: Seq<bool>,
    prev: Seq<bool>,
    entries: Seq<TapDanceEntry>,
    layer_before: usize,
    layer_count: int,
    now: u64,
    start: KeyPassState,
    k: int,
) -> KeyPassState
    decreases k,
{
    if k <= 0 {
        start
    } else {
        key_step(
            layout,
            pressed,
            prev,
            entries,
            layer_before,
            layer_count,
            now,
            key_pass(layout, pressed, prev, entries, layer_before, layer_count, now, start, k - 1),
            k - 1,
        )
    }
}

/// Applies a sequence of layer actions in order.
pub open spec fn apply_layer_actions(
    actions: Seq<u16>,
    layer_count: int,
    toggled: Seq<bool>,
    base: usize,
) -> (Seq<bool>, usize)
    decreases actions.len(),
{
    if actions.len() == 0 {
        (toggled, base)
    } else {
        let before = apply_layer_actions(actions.drop_last(), layer_count, toggled, base);
        persistent_layer_action(actions.last(), layer_count, before.0, before.1)
    }
}

pub open spec fn was_active_at(active: Seq<bool>, i: int) -> bool {
    0 <= i < active.len() && active[i]
}

/// Which combos are active now, given the pressed keycodes and the layer before this frame.
pub open spec fn current_combos(
    combos: Seq<ComboEntry>,
    pressed_keycodes: Seq<u16>,
    layer_before: usize,
    was: Seq<bool>,
) -> Seq<bool> {
    Seq::new(
        combos.len(),
        |i: int| combo_active_on_layer(combos[i], pressed_keycodes, layer_before, was_active_at(was, i)),
    )
}

/// Applies the outputs of the first `n` combos that just became active, in order.
pub open spec fn apply_new_combos(
    combos: Seq<ComboEntry>,
    current: Seq<bool>,
    was: Seq<bool>,
    layer_count: int,
    toggled: Seq<bool>,
    base: usize,
    n: int,
) -> (Seq<bool>, usize)
    decreases n,
{
    if n <= 0 {
        (toggled, base)
    } else {
        let before = apply_new_combos(combos, current, was, layer_count, toggled, base, n - 1);
        if current[n - 1] && !was_active_at(was, n - 1) {
            persistent_layer_action(combos[n - 1].output, layer_count, before.0, before.1)
        } else {
            before
        }
    }
}


proof fn lemma_persistent_action_shape(keycode: u16, layer_count: int, toggled: Seq<bool>, base: usize)
    requires
        base < layer_count,
    ensures
        persistent_layer_action(keycode, layer_count, toggled, base).0.len() == toggled.len(),
        persistent_layer_action(keycode, layer_count, toggled, base).1 < layer_count,
{
}

proof fn lemma_key_pass_shape(
    layout: KeyboardLayout,
    pressed: Seq<bool>,
    prev: Seq<bool>,
    entries: Seq<TapDanceEntry>,
    layer_before: usize,
    layer_count: int,
    now: u64,
    start: KeyPassState,
    k: int,
)
    requires
        start.3 < layer_count,
    ensures
        ({
            let r = key_pass(layout, pressed, prev, entries, layer_before, layer_count, now, start, k);
            &&& r.0.len() == start.0.len()
            &&& r.1.len() == start.1.len()
            &&& r.2.len() == start.2.len()
            &&& r.3 < layer_count
        }),
    decreases k,
{
    if k > 0 {
        lemma_key_pass_shape(layout, pressed, prev, entries, layer_before, layer_count, now, start, k - 1);
        let st = key_pass(layout, pressed, prev, entries, layer_before, layer_count, now, start, k - 1);
        let key = layout.keys@[k - 1];
        let idx = layout.matrix_index(key.row, key.col);
        let layers1 = if pressed_at(pressed, idx) && !pressed_at(prev, idx) && 0 <= idx < st.0.len() {
            st.0.update(idx, Some(layer_before))
        } else {
            st.0
        };
        let source = if 0 <= idx < layers1.len() && layers1[idx] is Some {
            layers1[idx]->0
        } else {
            layer_before
        };
        lemma_persistent_action_shape(effective_keycode(layout, source as int, k - 1), layer_count, st.2, st.3);
    }
}

/// Keys held since the previous frame act only once: with no key newly pressed, a pass
/// over the keys leaves the toggled layers and the base layer as they were.
pub proof fn lemma_held_keys_do_not_act_again(
    layout: KeyboardLayout,
    pressed: Seq<bool>,
    entries: Seq<TapDanceEntry>,
    layer_before: usize,
    layer_count: int,
    now: u64,
    start: KeyPassState,
    k: int,
)
    ensures
        key_pass(layout, pressed, pressed, entries, layer_before, layer_count, now, start, k).2 == start.2,
        key_pass(layout, pressed, pressed, entries, layer_before, layer_count, now, start, k).3 == start.3,
    decreases k,
{
    if k > 0 {
        lemma_held_keys_do_not_act_again(layout, pressed, entries, layer_before, layer_count, now, start, k - 1);
    }
}

proof fn lemma_layer_actions_shape(actions: Seq<u16>, layer_count: int, toggled: Seq<bool>, base: usize)
    requires
        base < layer_count,
    ensures
        apply_layer_actions(actions, layer_count, toggled, base).0.len() == toggled.len(),
        apply_layer_actions(actions, layer_count, toggled, base).1 < layer_count,
    decreases actions.len(),
{
    if actions.len() > 0 {
        lemma_layer_actions_shape(actions.drop_last(), layer_count, toggled, base);
        let before = apply_layer_actions(actions.drop_last(), layer_count, toggled, base);
        lemma_persistent_action_shape(actions.last(), layer_count, before.0, before.1);
    }
}

proof fn lemma_new_combos_shape(
    combos: Seq<ComboEntry>,
    current: Seq<bool>,
    was: Seq<bool>,
    layer_count: int,
    toggled: Seq<bool>,
    base: usize,
    n: int,
)
    requires
        base < layer_count,
    ensures
        apply_new_combos(combos, current, was, layer_count, toggled, base, n).0.len() == toggled.len(),
        apply_new_combos(combos, current, was, layer_count, toggled, base, n).1 < layer_count,
    decreases n,
{
    if n > 0 {
        lemma_new_combos_shape(combos, current, was, layer_count, toggled, base, n - 1);
        let before = apply_new_combos(combos, current, was, layer_count, toggled, base, n - 1);
        lemma_persistent_action_shape(combos[n - 1].output, layer_count, before.0, before.1);
    }
}

proof fn lemma_virtual_target_below(virtual_keycodes: Seq<u16>, layer_count: int, n: int)
    ensures
        virtual_target_upto(virtual_keycodes, layer_count, n) matches Some(t) ==> t < layer_count,
    decreases n,
{
    if n > 0 {
        lemma_virtual_target_below(virtual_keycodes, layer_count, n - 1);
    }
}

proof fn lemma_physical_target_below(
    layout: KeyboardLayout,
    matrix_pressed: Seq<bool>,
    pressed_key_layers: Seq<Option<usize>>,
    active: usize,
    n: int,
)
    ensures
        physical_target_upto(layout, matrix_pressed, pressed_key_layers, active, n) matches Some(t) ==> t
            < layer_count_of(layout),
    decreases n,
{
    if n > 0 {
        lemma_physical_target_below(layout, matrix_pressed, pressed_key_layers, active, n - 1);
    }
}

proof fn lemma_settle_below(
    layout: KeyboardLayout,
    matrix_pressed: Seq<bool>,
    pressed_key_layers: Seq<Option<usize>>,
    virtual_keycodes: Seq<u16>,
    active: usize,
    fuel: nat,
)
    requires
        active < layer_count_of(layout),
    ensures
        settle_layer(layout, matrix_pressed, pressed_key_layers, virtual_keycodes, active, fuel) < layer_count_of(
            layout,
        ),
    decreases fuel,
{
    if fuel > 0 {
        lemma_virtual_target_below(virtual_keycodes, layer_count_of(layout), virtual_keycodes.len() as int);
        lemma_physical_target_below(layout, matrix_pressed, pressed_key_layers, active, layout.keys@.len() as int);
        match requested_layer(layout, matrix_pressed, pressed_key_layers, virtual_keycodes, active) {
            Some(next) => {
                if next != active {
                    lemma_settle_below(layout, matrix_pressed, pressed_key_layers, virtual_keycodes, next, (fuel - 1) as nat);
                }
            },
            None => {},
        }
    }
}

proof fn lemma_highest_toggled_below(toggled: Seq<bool>, layer_count: int, n: int)
    ensures
        highest_toggled(toggled, layer_count, n) matches Some(t) ==> t < layer_count,
    decreases n,
{
    if n > 0 {
        lemma_highest_toggled_below(toggled, layer_count, n - 1);
    }
}

/// The layer the keyboard is on is always a real layer.
pub proof fn lemma_active_layer_is_real(
    layout: KeyboardLayout,
    matrix_pressed: Seq<bool>,
    pressed_key_layers: Seq<Option<usize>>,
    toggled: Seq<bool>,
    base: usize,
    virtual_keycodes: Seq<u16>,
)
    ensures
        active_layer(layout, matrix_pressed, pressed_key_layers, toggled, base, virtual_keycodes)
            < layer_count_of(layout),
{
    let lc = layer_count_of(layout);
    lemma_highest_toggled_below(toggled, lc, toggled.len() as int);
    lemma_settle_below(
        layout,
        matrix_pressed,
        pressed_key_layers,
        virtual_keycodes,
        resting_layer(toggled, base, lc),
        lc as nat,
    );
}

pub open spec fn resized_flags(v: Seq<bool>, n: int) -> Seq<bool> {
    if v.len() == n {
        v
    } else {
        Seq::new(n as nat, |i: int| false)
    }
}

pub open spec fn resized_layers(v: Seq<Option<usize>>, n: int) -> Seq<Option<usize>> {
    if v.len() == n {
        v
    } else {
        Seq::new(n as nat, |i: int| None)
    }
}

pub open spec fn resized_states(v: Seq<StickyLayoutTapDanceState>, n: int) -> Seq<
    StickyLayoutTapDanceState,
> {
    if v.len() == n {
        v
    } else {
        Seq::new(n as nat, |i: int| StickyLayoutTapDanceState::Idle)
    }
}

} // verus!

verus! {

fn new_flags(n: usize) -> (v: Vec<bool>)
    ensures
        v@ == Seq::new(n as nat, |i: int| false),
{
    let mut v: Vec<bool> = Vec::new();
    while v.len() < n
        invariant
            v@.len() <= n,
            forall|i: int| 0 <= i < v@.len() ==> !v@[i],
        decreases n - v@.len(),
    {
        v.push(false);
    }
    assert(v@ =~= Seq::new(n as nat, |i: int| false));
    v
}

fn copy_flags(src: &Vec<bool>) -> (v: Vec<bool>)
    ensures
        v@ == src@,
{
    let mut v: Vec<bool> = Vec::new();
    while v.len() < src.len()
        invariant
            v@.len() <= src@.len(),
            v@ == src@.take(v@.len() as int),
        decreases src@.len() - v@.len(),
    {
        let flag = src[v.len()];
        v.push(flag);
        assert(v@ =~= src@.take(v@.len() as int));
    }
    assert(v@ =~= src@);
    v
}

fn new_source_layers(n: usize) -> (v: Vec<Option<usize>>)
    ensures
        v@ == Seq::new(n as nat, |i: int| None::<usize>),
{
    let mut v: Vec<Option<usize>> = Vec::new();
    while v.len() < n
        invariant
            v@.len() <= n,
            forall|i: int| 0 <= i < v@.len() ==> v@[i] is None,
        decreases n - v@.len(),
    {
        v.push(None);
    }
    assert(v@ =~= Seq::new(n as nat, |i: int| None::<usize>));
    v
}

fn new_tap_dance_states(n: usize) -> (v: Vec<StickyLayoutTapDanceState>)
    ensures
        v@ == Seq::new(n as nat, |i: int| StickyLayoutTapDanceState::Idle),
{
    let mut v: Vec<StickyLayoutTapDanceState> = Vec::new();
    while v.len() < n
        invariant
            v@.len() <= n,
            forall|i: int| 0 <= i < v@.len() ==> v@[i] == StickyLayoutTapDanceState::Idle,
        decreases n - v@.len(),
    {
        v.push(StickyLayoutTapDanceState::Idle);
    }
    assert(v@ =~= Seq::new(n as nat, |i: int| StickyLayoutTapDanceState::Idle));
    v
}

/// Walks every key once, updating the recorded layers, tap dances and persistent layer
/// state; returns the layer actions the tap dances generated.
fn sticky_key_pass(
    layout: &KeyboardLayout,
    pressed: &Vec<bool>,
    prev: &Vec<bool>,
    entries: &Vec<TapDanceEntry>,
    layer_before: usize,
    layer_count: usize,
    now: u64,
    pressed_key_layers: &mut Vec<Option<usize>>,
    tap_dance_states: &mut Vec<StickyLayoutTapDanceState>,
    toggled_layers: &mut Vec<bool>,
    base_layer: &mut usize,
) -> (generated: Vec<u16>)
    requires
        layout.matrix_fits(),
    ensures
        (
            final(pressed_key_layers)@,
            final(tap_dance_states)@,
            final(toggled_layers)@,
            *final(base_layer),
            generated@,
        ) == key_pass(
            *layout,
            pressed@,
            prev@,
            entries@,
            layer_before,
            layer_count as int,
            now,
            (
                old(pressed_key_layers)@,
                old(tap_dance_states)@,
                old(toggled_layers)@,
                *old(base_layer),
                seq![],
            ),
            layout.keys@.len() as int,
        ),
{
    let ghost start: KeyPassState = (
        pressed_key_layers@,
        tap_dance_states@,
        toggled_layers@,
        *base_layer,
        seq![],
    );
    let mut generated: Vec<u16> = Vec::new();
    let mut key_idx: usize = 0;
    while key_idx < layout.keys.len()
        invariant
            layout.matrix_fits(),
            key_idx <= layout.keys@.len(),
            (
                pressed_key_layers@,
                tap_dance_states@,
                toggled_layers@,
                *base_layer,
                generated@,
            ) == key_pass(
                *layout,
                pressed@,
                prev@,
                entries@,
                layer_before,
                layer_count as int,
                now,
                start,
                key_idx as int,
            ),
        decreases layout.keys@.len() - key_idx,
    {
        let ghost st: KeyPassState = (
            pressed_key_layers@,
            tap_dance_states@,
            toggled_layers@,
            *base_layer,
            generated@,
        );
        let key = layout.keys[key_idx];
        let idx = matrix_index_exec(layout, key);
        let is_pressed = idx < pressed.len() && pressed[idx];
        let was_pressed = idx < prev.len() && prev[idx];
        if is_pressed && !was_pressed && idx < pressed_key_layers.len() {
            pressed_key_layers.set(idx, Some(layer_before));
        }
        let source = if idx < pressed_key_layers.len() {
            match pressed_key_layers[idx] {
                Some(layer) => layer,
                None => layer_before,
            }
        } else {
            layer_before
        };
        let keycode = layout_effective_keycode(layout, source, key_idx);
        let td_entry = if is_pressed {
            sticky_tap_dance_index(keycode)
        } else {
            None
        };
        if idx < tap_dance_states.len() {
            let mut state = tap_dance_states[idx];
            let mut actions = sticky_update_tap_dance_state(
                &mut state,
                is_pressed,
                td_entry,
                entries.as_slice(),
                now,
            );
            tap_dance_states.set(idx, state);
            generated.append(&mut actions);
        }
        if is_pressed && !was_pressed {
            sticky_apply_persistent_layer_action(keycode, layer_count, toggled_layers, base_layer);
        }
        if !is_pressed && idx < pressed_key_layers.len() {
            pressed_key_layers.set(idx, None);
        }
        proof {
            let next = key_step(
                *layout,
                pressed@,
                prev@,
                entries@,
                layer_before,
                layer_count as int,
                now,
                st,
                key_idx as int,
            );
            assert(pressed_key_layers@ =~= next.0);
            assert(tap_dance_states@ =~= next.1);
            assert(generated@ =~= next.4);
        }
        key_idx = key_idx + 1;
    }
    generated
}

/// Applies the generated layer actions in order.
fn sticky_apply_generated(
    actions: &Vec<u16>,
    layer_count: usize,
    toggled_layers: &mut Vec<bool>,
    base_layer: &mut usize,
)
    ensures
        (final(toggled_layers)@, *final(base_layer)) == apply_layer_actions(
            actions@,
            layer_count as int,
            old(toggled_layers)@,
            *old(base_layer),
        ),
{
    let ghost toggled0 = toggled_layers@;
    let ghost base0 = *base_layer;
    let mut i: usize = 0;
    while i < actions.len()
        invariant
            i <= actions@.len(),
            (toggled_layers@, *base_layer) == apply_layer_actions(
                actions@.take(i as int),
                layer_count as int,
                toggled0,
                base0,
            ),
        decreases actions@.len() - i,
    {
        proof {
            assert(actions@.take(i + 1).drop_last() =~= actions@.take(i as int));
        }
        sticky_apply_persistent_layer_action(actions[i], layer_count, toggled_layers, base_layer);
        i = i + 1;
    }
    assert(actions@.take(actions@.len() as int) =~= actions@);
}

} // verus!

verus! {

/// Computes which combos are active now.
fn sticky_current_combos(
    combos: &Vec<ComboEntry>,
    pressed_keycodes: &Vec<u16>,
    layer_before: usize,
    was: &Vec<bool>,
) -> (current: Vec<bool>)
    ensures
        current@ == current_combos(combos@, pressed_keycodes@, layer_before, was@),
{
    let mut current: Vec<bool> = Vec::new();
    let mut i: usize = 0;
    while i < combos.len()
        invariant
            i <= combos@.len(),
            current@ == current_combos(combos@, pressed_keycodes@, layer_before, was@).take(
                i as int,
            ),
        decreases combos@.len() - i,
    {
        let was_active = i < was.len() && was[i];
        let active = sticky_combo_is_active_on_layer(
            &combos[i],
            pressed_keycodes.as_slice(),
            layer_before,
            was_active,
        );
        current.push(active);
        i = i + 1;
        assert(current@ =~= current_combos(combos@, pressed_keycodes@, layer_before, was@).take(
            i as int,
        ));
    }
    assert(current@ =~= current_combos(combos@, pressed_keycodes@, layer_before, was@));
    current
}

/// Applies the outputs of the combos that just became active.
fn sticky_apply_new_combos(
    combos: &Vec<ComboEntry>,
    current: &Vec<bool>,
    was: &Vec<bool>,
    layer_count: usize,
    toggled_layers: &mut Vec<bool>,
    base_layer: &mut usize,
)
    requires
        current@.len() == combos@.len(),
    ensures
        (final(toggled_layers)@, *final(base_layer)) == apply_new_combos(
            combos@,
            current@,
            was@,
            layer_count as int,
            old(toggled_layers)@,
            *old(base_layer),
            combos@.len() as int,
        ),
{
    let ghost toggled0 = toggled_layers@;
    let ghost base0 = *base_layer;
    let mut i: usize = 0;
    while i < combos.len()
        invariant
            i <= combos@.len(),
            current@.len() == combos@.len(),
            (toggled_layers@, *base_layer) == apply_new_combos(
                combos@,
                current@,
                was@,
                layer_count as int,
                toggled0,
                base0,
                i as int,
            ),
        decreases combos@.len() - i,
    {
        let was_active = i < was.len() && was[i];
        if current[i] && !was_active {
            sticky_apply_persistent_layer_action(
                combos[i].output,
                layer_count,
                toggled_layers,
                base_layer,
            );
        }
        i = i + 1;
    }
}

impl EntropyApp {
    /// The number of layers the indicator reasons about for `layout`.
    pub open spec fn sticky_layer_count(layout: KeyboardLayout) -> int {
        layer_count_of(layout)
    }

    /// The remembered matrix of the previous frame, reset when the matrix size changed.
    pub open spec fn sticky_prev(self) -> Seq<bool> {
        resized_flags(self.sticky_layout_prev_pressed@, self.matrix_tester_pressed@.len() as int)
    }

    /// The recorded source layers, reset when the matrix size changed.
    pub open spec fn sticky_source_layers(self) -> Seq<Option<usize>> {
        resized_layers(
            self.sticky_layout_pressed_key_layers@,
            self.matrix_tester_pressed@.len() as int,
        )
    }

    /// The toggled layers, reset when the number of layers changed.
    pub open spec fn sticky_toggled(self, layout: KeyboardLayout) -> Seq<bool> {
        resized_flags(self.sticky_layout_toggled_layers@, layer_count_of(layout))
    }

    /// The active combos of the previous frame, reset when the combo list changed size.
    pub open spec fn sticky_was_active(self) -> Seq<bool> {
        resized_flags(self.sticky_layout_active_combos@, self.combo_entries@.len() as int)
    }

    /// The tap-dance states, reset when the matrix size changed.
    pub open spec fn sticky_states(self) -> Seq<StickyLayoutTapDanceState> {
        resized_states(
            self.sticky_layout_tap_dance_states@,
            self.matrix_tester_pressed@.len() as int,
        )
    }

    /// The base layer clamped to the real layers.
    pub open spec fn sticky_base(self, layout: KeyboardLayout) -> usize {
        if self.sticky_layout_base_layer < layer_count_of(layout) {
            self.sticky_layout_base_layer
        } else {
            (layer_count_of(layout) - 1) as usize
        }
    }

    /// The layer the keyboard was on in the previous frame.
    pub open spec fn sticky_layer_before(self, layout: KeyboardLayout) -> usize {
        active_layer(
            layout,
            self.sticky_prev(),
            self.sticky_source_layers(),
            self.sticky_toggled(layout),
            self.sticky_base(layout),
            virtual_layer_keycodes(
                self.sticky_was_active(),
                self.combo_entries@,
                self.sticky_states(),
                self.keycode_picker.tap_dance_entries@,
            ),
        )
    }

    /// The bookkeeping after walking every key in this frame.
    pub open spec fn sticky_key_pass(self, layout: KeyboardLayout, now: u64) -> KeyPassState {
        key_pass(
            layout,
            self.matrix_tester_pressed@,
            self.sticky_prev(),
            self.keycode_picker.tap_dance_entries@,
            self.sticky_layer_before(layout),
            layer_count_of(layout),
            now,
            (
                self.sticky_source_layers(),
                self.sticky_states(),
                self.sticky_toggled(layout),
                self.sticky_base(layout),
                seq![],
            ),
            layout.keys@.len() as int,
        )
    }

    /// Toggled and base layer after the tap-dance layer actions of this frame.
    pub open spec fn sticky_after_actions(self, layout: KeyboardLayout, now: u64) -> (Seq<bool>, usize) {
        let pass = self.sticky_key_pass(layout, now);
        apply_layer_actions(pass.4, layer_count_of(layout), pass.2, pass.3)
    }

    /// Which combos are active in this frame.
    pub open spec fn sticky_current_combos(self, layout: KeyboardLayout, now: u64) -> Seq<bool> {
        let pass = self.sticky_key_pass(layout, now);
        current_combos(
            self.combo_entries@,
            pressed_keycodes_upto(
                layout,
                self.matrix_tester_pressed@,
                pass.0,
                self.sticky_layer_before(layout),
                layout.keys@.len() as int,
            ),
            self.sticky_layer_before(layout),
            self.sticky_was_active(),
        )
    }

    /// Toggled and base layer after the combos that became active in this frame.
    pub open spec fn sticky_after_combos(self, layout: KeyboardLayout, now: u64) -> (Seq<bool>, usize) {
        let after = self.sticky_after_actions(layout, now);
        apply_new_combos(
            self.combo_entries@,
            self.sticky_current_combos(layout, now),
            self.sticky_was_active(),
            layer_count_of(layout),
            after.0,
            after.1,
            self.combo_entries@.len() as int,
        )
    }

    /// Follows the keyboard's layer state through one frame of the live switch matrix and
    /// returns the layer it is on. `now` is the frame time in nanoseconds on a monotonic
    /// clock.
    pub fn sync_sticky_layout_layer_state(&mut self, layout: &KeyboardLayout, now: u64) -> (layer:
        usize)
        requires
            layout.matrix_fits(),
        ensures
            final(self).sticky_layout_prev_pressed@ == old(self).matrix_tester_pressed@,
            final(self).sticky_layout_pressed_key_layers@ == old(self).sticky_key_pass(
                *layout,
                now,
            ).0,
            final(self).sticky_layout_tap_dance_states@ == old(self).sticky_key_pass(
                *layout,
                now,
            ).1,
            final(self).sticky_layout_active_combos@ == old(self).sticky_current_combos(
                *layout,
                now,
            ),
            (final(self).sticky_layout_toggled_layers@, final(self).sticky_layout_base_layer)
                == old(self).sticky_after_combos(*layout, now),
            layer == active_layer(
                *layout,
                old(self).matrix_tester_pressed@,
                final(self).sticky_layout_pressed_key_layers@,
                final(self).sticky_layout_toggled_layers@,
                final(self).sticky_layout_base_layer,
                virtual_layer_keycodes(
                    final(self).sticky_layout_active_combos@,
                    old(self).combo_entries@,
                    final(self).sticky_layout_tap_dance_states@,
                    old(self).keycode_picker.tap_dance_entries@,
                ),
            ),
            final(self).matrix_tester_pressed == old(self).matrix_tester_pressed,
            final(self).combo_entries == old(self).combo_entries,
            final(self).keycode_picker == old(self).keycode_picker,
            final(self).sticky_layout_pressed_key_layers@.len() == old(self).matrix_tester_pressed@.len(),
            final(self).sticky_layout_tap_dance_states@.len() == old(self).matrix_tester_pressed@.len(),
            final(self).sticky_layout_toggled_layers@.len() == layer_count_of(*layout),
            final(self).sticky_layout_active_combos@.len() == old(self).combo_entries@.len(),
            final(self).sticky_layout_base_layer < layer_count_of(*layout),
            layer < layer_count_of(*layout),
    {
        let layer_count = if layout.layers.len() == 0 {
            1
        } else {
            layout.layers.len()
        };
        let n = self.matrix_tester_pressed.len();
        if self.sticky_layout_prev_pressed.len() != n {
            self.sticky_layout_prev_pressed = new_flags(n);
        }
        if self.sticky_layout_pressed_key_layers.len() != n {
            self.sticky_layout_pressed_key_layers = new_source_layers(n);
        }
        if self.sticky_layout_toggled_layers.len() != layer_count {
            self.sticky_layout_toggled_layers = new_flags(layer_count);
        }
        if self.sticky_layout_active_combos.len() != self.combo_entries.len() {
            self.sticky_layout_active_combos = new_flags(self.combo_entries.len());
        }
        if self.sticky_layout_tap_dance_states.len() != n {
            self.sticky_layout_tap_dance_states = new_tap_dance_states(n);
        }
        if self.sticky_layout_base_layer > layer_count - 1 {
            self.sticky_layout_base_layer = layer_count - 1;
        }
        proof {
            assert(self.sticky_layout_prev_pressed@ == old(self).sticky_prev());
            assert(self.sticky_layout_pressed_key_layers@ == old(self).sticky_source_layers());
            assert(self.sticky_layout_toggled_layers@ == old(self).sticky_toggled(*layout));
            assert(self.sticky_layout_active_combos@ == old(self).sticky_was_active());
            assert(self.sticky_layout_tap_dance_states@ == old(self).sticky_states());
        }
        let previous_virtual = sticky_virtual_layer_keycodes(
            self.sticky_layout_active_combos.as_slice(),
            self.combo_entries.as_slice(),
            self.sticky_layout_tap_dance_states.as_slice(),
            self.keycode_picker.tap_dance_entries.as_slice(),
        );
        let layer_before = sticky_layout_active_layer(
            layout,
            self.sticky_layout_prev_pressed.as_slice(),
            self.sticky_layout_pressed_key_layers.as_slice(),
            self.sticky_layout_toggled_layers.as_slice(),
            self.sticky_layout_base_layer,
            previous_virtual.as_slice(),
        );
        let generated = sticky_key_pass(
            layout,
            &self.matrix_tester_pressed,
            &self.sticky_layout_prev_pressed,
            &self.keycode_picker.tap_dance_entries,
            layer_before,
            layer_count,
            now,
            &mut self.sticky_layout_pressed_key_layers,
            &mut self.sticky_layout_tap_dance_states,
            &mut self.sticky_layout_toggled_layers,
            &mut self.sticky_layout_base_layer,
        );
        sticky_apply_generated(
            &generated,
            layer_count,
            &mut self.sticky_layout_toggled_layers,
            &mut self.sticky_layout_base_layer,
        );
        let pressed_keycodes = sticky_pressed_keycodes(
            layout,
            self.matrix_tester_pressed.as_slice(),
            self.sticky_layout_pressed_key_layers.as_slice(),
            layer_before,
        );
        let current = sticky_current_combos(
            &self.combo_entries,
            &pressed_keycodes,
            layer_before,
            &self.sticky_layout_active_combos,
        );
        sticky_apply_new_combos(
            &self.combo_entries,
            &current,
            &self.sticky_layout_active_combos,
            layer_count,
            &mut self.sticky_layout_toggled_layers,
            &mut self.sticky_layout_base_layer,
        );
        self.sticky_layout_active_combos = current;
        self.sticky_layout_prev_pressed = copy_flags(&self.matrix_tester_pressed);
        let virtual_keycodes = sticky_virtual_layer_keycodes(
            self.sticky_layout_active_combos.as_slice(),
            self.combo_entries.as_slice(),
            self.sticky_layout_tap_dance_states.as_slice(),
            self.keycode_picker.tap_dance_entries.as_slice(),
        );
        proof {
            let o = *old(self);
            let lc = layer_count_of(*layout);
            let n = o.matrix_tester_pressed@.len() as int;
            lemma_key_pass_shape(
                *layout,
                o.matrix_tester_pressed@,
                o.sticky_prev(),
                o.keycode_picker.tap_dance_entries@,
                o.sticky_layer_before(*layout),
                lc,
                now,
                (o.sticky_source_layers(), o.sticky_states(), o.sticky_toggled(*layout), o.sticky_base(*layout), seq![]),
                layout.keys@.len() as int,
            );
            let pass = o.sticky_key_pass(*layout, now);
            lemma_layer_actions_shape(pass.4, lc, pass.2, pass.3);
            let after = o.sticky_after_actions(*layout, now);
            lemma_new_combos_shape(
                o.combo_entries@,
                o.sticky_current_combos(*layout, now),
                o.sticky_was_active(),
                lc,
                after.0,
                after.1,
                o.combo_entries@.len() as int,
            );
            lemma_active_layer_is_real(
                *layout,
                o.matrix_tester_pressed@,
                self.sticky_layout_pressed_key_layers@,
                self.sticky_layout_toggled_layers@,
                self.sticky_layout_base_layer,
                virtual_layer_keycodes(
                    self.sticky_layout_active_combos@,
                    o.combo_entries@,
                    self.sticky_layout_tap_dance_states@,
                    o.keycode_picker.tap_dance_entries@,
                ),
            );
        }
        sticky_layout_active_layer(
            layout,
            self.matrix_tester_pressed.as_slice(),
            self.sticky_layout_pressed_key_layers.as_slice(),
            self.sticky_layout_toggled_layers.as_slice(),
            self.sticky_layout_base_layer,
            virtual_keycodes.as_slice(),
        )
    }
}


/// A layer key held over two frames acts once. `after` is the state that a frame of the
/// layout indicator left from `before` (as `sync_sticky_layout_layer_state` ensures); in the
/// next frame, with the switch matrix unchanged, the pass over the keys toggles no layer and
/// moves no base layer: `TG`, `TO` and `DF` keys act only when they go down.
pub proof fn lemma_held_layer_keys_act_once(
    before: EntropyApp,
    after: EntropyApp,
    layout: KeyboardLayout,
    now: u64,
    next: u64,
)
    requires
        after.matrix_tester_pressed == before.matrix_tester_pressed,
        after.sticky_layout_prev_pressed@ == before.matrix_tester_pressed@,
        (after.sticky_layout_toggled_layers@, after.sticky_layout_base_layer) == before.sticky_after_combos(
            layout,
            now,
        ),
        after.sticky_layout_toggled_layers@.len() == layer_count_of(layout),
        after.sticky_layout_base_layer < layer_count_of(layout),
    ensures
        after.sticky_key_pass(layout, next).2 == before.sticky_after_combos(layout, now).0,
        after.sticky_key_pass(layout, next).3 == before.sticky_after_combos(layout, now).1,
{
    assert(after.sticky_prev() == after.matrix_tester_pressed@);
    assert(after.sticky_toggled(layout) == after.sticky_layout_toggled_layers@);
    assert(after.sticky_base(layout) == after.sticky_layout_base_layer);
    lemma_held_keys_do_not_act_again(
        layout,
        after.matrix_tester_pressed@,
        after.keycode_picker.tap_dance_entries@,
        after.sticky_layer_before(layout),
        layer_count_of(layout),
        next,
        (after.sticky_source_layers(), after.sticky_states(), after.sticky_toggled(layout), after.sticky_base(layout), seq![]),
        layout.keys@.len() as int,
    );
}


/// A held layer-tap key `LT(n, k)` (`0x4000..0x5000`) holds layer `n`, the keycode's bits
/// 8..12; a held layer-mod key `LM(n, m)` (`0x5000..0x5200`) holds layer `n`, its bits 4..8.
pub proof fn lemma_layer_tap_holds_its_layer(kc: u16)
    ensures
        0x4000 <= kc < 0x5000 ==> momentary_target(kc) == Some(((kc >> 8u16) & 0xFu16) as usize),
        0x5000 <= kc < 0x5200 ==> momentary_target(kc) == Some(((kc >> 4u16) & 0xFu16) as usize),
{
    assert(0x4000u16 <= kc && kc < 0x5000u16 ==> (kc - 0x4000) / 256 == ((kc >> 8u16) & 0xFu16))
        by (bit_vector);
    assert(0x5000u16 <= kc && kc < 0x5200u16 ==> ((kc - 0x5000) / 16) % 16 == ((kc >> 4u16) & 0xFu16))
        by (bit_vector);
}

/// A layer-operation keycode (`0x5200..0x5300`) names its operation in bits 5..8 and its
/// layer in bits 0..5: `MO`, `OSL` and `TT` (operations 1, 4, 6) hold that layer, `TG`
/// (operation 3) toggles it, `TO`, `DF` and `PDF` (operations 0, 2, 7) make it the base;
/// every other keycode below `0x4000` does none of these.
pub proof fn lemma_layer_operation_fields(kc: u16)
    ensures
        0x5200 <= kc < 0x5300 ==> ({
            let op = (kc >> 5u16) & 0x7u16;
            let layer = (kc & 0x1Fu16) as usize;
            &&& momentary_target(kc) == (if op == 1 || op == 4 || op == 6 { Some(layer) } else { None })
            &&& toggle_target(kc) == (if op == 3 { Some(layer) } else { None })
            &&& base_target(kc) == (if op == 0 || op == 2 || op == 7 { Some(layer) } else { None })
        }),
        kc < 0x4000 ==> momentary_target(kc) is None && toggle_target(kc) is None && base_target(kc) is None,
{
    assert(0x5200u16 <= kc && kc < 0x5300u16 ==> (kc - 0x5200) / 32 == ((kc >> 5u16) & 0x7u16) && (kc
        - 0x5200) % 32 == (kc & 0x1Fu16)) by (bit_vector);
}

/// A transparent key sends what the highest lower layer (layer 0 included) holds that is not
/// transparent, and nothing (`KC_NO`) when every layer from 0 up to its own is transparent;
/// a key that is not transparent sends its own keycode.
pub proof fn lemma_transparent_key_falls_through(layout: KeyboardLayout, layer: int, key: int)
    requires
        layer >= 0,
    ensures
        layout.keycode_at(layer, key) != KC_TRNS ==> effective_keycode(layout, layer, key)
            == layout.keycode_at(layer, key),
        forall|l: int|
            0 <= l < layer && layout.keycode_at(l, key) != KC_TRNS && (forall|m: int|
                l < m <= layer ==> layout.keycode_at(m, key) == KC_TRNS) ==> effective_keycode(
                layout,
                layer,
                key,
            ) == #[trigger] layout.keycode_at(l, key),
        (forall|m: int| 0 <= m <= layer ==> layout.keycode_at(m, key) == KC_TRNS) ==> effective_keycode(
            layout,
            layer,
            key,
        ) == 0,
{
    lemma_fallback_finds_highest(layout, layer, key);
}

proof fn lemma_fallback_finds_highest(layout: KeyboardLayout, layer: int, key: int)
    requires
        layer >= 0,
    ensures
        forall|l: int|
            0 <= l < layer && layout.keycode_at(l, key) != KC_TRNS && (forall|m: int|
                l < m < layer ==> layout.keycode_at(m, key) == KC_TRNS) ==> fallback_keycode(
                layout,
                layer,
                key,
            ) == #[trigger] layout.keycode_at(l, key),
        (forall|m: int| 0 <= m < layer ==> layout.keycode_at(m, key) == KC_TRNS) ==> fallback_keycode(
            layout,
            layer,
            key,
        ) == 0,
    decreases layer,
{
    if layer > 0 {
        lemma_fallback_finds_highest(layout, layer - 1, key);
        assert forall|l: int|
            0 <= l < layer && layout.keycode_at(l, key) != KC_TRNS && (forall|m: int|
                l < m < layer ==> layout.keycode_at(m, key) == KC_TRNS) implies fallback_keycode(
            layout,
            layer,
            key,
        ) == #[trigger] layout.keycode_at(l, key) by {
            if l < layer - 1 {
                assert(layout.keycode_at(layer - 1, key) == KC_TRNS);
            }
        }
        if forall|m: int| 0 <= m < layer ==> layout.keycode_at(m, key) == KC_TRNS {
            assert(layout.keycode_at(layer - 1, key) == KC_TRNS);
        }
    }
}

/// The hold action of an existing tap-dance entry is its tap-then-hold action after two or
/// more taps and its hold action after one; an entry that does not exist has none.
pub proof fn lemma_hold_action_follows_tap_count(entries: Seq<TapDanceEntry>, entry: usize, tap_count: u8)
    ensures
        entry < entries.len() && tap_count >= 2 ==> tap_dance_hold_action(entries, entry, tap_count)
            == Some(entries[entry as int].on_tap_hold),
        entry < entries.len() && tap_count < 2 ==> tap_dance_hold_action(entries, entry, tap_count)
            == Some(entries[entry as int].on_hold),
        entry >= entries.len() ==> tap_dance_hold_action(entries, entry, tap_count) is None,
{
}

/// Tap, then hold: a tap-dance key pressed at `t0`, released at `t1` and pressed again at
/// `t2`, each within the tapping term `term` of the step before, and still held at `t3`
/// once the term has passed since `t2`, emits the entry's tap-then-hold action and is
/// holding.
pub proof fn lemma_tap_then_hold_emits_tap_hold_action(
    entries: Seq<TapDanceEntry>,
    entry: usize,
    term: u64,
    t0: u64,
    t1: u64,
    t2: u64,
    t3: u64,
)
    requires
        entry < entries.len(),
        tap_dance_term(entries, entry) == Some(term),
        t0 <= t1 <= t2 <= t3,
        t1 - t0 < term,
        t2 - t1 < term,
        t3 - t2 >= term,
    ensures
        ({
            let s1 = tap_dance_step(StickyLayoutTapDanceState::Idle, true, Some(entry), entries, t0).0;
            let s2 = tap_dance_step(s1, false, None, entries, t1).0;
            let s3 = tap_dance_step(s2, true, Some(entry), entries, t2).0;
            let last = tap_dance_step(s3, true, Some(entry), entries, t3);
            &&& last.1 == Some(entries[entry as int].on_tap_hold)
            &&& last.0 == StickyLayoutTapDanceState::Pressed {
                entry,
                pressed_at: t2,
                tap_count: 2,
                hold_active: true,
            }
        }),
{
}

} // verus!
