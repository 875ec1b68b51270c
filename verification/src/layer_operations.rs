use vstd::prelude::*;

use crate::keyboard::{table_at, table_set, KeyboardLayout};
use crate::keycode::{handed_counterpart, toggle_handed_modifier};
use crate::app::{EntropyApp, StatusArg, StatusMessage, UndoAction};
use crate::key_assignment::not_layer;
use std::sync::mpsc::{Receiver, TryRecvError};

verus! {

/// The keycodes of one layer: one per key and one per encoder slot.
#[derive(Clone, Debug, PartialEq, Eq)]
pub struct LayerSnapshot {
    pub keycodes: Vec<u16>,
    pub encoder_keycodes: Vec<u16>,
}

/// Why a whole-layer operation cannot run.
#[derive(Clone, Copy, Debug, PartialEq, Eq)]
pub enum LayerOperationError {
    MissingLayer,
    KeyCountMismatch { source: usize, target: usize },
    IncompatibleGeometry,
    UnevenKeyCount { count: usize },
    UnbalancedGeometry,
}

/// A layer write the keyboard has not confirmed; replayed after reconnecting.
#[derive(Clone, Debug, PartialEq, Eq)]
pub struct DeferredLayerWrite {
    pub layer: usize,
    pub keycodes: Vec<u16>,
    pub encoder_keycodes: Vec<u16>,
}

pub fn copy_keycodes(src: &Vec<u16>) -> (v: Vec<u16>)
    ensures
        v@ == src@,
{
    let mut v: Vec<u16> = Vec::new();
    while v.len() < src.len()
        invariant
            v@.len() <= src@.len(),
            v@ == src@.take(v@.len() as int),
        decreases src@.len() - v@.len(),
    {
        let kc = src[v.len()];
        v.push(kc);
        assert(v@ =~= src@.take(v@.len() as int));
    }
    assert(v@ =~= src@);
    v
}

impl LayerSnapshot {
    /// A copy with the same keycodes.
    pub fn duplicate(&self) -> (copy: Self)
        ensures
            copy.keycodes@ == self.keycodes@,
            copy.encoder_keycodes@ == self.encoder_keycodes@,
    {
        LayerSnapshot {
            keycodes: copy_keycodes(&self.keycodes),
            encoder_keycodes: copy_keycodes(&self.encoder_keycodes),
        }
    }
}

/// The keycodes of `layer` for every key of the layout.
pub open spec fn layer_keycodes(layout: KeyboardLayout, layer: int) -> Seq<u16> {
    Seq::new(layout.keys@.len(), |k: int| layout.keycode_at(layer, k))
}

/// The keycodes of `layer` for every encoder slot of the layout.
pub open spec fn layer_encoder_keycodes(layout: KeyboardLayout, layer: int) -> Seq<u16> {
    Seq::new(layout.encoders@.len(), |e: int| layout.encoder_keycode_at(layer, e))
}

/// Whether `snapshot` holds exactly the keycodes of `layer` in `layout`.
pub open spec fn is_capture_of(snapshot: LayerSnapshot, layout: KeyboardLayout, layer: int) -> bool {
    &&& snapshot.keycodes@ == layer_keycodes(layout, layer)
    &&& snapshot.encoder_keycodes@ == layer_encoder_keycodes(layout, layer)
}

/// Captures every key and encoder keycode of `layer`; `None` if the layout has no such layer.
pub fn capture_layer(layout: &KeyboardLayout, layer: usize) -> (snapshot: Option<LayerSnapshot>)
    ensures
        snapshot is Some <==> layer < layout.layers@.len(),
        snapshot matches Some(s) ==> is_capture_of(s, *layout, layer as int),
{
    if layer >= layout.layers.len() {
        return None;
    }
    let mut keycodes: Vec<u16> = Vec::new();
    let mut key_idx: usize = 0;
    while key_idx < layout.keys.len()
        invariant
            key_idx <= layout.keys@.len(),
            keycodes@ == layer_keycodes(*layout, layer as int).take(key_idx as int),
        decreases layout.keys@.len() - key_idx,
    {
        keycodes.push(layout.get_keycode(layer, key_idx));
        key_idx = key_idx + 1;
        assert(keycodes@ =~= layer_keycodes(*layout, layer as int).take(key_idx as int));
    }
    let mut encoder_keycodes: Vec<u16> = Vec::new();
    let mut encoder_idx: usize = 0;
    while encoder_idx < layout.encoders.len()
        invariant
            encoder_idx <= layout.encoders@.len(),
            encoder_keycodes@ == layer_encoder_keycodes(*layout, layer as int).take(
                encoder_idx as int,
            ),
        decreases layout.encoders@.len() - encoder_idx,
    {
        encoder_keycodes.push(layout.get_encoder_keycode(layer, encoder_idx));
        encoder_idx = encoder_idx + 1;
        assert(encoder_keycodes@ =~= layer_encoder_keycodes(*layout, layer as int).take(
            encoder_idx as int,
        ));
    }
    assert(keycodes@ =~= layer_keycodes(*layout, layer as int));
    assert(encoder_keycodes@ =~= layer_encoder_keycodes(*layout, layer as int));
    Some(LayerSnapshot { keycodes, encoder_keycodes })
}

/// The layer with every key set to `keycode` and its encoders unchanged; `None` if the
/// layout has no such layer.
pub fn filled_layer_snapshot(layout: &KeyboardLayout, layer: usize, keycode: u16) -> (snapshot:
    Option<LayerSnapshot>)
    ensures
        snapshot is Some <==> layer < layout.layers@.len(),
        snapshot matches Some(s) ==> {
            &&& s.keycodes@ == Seq::new(layout.keys@.len(), |k: int| keycode)
            &&& s.encoder_keycodes@ == layer_encoder_keycodes(*layout, layer as int)
        },
{
    let captured = capture_layer(layout, layer);
    match captured {
        None => None,
        Some(snapshot) => {
            let mut keycodes: Vec<u16> = Vec::new();
            while keycodes.len() < snapshot.keycodes.len()
                invariant
                    keycodes@.len() <= snapshot.keycodes@.len(),
                    forall|k: int| 0 <= k < keycodes@.len() ==> keycodes@[k] == keycode,
                decreases snapshot.keycodes@.len() - keycodes@.len(),
            {
                keycodes.push(keycode);
            }
            assert(keycodes@ =~= Seq::new(layout.keys@.len(), |k: int| keycode));
            Some(LayerSnapshot { keycodes, encoder_keycodes: snapshot.encoder_keycodes })
        },
    }
}

/// A table of rows after applying `updates` on `layer` in order.
pub open spec fn apply_updates(table: Seq<Seq<u16>>, layer: int, updates: Seq<(usize, u16)>) -> Seq<
    Seq<u16>,
>
    decreases updates.len(),
{
    if updates.len() == 0 {
        table
    } else {
        table_set(
            apply_updates(table, layer, updates.drop_last()),
            layer,
            updates.last().0 as int,
            updates.last().1,
        )
    }
}

/// The keycode of the last update of position `x` among `updates`, if any.
pub open spec fn last_update(updates: Seq<(usize, u16)>, x: int) -> Option<u16>
    decreases updates.len(),
{
    if updates.len() == 0 {
        None
    } else if updates.last().0 as int == x {
        Some(updates.last().1)
    } else {
        last_update(updates.drop_last(), x)
    }
}

/// Applying updates in order keeps the table's shape, leaves every other layer and
/// position alone, and leaves each updated position of `layer` with its last update.
pub proof fn lemma_apply_updates_last_wins(
    table: Seq<Seq<u16>>,
    layer: int,
    updates: Seq<(usize, u16)>,
    l: int,
    x: int,
)
    ensures
        apply_updates(table, layer, updates).len() == table.len(),
        0 <= l < table.len() ==> apply_updates(table, layer, updates)[l].len() == table[l].len(),
        table_at(apply_updates(table, layer, updates), l, x) == if l == layer && 0 <= l < table.len() && 0
            <= x < table[l].len() {
            match last_update(updates, x) {
                Some(k) => k,
                None => table[l][x],
            }
        } else {
            table_at(table, l, x)
        },
    decreases updates.len(),
{
    if updates.len() > 0 {
        lemma_apply_updates_last_wins(table, layer, updates.drop_last(), l, x);
        lemma_apply_updates_last_wins(table, layer, updates.drop_last(), layer, updates.last().0 as int);
    }
}

/// Writes the key updates and then the encoder updates onto `layer`.
pub fn apply_layer_updates(
    layout: &mut KeyboardLayout,
    layer: usize,
    key_updates: &[(usize, u16)],
    encoder_updates: &[(usize, u16)],
)
    ensures
        final(layout).layer_table() == apply_updates(
            old(layout).layer_table(),
            layer as int,
            key_updates@,
        ),
        final(layout).encoder_table() == apply_updates(
            old(layout).encoder_table(),
            layer as int,
            encoder_updates@,
        ),
        final(layout).keys == old(layout).keys,
        final(layout).encoders == old(layout).encoders,
        final(layout).rows == old(layout).rows,
        final(layout).cols == old(layout).cols,
{
    let ghost keys0 = layout.layer_table();
    let ghost encoders0 = layout.encoder_table();
    let mut i: usize = 0;
    while i < key_updates.len()
        invariant
            i <= key_updates@.len(),
            layout.layer_table() == apply_updates(keys0, layer as int, key_updates@.take(i as int)),
            layout.encoder_table() == encoders0,
            layout.keys == old(layout).keys,
            layout.encoders == old(layout).encoders,
            layout.rows == old(layout).rows,
            layout.cols == old(layout).cols,
        decreases key_updates@.len() - i,
    {
        let (key_idx, keycode) = key_updates[i];
        proof {
            assert(key_updates@.take(i + 1).drop_last() =~= key_updates@.take(i as int));
        }
        layout.set_keycode(layer, key_idx, keycode);
        i = i + 1;
    }
    assert(key_updates@.take(key_updates@.len() as int) =~= key_updates@);
    let mut j: usize = 0;
    while j < encoder_updates.len()
        invariant
            j <= encoder_updates@.len(),
            layout.layer_table() == apply_updates(keys0, layer as int, key_updates@),
            layout.encoder_table() == apply_updates(
                encoders0,
                layer as int,
                encoder_updates@.take(j as int),
            ),
            layout.keys == old(layout).keys,
            layout.encoders == old(layout).encoders,
            layout.rows == old(layout).rows,
            layout.cols == old(layout).cols,
        decreases encoder_updates@.len() - j,
    {
        let (encoder_idx, keycode) = encoder_updates[j];
        proof {
            assert(encoder_updates@.take(j + 1).drop_last() =~= encoder_updates@.take(j as int));
        }
        layout.set_encoder_keycode(layer, encoder_idx, keycode);
        j = j + 1;
    }
    assert(encoder_updates@.take(encoder_updates@.len() as int) =~= encoder_updates@);
}

/// A keycode moved to the other hand: its handed counterpart, or itself when it has none.
pub open spec fn mirrored_keycode(kc: u16) -> u16 {
    match handed_counterpart(kc) {
        Some(other) => other,
        None => kc,
    }
}

/// Whether every entry of `mapping` names a key of `layout`.
pub open spec fn mapping_in_range(layout: KeyboardLayout, mapping: Seq<usize>) -> bool {
    forall|i: int| 0 <= i < mapping.len() ==> #[trigger] mapping[i] < layout.keys@.len()
}

/// The mirrored layer: key `i` receives the keycode of key `mapping[i]`, moved to the other
/// hand; encoders keep their keycodes.
pub fn mirrored_layer_snapshot_with_mapping(
    layout: &KeyboardLayout,
    layer: usize,
    mapping: &[usize],
) -> (result: Result<LayerSnapshot, LayerOperationError>)
    requires
        layer < layout.layers@.len() ==> mapping_in_range(*layout, mapping@),
    ensures
        layer >= layout.layers@.len() ==> result == Err::<LayerSnapshot, LayerOperationError>(
            LayerOperationError::MissingLayer,
        ),
        layer < layout.layers@.len() ==> (result matches Ok(s) && s.keycodes@ == Seq::new(
            mapping@.len(),
            |i: int| mirrored_keycode(layout.keycode_at(layer as int, mapping@[i] as int)),
        ) && s.encoder_keycodes@ == layer_encoder_keycodes(*layout, layer as int)
            && s.keycodes@ == mirror_keycodes(layer_keycodes(*layout, layer as int), mapping@)),
{
    let current = match capture_layer(layout, layer) {
        Some(snapshot) => snapshot,
        None => return Err(LayerOperationError::MissingLayer),
    };
    let ghost target = Seq::new(
        mapping@.len(),
        |i: int| mirrored_keycode(layout.keycode_at(layer as int, mapping@[i] as int)),
    );
    let mut keycodes: Vec<u16> = Vec::new();
    let mut i: usize = 0;
    while i < mapping.len()
        invariant
            i <= mapping@.len(),
            mapping_in_range(*layout, mapping@),
            is_capture_of(current, *layout, layer as int),
            target == Seq::new(
                mapping@.len(),
                |i: int| mirrored_keycode(layout.keycode_at(layer as int, mapping@[i] as int)),
            ),
            keycodes@ == target.take(i as int),
        decreases mapping@.len() - i,
    {
        let source_idx = mapping[i];
        assert(mapping@[i as int] < layout.keys@.len());
        let keycode = current.keycodes[source_idx];
        assert(keycode == layout.keycode_at(layer as int, source_idx as int));
        let mirrored = match toggle_handed_modifier(keycode) {
            Some(other) => other,
            None => keycode,
        };
        assert(target[i as int] == mirrored);
        keycodes.push(mirrored);
        i = i + 1;
        assert(keycodes@ =~= target.take(i as int));
    }
    assert(keycodes@ =~= target);
    assert(target =~= mirror_keycodes(layer_keycodes(*layout, layer as int), mapping@));
    Ok(LayerSnapshot { keycodes, encoder_keycodes: current.encoder_keycodes })
}

} // verus!

verus! {

/// Mirroring a layer's keycodes by a mapping: key `i` receives the keycode of key
/// `mapping[i]`, moved to the other hand.
pub open spec fn mirror_keycodes(keycodes: Seq<u16>, mapping: Seq<usize>) -> Seq<u16> {
    Seq::new(mapping.len(), |i: int| mirrored_keycode(keycodes[mapping[i] as int]))
}

/// Whether `mapping` pairs every key with its mirror image: it is a permutation of the keys
/// that is its own inverse.
pub open spec fn is_involution(mapping: Seq<usize>) -> bool {
    forall|i: int|
        0 <= i < mapping.len() ==> #[trigger] mapping[i] < mapping.len() && mapping[mapping[i]
            as int] == i
}

/// Moving a keycode to the other hand twice gives it back.
pub proof fn lemma_mirrored_keycode_involutive(kc: u16)
    ensures
        mirrored_keycode(mirrored_keycode(kc)) == kc,
{
    if handed_counterpart(kc) is Some {
        crate::keycode::lemma_handed_counterpart_involutive(kc);
    }
}

/// Mirroring a layer twice by a mapping that pairs every key with its mirror image gives
/// the layer back.
pub proof fn lemma_mirror_twice_is_identity(keycodes: Seq<u16>, mapping: Seq<usize>)
    requires
        mapping.len() == keycodes.len(),
        is_involution(mapping),
    ensures
        mirror_keycodes(mirror_keycodes(keycodes, mapping), mapping) == keycodes,
{
    let once = mirror_keycodes(keycodes, mapping);
    let twice = mirror_keycodes(once, mapping);
    assert forall|i: int| 0 <= i < keycodes.len() implies #[trigger] twice[i] == keycodes[i] by {
        let j = mapping[i] as int;
        assert(once[j] == mirrored_keycode(keycodes[mapping[j] as int]));
        lemma_mirrored_keycode_involutive(keycodes[i]);
    }
    assert(twice =~= keycodes);
}

/// Mirroring a layer twice restores it: where `mirrored` is `layout` with the keycodes of
/// the mirrored snapshot of `layer` on that layer, and the mapping pairs every key with its
/// mirror image, the mirrored snapshot of `layer` in `mirrored` holds the keycodes of
/// `layer` in `layout`.
pub proof fn lemma_mirror_snapshot_twice_restores_layer(
    layout: KeyboardLayout,
    mirrored: KeyboardLayout,
    layer: int,
    mapping: Seq<usize>,
)
    requires
        mapping.len() == layout.keys@.len(),
        is_involution(mapping),
        layer_keycodes(mirrored, layer) == mirror_keycodes(layer_keycodes(layout, layer), mapping),
    ensures
        mirror_keycodes(layer_keycodes(mirrored, layer), mapping) == layer_keycodes(layout, layer),
{
    lemma_mirror_twice_is_identity(layer_keycodes(layout, layer), mapping);
}

/// The outcome of writing one key to the keyboard.
#[derive(Clone, Debug, PartialEq, Eq)]
pub enum KeyWriteOutcome {
    Saved,
    Mismatch { readback: u16, error: String },
    Failed(String),
}

/// How far a layer write got.
#[derive(Debug, PartialEq, Eq)]
pub struct LayerWriteProgress {
    pub key_updates: Vec<(usize, u16)>,
    pub encoder_updates: Vec<(usize, u16)>,
    pub written: usize,
    pub error: Option<String>,
    pub disconnect: bool,
}

/// A key to write: its index, matrix row and column, and the keycode.
pub type KeyChange = (usize, u8, u8, u16);

/// An encoder slot to write: its index, encoder number, direction, and the keycode.
pub type EncoderChange = (usize, u8, u8, u16);

/// The index and keycode of each of the first `n` changes.
pub open spec fn change_updates(changes: Seq<(usize, u8, u8, u16)>, n: int) -> Seq<(usize, u16)> {
    Seq::new(n as nat, |i: int| (changes[i].0, changes[i].3))
}

/// The shape of a layer write's progress whatever the keyboard answered: the keys are
/// written in order until one fails, then the encoders in order until one fails.
/// A key whose readback differs is recorded with the readback and stops the write without a
/// disconnect; a failed key or encoder write stops it with a disconnect. `written` counts
/// the confirmed writes.
pub open spec fn layer_write_shape(
    key_changes: Seq<KeyChange>,
    encoder_changes: Seq<EncoderChange>,
    progress: LayerWriteProgress,
) -> bool {
    ||| (exists|k: int, readback: u16|
        0 <= k < key_changes.len() && progress.key_updates@ == change_updates(key_changes, k).push(
            (key_changes[k].0, readback),
        ) && progress.encoder_updates@.len() == 0 && progress.written == k
            && progress.error is Some && !progress.disconnect)
    ||| (exists|k: int|
        0 <= k < key_changes.len() && progress.key_updates@ == change_updates(key_changes, k)
            && progress.encoder_updates@.len() == 0 && progress.written == k
            && progress.error is Some && progress.disconnect)
    ||| (exists|e: int|
        0 <= e <= encoder_changes.len() && progress.key_updates@ == change_updates(
            key_changes,
            key_changes.len() as int,
        ) && progress.encoder_updates@ == change_updates(encoder_changes, e) && progress.written
            == key_changes.len() + e && if e == encoder_changes.len() {
            progress.error is None && !progress.disconnect
        } else {
            progress.error is Some && progress.disconnect
        })
}

/// A layer write's progress as values: the key updates, the encoder updates, the number of
/// confirmed writes, the first error, and whether the keyboard was lost.
pub type ProgressValue = (Seq<(usize, u16)>, Seq<(usize, u16)>, int, Option<String>, bool);

/// The progress of `p` as values.
pub open spec fn progress_value(p: LayerWriteProgress) -> ProgressValue {
    (p.key_updates@, p.encoder_updates@, p.written as int, p.error, p.disconnect)
}

/// The progress before anything was written.
pub open spec fn no_progress() -> ProgressValue {
    (Seq::empty(), Seq::empty(), 0, None, false)
}

/// What the keyboard's answer to writing one key does to the progress, and whether the write
/// stops there: a saved key is recorded with its keycode and counted; a key that read back
/// differently is recorded with the read-back value and stops the write, keeping the
/// keyboard; a failed key stops the write and loses the keyboard.
pub open spec fn key_step(v: ProgressValue, change: KeyChange, outcome: KeyWriteOutcome) -> (ProgressValue, bool) {
    match outcome {
        KeyWriteOutcome::Saved => ((v.0.push((change.0, change.3)), v.1, v.2 + 1, v.3, v.4), false),
        KeyWriteOutcome::Mismatch { readback, error } => (
            (v.0.push((change.0, readback)), v.1, v.2, Some(error), v.4),
            true,
        ),
        KeyWriteOutcome::Failed(error) => ((v.0, v.1, v.2, Some(error), true), true),
    }
}

/// What the keyboard's answer to writing one encoder slot does to the progress, and whether
/// the write stops there: a written slot is recorded and counted; a failure stops the write
/// and loses the keyboard.
pub open spec fn encoder_step(v: ProgressValue, change: EncoderChange, answer: Result<(), String>) -> (
    ProgressValue,
    bool,
) {
    match answer {
        Ok(()) => ((v.0, v.1.push((change.0, change.3)), v.2 + 1, v.3, v.4), false),
        Err(error) => ((v.0, v.1, v.2, Some(error), true), true),
    }
}

/// The progress after the answers to the first key writes, one answer per key in order.
pub open spec fn keys_fold(changes: Seq<KeyChange>, answers: Seq<KeyWriteOutcome>) -> ProgressValue
    decreases answers.len(),
{
    if answers.len() == 0 {
        no_progress()
    } else {
        key_step(
            keys_fold(changes, answers.drop_last()),
            changes[answers.len() - 1],
            answers.last(),
        ).0
    }
}

/// The progress `start` after the answers to the first encoder writes.
pub open spec fn encoders_fold(
    start: ProgressValue,
    changes: Seq<EncoderChange>,
    answers: Seq<Result<(), String>>,
) -> ProgressValue
    decreases answers.len(),
{
    if answers.len() == 0 {
        start
    } else {
        encoder_step(
            encoders_fold(start, changes, answers.drop_last()),
            changes[answers.len() - 1],
            answers.last(),
        ).0
    }
}

/// Whether `answers` are the answers of the key writes made, each to the row, column and
/// keycode of its change: every key up to the first answer that is not a save was written,
/// and no key after it.
pub open spec fn keys_answered<K: Fn(u8, u8, u16) -> KeyWriteOutcome>(
    write_key: K,
    changes: Seq<KeyChange>,
    answers: Seq<KeyWriteOutcome>,
) -> bool {
    &&& answers.len() <= changes.len()
    &&& forall|j: int|
        0 <= j < answers.len() ==> #[trigger] call_ensures(
            write_key,
            (changes[j].1, changes[j].2, changes[j].3),
            answers[j],
        )
    &&& forall|j: int| 0 <= j < answers.len() - 1 ==> #[trigger] answers[j] is Saved
    &&& answers.len() < changes.len() ==> answers.len() > 0 && !(answers.last() is Saved)
}

/// Whether every key write was answered as saved.
pub open spec fn all_keys_saved(changes: Seq<KeyChange>, answers: Seq<KeyWriteOutcome>) -> bool {
    answers.len() == changes.len() && (answers.len() == 0 || answers.last() is Saved)
}

/// Whether `answers` are the answers of the encoder writes made, each to the encoder number,
/// direction and keycode of its change, up to the first failure and no further.
pub open spec fn encoders_answered<E: Fn(u8, u8, u16) -> Result<(), String>>(
    write_encoder: E,
    changes: Seq<EncoderChange>,
    answers: Seq<Result<(), String>>,
) -> bool {
    &&& answers.len() <= changes.len()
    &&& forall|j: int|
        0 <= j < answers.len() ==> #[trigger] call_ensures(
            write_encoder,
            (changes[j].1, changes[j].2, changes[j].3),
            answers[j],
        )
    &&& forall|j: int| 0 <= j < answers.len() - 1 ==> #[trigger] answers[j] is Ok
    &&& answers.len() < changes.len() ==> answers.len() > 0 && answers.last() is Err
}

/// Records the keyboard's answer to writing the key `change`, as `key_step` says; returns
/// whether the write stops there.
pub fn record_key_write(progress: &mut LayerWriteProgress, change: KeyChange, outcome: KeyWriteOutcome) -> (stop: bool)
    requires
        old(progress).written < usize::MAX,
    ensures
        (progress_value(*final(progress)), stop) == key_step(progress_value(*old(progress)), change, outcome),
{
    match outcome {
        KeyWriteOutcome::Saved => {
            progress.key_updates.push((change.0, change.3));
            progress.written = progress.written + 1;
            false
        },
        KeyWriteOutcome::Mismatch { readback, error } => {
            progress.key_updates.push((change.0, readback));
            progress.error = Some(error);
            true
        },
        KeyWriteOutcome::Failed(error) => {
            progress.error = Some(error);
            progress.disconnect = true;
            true
        },
    }
}

/// Records the keyboard's answer to writing the encoder slot `change`, as `encoder_step`
/// says; returns whether the write stops there.
pub fn record_encoder_write(progress: &mut LayerWriteProgress, change: EncoderChange, answer: Result<(), String>) -> (stop: bool)
    requires
        old(progress).written < usize::MAX,
    ensures
        (progress_value(*final(progress)), stop) == encoder_step(progress_value(*old(progress)), change, answer),
{
    match answer {
        Ok(()) => {
            progress.encoder_updates.push((change.0, change.3));
            progress.written = progress.written + 1;
            false
        },
        Err(error) => {
            progress.error = Some(error);
            progress.disconnect = true;
            true
        },
    }
}

/// Writes the keys, then the encoders, in order, through `write_key` and `write_encoder`:
/// each key is handed its row, column and keycode, and each encoder slot its encoder
/// number, direction and keycode; the answers are recorded by `record_key_write` and
/// `record_encoder_write`, and the first answer that stops the write ends it. The encoders
/// are written only when every key was saved.
pub fn run_layer_writes<
    K: Fn(u8, u8, u16) -> KeyWriteOutcome,
    E: Fn(u8, u8, u16) -> Result<(), String>,
>(
    key_changes: &[KeyChange],
    encoder_changes: &[EncoderChange],
    write_key: K,
    write_encoder: E,
) -> (progress: LayerWriteProgress)
    requires
        forall|row: u8, col: u8, kc: u16| call_requires(write_key, (row, col, kc)),
        forall|device: u8, direction: u8, kc: u16| call_requires(write_encoder, (device, direction, kc)),
        key_changes@.len() + encoder_changes@.len() <= usize::MAX,
    ensures
        exists|key_answers: Seq<KeyWriteOutcome>, encoder_answers: Seq<Result<(), String>>|
            {
                &&& keys_answered(write_key, key_changes@, key_answers)
                &&& if all_keys_saved(key_changes@, key_answers) {
                    encoders_answered(write_encoder, encoder_changes@, encoder_answers)
                } else {
                    encoder_answers.len() == 0
                }
                &&& progress_value(progress) == #[trigger] encoders_fold(
                    keys_fold(key_changes@, key_answers),
                    encoder_changes@,
                    encoder_answers,
                )
            },
        layer_write_shape(key_changes@, encoder_changes@, progress),
{
    let mut progress = LayerWriteProgress {
        key_updates: Vec::new(),
        encoder_updates: Vec::new(),
        written: 0,
        error: None,
        disconnect: false,
    };
    let ghost mut key_answers: Seq<KeyWriteOutcome> = Seq::empty();
    let mut i: usize = 0;
    assert(progress_value(progress) == no_progress());
    while i < key_changes.len()
        invariant
            forall|row: u8, col: u8, kc: u16| call_requires(write_key, (row, col, kc)),
            key_changes@.len() + encoder_changes@.len() <= usize::MAX,
            i <= key_changes@.len(),
            key_answers.len() == i,
            forall|j: int|
                0 <= j < key_answers.len() ==> #[trigger] call_ensures(
                    write_key,
                    (key_changes@[j].1, key_changes@[j].2, key_changes@[j].3),
                    key_answers[j],
                ),
            forall|j: int| 0 <= j < key_answers.len() ==> #[trigger] key_answers[j] is Saved,
            progress_value(progress) == keys_fold(key_changes@, key_answers),
            progress.written == i,
            progress.key_updates@ == change_updates(key_changes@, i as int),
            progress.encoder_updates@.len() == 0,
            progress.error is None,
            !progress.disconnect,
        decreases key_changes@.len() - i,
    {
        let change = key_changes[i];
        let (_key_idx, row, col, keycode) = change;
        let outcome = write_key(row, col, keycode);
        let ghost answers = key_answers.push(outcome);
        let ghost before = progress_value(progress);
        proof {
            assert(answers.drop_last() =~= key_answers);
        }
        let stop = record_key_write(&mut progress, change, outcome);
        proof {
            key_answers = answers;
            assert(progress_value(progress) == keys_fold(key_changes@, key_answers));
        }
        if stop {
            proof {
                assert(keys_answered(write_key, key_changes@, key_answers));
                assert(!all_keys_saved(key_changes@, key_answers));
                let ea: Seq<Result<(), String>> = Seq::empty();
                assert(progress_value(progress) == encoders_fold(keys_fold(key_changes@, key_answers), encoder_changes@, ea));
                if outcome is Mismatch {
                    let readback = outcome->readback;
                    assert(progress.key_updates@ == change_updates(key_changes@, i as int).push(
                        (key_changes@[i as int].0, readback),
                    ));
                } else {
                    assert(progress.key_updates@ == change_updates(key_changes@, i as int));
                }
            }
            return progress;
        }
        i = i + 1;
        assert(progress.key_updates@ =~= change_updates(key_changes@, i as int));
    }
    let ghost keys_done = progress_value(progress);
    let ghost mut encoder_answers: Seq<Result<(), String>> = Seq::empty();
    assert(keys_answered(write_key, key_changes@, key_answers));
    assert(all_keys_saved(key_changes@, key_answers));
    let mut j: usize = 0;
    while j < encoder_changes.len()
        invariant
            forall|device: u8, direction: u8, kc: u16| call_requires(write_encoder, (device, direction, kc)),
            key_changes@.len() + encoder_changes@.len() <= usize::MAX,
            keys_answered(write_key, key_changes@, key_answers),
            all_keys_saved(key_changes@, key_answers),
            keys_done == keys_fold(key_changes@, key_answers),
            j <= encoder_changes@.len(),
            encoder_answers.len() == j,
            forall|k: int|
                0 <= k < encoder_answers.len() ==> #[trigger] call_ensures(
                    write_encoder,
                    (encoder_changes@[k].1, encoder_changes@[k].2, encoder_changes@[k].3),
                    encoder_answers[k],
                ),
            forall|k: int| 0 <= k < encoder_answers.len() ==> #[trigger] encoder_answers[k] is Ok,
            progress_value(progress) == encoders_fold(keys_done, encoder_changes@, encoder_answers),
            progress.written == key_changes@.len() + j,
            progress.key_updates@ == change_updates(key_changes@, key_changes@.len() as int),
            progress.encoder_updates@ == change_updates(encoder_changes@, j as int),
            progress.error is None,
            !progress.disconnect,
        decreases encoder_changes@.len() - j,
    {
        let change = encoder_changes[j];
        let (_encoder_idx, device_idx, direction, keycode) = change;
        let answer = write_encoder(device_idx, direction, keycode);
        let ghost answers = encoder_answers.push(answer);
        proof {
            assert(answers.drop_last() =~= encoder_answers);
        }
        let stop = record_encoder_write(&mut progress, change, answer);
        proof {
            encoder_answers = answers;
            assert(progress_value(progress) == encoders_fold(keys_done, encoder_changes@, encoder_answers));
        }
        if stop {
            proof {
                assert(encoders_answered(write_encoder, encoder_changes@, encoder_answers));
                assert(progress.encoder_updates@ == change_updates(encoder_changes@, j as int));
            }
            return progress;
        }
        j = j + 1;
        assert(progress.encoder_updates@ =~= change_updates(encoder_changes@, j as int));
    }
    assert(encoders_answered(write_encoder, encoder_changes@, encoder_answers));
    progress
}

} // verus!

verus! {

/// What to remember for undo once a layer write ends.
#[derive(Clone, Copy, Debug, PartialEq, Eq)]
pub enum LayerUndoBehavior {
    /// A normal edit: remember the old layer if the write changed anything.
    RecordOld,
    /// An undo: if it fails, keep the undo available so it can be retried.
    RetryDesired { requires_firmware: bool },
}

/// Everything needed to finish a layer write.
#[derive(Debug)]
pub struct LayerWriteContext {
    pub layer: usize,
    pub old: LayerSnapshot,
    pub desired: LayerSnapshot,
    /// The message-catalog key naming the operation.
    pub action: &'static str,
    pub total: usize,
    pub undo_behavior: LayerUndoBehavior,
}

/// The undo entry a finished layer write leaves, with whether replaying it needs the
/// keyboard: a normal edit that touched the layer records the old layer; a failed undo
/// records the layer it wanted to restore.
pub fn undo_after_layer_write(context: &LayerWriteContext, touched: bool, failed: bool) -> (undo:
    Option<(LayerSnapshot, bool)>)
    ensures
        match context.undo_behavior {
            LayerUndoBehavior::RecordOld => if touched {
                undo matches Some((s, rf)) && rf && s.keycodes@ == context.old.keycodes@
                    && s.encoder_keycodes@ == context.old.encoder_keycodes@
            } else {
                undo is None
            },
            LayerUndoBehavior::RetryDesired { requires_firmware } => if failed {
                undo matches Some((s, rf)) && rf == requires_firmware && s.keycodes@
                    == context.desired.keycodes@ && s.encoder_keycodes@
                    == context.desired.encoder_keycodes@
            } else {
                undo is None
            },
        },
{
    match context.undo_behavior {
        LayerUndoBehavior::RecordOld => if touched {
            Some((context.old.duplicate(), true))
        } else {
            None
        },
        LayerUndoBehavior::RetryDesired { requires_firmware } => if failed {
            Some((context.desired.duplicate(), requires_firmware))
        } else {
            None
        },
    }
}

/// What the application must keep if a layer-write worker vanishes.
#[derive(Debug)]
pub struct LayerWriteFallback {
    pub layer: usize,
    pub desired: LayerSnapshot,
    pub action: &'static str,
    pub undo_behavior: LayerUndoBehavior,
}

/// A layer write for a background worker to perform with the keyboard's HID handle.
#[derive(Debug)]
pub struct LayerWriteJob {
    pub key_changes: Vec<KeyChange>,
    pub encoder_changes: Vec<EncoderChange>,
    pub context: LayerWriteContext,
    pub fallback: LayerWriteFallback,
}

/// What a layer-write worker hands back.
#[derive(Debug)]
pub struct LayerWriteResult {
    /// Whether the worker still holds a working HID handle.
    pub hid_returned: bool,
    pub context: LayerWriteContext,
    pub progress: LayerWriteProgress,
}

/// A layer write running on a background worker: the channel of its report, and what to
/// keep if the worker ends without one.
pub struct LayerWriteTask {
    pub receiver: Receiver<LayerWriteResult>,
    pub fallback: LayerWriteFallback,
}

/// The keys among the first `n` whose desired keycode differs from the old one.
pub open spec fn changed_keys(layout: KeyboardLayout, old: Seq<u16>, desired: Seq<u16>, n: int) -> Seq<
    KeyChange,
>
    decreases n,
{
    if n <= 0 {
        seq![]
    } else {
        let i = n - 1;
        changed_keys(layout, old, desired, i) + if (i >= old.len() || old[i] != desired[i]) && i
            < layout.keys@.len() {
            seq![(i as usize, layout.keys@[i].row, layout.keys@[i].col, desired[i])]
        } else {
            seq![]
        }
    }
}

/// The encoder slots among the first `n` whose desired keycode differs from the old one.
pub open spec fn changed_encoders(
    layout: KeyboardLayout,
    old: Seq<u16>,
    desired: Seq<u16>,
    n: int,
) -> Seq<EncoderChange>
    decreases n,
{
    if n <= 0 {
        seq![]
    } else {
        let i = n - 1;
        changed_encoders(layout, old, desired, i) + if (i >= old.len() || old[i] != desired[i]) && i
            < layout.encoders@.len() {
            seq![
                (
                    i as usize,
                    layout.encoders@[i].encoder_idx,
                    layout.encoders@[i].direction,
                    desired[i],
                ),
            ]
        } else {
            seq![]
        }
    }
}

proof fn lemma_changed_keys_len(layout: KeyboardLayout, old: Seq<u16>, desired: Seq<u16>, n: int)
    requires
        0 <= n,
    ensures
        changed_keys(layout, old, desired, n).len() <= n,
    decreases n,
{
    if n > 0 {
        lemma_changed_keys_len(layout, old, desired, n - 1);
    }
}

proof fn lemma_changed_encoders_len(layout: KeyboardLayout, old: Seq<u16>, desired: Seq<u16>, n: int)
    requires
        0 <= n,
    ensures
        changed_encoders(layout, old, desired, n).len() <= n,
    decreases n,
{
    if n > 0 {
        lemma_changed_encoders_len(layout, old, desired, n - 1);
    }
}

/// Every key of the layout among the first `n` whose keycode changes is written: some key
/// change names it.
pub proof fn lemma_changed_key_listed(layout: KeyboardLayout, old: Seq<u16>, desired: Seq<u16>, n: int, m: int) -> (j: int)
    requires
        0 <= m < n <= desired.len(),
        n <= usize::MAX,
        m < layout.keys@.len(),
        m >= old.len() || old[m] != desired[m],
    ensures
        0 <= j < changed_keys(layout, old, desired, n).len(),
        changed_keys(layout, old, desired, n)[j].0 == m,
    decreases n,
{
    let prev = changed_keys(layout, old, desired, n - 1);
    let i = n - 1;
    if m == n - 1 {
        assert(changed_keys(layout, old, desired, n) =~= prev.push((i as usize, layout.keys@[i].row, layout.keys@[i].col, desired[i])));
        prev.len() as int
    } else {
        let j = lemma_changed_key_listed(layout, old, desired, n - 1, m);
        let cur = changed_keys(layout, old, desired, n);
        if (i >= old.len() || old[i] != desired[i]) && i < layout.keys@.len() {
            assert(cur =~= prev.push((i as usize, layout.keys@[i].row, layout.keys@[i].col, desired[i])));
        } else {
            assert(cur =~= prev);
        }
        assert(cur[j] == prev[j]);
        j
    }
}

/// The key writes of a layer write address their keys: each change `(i, row, col, kc)`
/// writes the desired keycode `kc` of key `i` at that key's own matrix row and column, for a
/// key whose keycode changes; the changes come in key order.
pub proof fn lemma_key_changes_address_their_keys(
    layout: KeyboardLayout,
    old: Seq<u16>,
    desired: Seq<u16>,
    n: int,
)
    requires
        0 <= n <= desired.len(),
        n <= usize::MAX,
    ensures
        forall|j: int|
            0 <= j < changed_keys(layout, old, desired, n).len() ==> {
                let c = #[trigger] changed_keys(layout, old, desired, n)[j];
                let i = c.0 as int;
                &&& i < n
                &&& i < layout.keys@.len()
                &&& c.1 == layout.keys@[i].row
                &&& c.2 == layout.keys@[i].col
                &&& c.3 == desired[i]
                &&& (i >= old.len() || old[i] != desired[i])
            },
        forall|j: int, k: int|
            0 <= j < k < changed_keys(layout, old, desired, n).len() ==> changed_keys(
                layout,
                old,
                desired,
                n,
            )[j].0 < changed_keys(layout, old, desired, n)[k].0,
    decreases n,
{
    if n > 0 {
        lemma_key_changes_address_their_keys(layout, old, desired, n - 1);
        let prev = changed_keys(layout, old, desired, n - 1);
        let cur = changed_keys(layout, old, desired, n);
        let i = n - 1;
        if (i >= old.len() || old[i] != desired[i]) && i < layout.keys@.len() {
            assert(cur =~= prev.push((i as usize, layout.keys@[i].row, layout.keys@[i].col, desired[i])));
            assert(cur[prev.len() as int].0 == i);
            assert(cur.len() == prev.len() + 1);
        } else {
            assert(cur =~= prev);
        }
        assert(forall|k: int| 0 <= k < prev.len() ==> cur[k] == prev[k]);
    }
}

/// Every encoder slot among the first `n` whose keycode changes is written: some encoder
/// change names it.
pub proof fn lemma_changed_encoder_listed(layout: KeyboardLayout, old: Seq<u16>, desired: Seq<u16>, n: int, m: int) -> (j: int)
    requires
        0 <= m < n <= desired.len(),
        n <= usize::MAX,
        m < layout.encoders@.len(),
        m >= old.len() || old[m] != desired[m],
    ensures
        0 <= j < changed_encoders(layout, old, desired, n).len(),
        changed_encoders(layout, old, desired, n)[j].0 == m,
    decreases n,
{
    let prev = changed_encoders(layout, old, desired, n - 1);
    let i = n - 1;
    if m == n - 1 {
        assert(changed_encoders(layout, old, desired, n) =~= prev.push((i as usize, layout.encoders@[i].encoder_idx, layout.encoders@[i].direction, desired[i])));
        prev.len() as int
    } else {
        let j = lemma_changed_encoder_listed(layout, old, desired, n - 1, m);
        let cur = changed_encoders(layout, old, desired, n);
        if (i >= old.len() || old[i] != desired[i]) && i < layout.encoders@.len() {
            assert(cur =~= prev.push((i as usize, layout.encoders@[i].encoder_idx, layout.encoders@[i].direction, desired[i])));
        } else {
            assert(cur =~= prev);
        }
        assert(cur[j] == prev[j]);
        j
    }
}

/// The encoder writes of a layer write address their slots: each change
/// `(i, encoder, direction, kc)` writes the desired keycode `kc` of slot `i` to that slot's
/// own encoder number and direction, for a slot whose keycode changes; the changes come in
/// slot order.
pub proof fn lemma_encoder_changes_address_their_slots(
    layout: KeyboardLayout,
    old: Seq<u16>,
    desired: Seq<u16>,
    n: int,
)
    requires
        0 <= n <= desired.len(),
        n <= usize::MAX,
    ensures
        forall|j: int|
            0 <= j < changed_encoders(layout, old, desired, n).len() ==> {
                let c = #[trigger] changed_encoders(layout, old, desired, n)[j];
                let i = c.0 as int;
                &&& i < n
                &&& i < layout.encoders@.len()
                &&& c.1 == layout.encoders@[i].encoder_idx
                &&& c.2 == layout.encoders@[i].direction
                &&& c.3 == desired[i]
                &&& (i >= old.len() || old[i] != desired[i])
            },
        forall|j: int, k: int|
            0 <= j < k < changed_encoders(layout, old, desired, n).len() ==> changed_encoders(
                layout,
                old,
                desired,
                n,
            )[j].0 < changed_encoders(layout, old, desired, n)[k].0,
    decreases n,
{
    if n > 0 {
        lemma_encoder_changes_address_their_slots(layout, old, desired, n - 1);
        let prev = changed_encoders(layout, old, desired, n - 1);
        let cur = changed_encoders(layout, old, desired, n);
        let i = n - 1;
        if (i >= old.len() || old[i] != desired[i]) && i < layout.encoders@.len() {
            assert(cur =~= prev.push(
                (i as usize, layout.encoders@[i].encoder_idx, layout.encoders@[i].direction, desired[i]),
            ));
            assert(cur[prev.len() as int].0 == i);
            assert(cur.len() == prev.len() + 1);
        } else {
            assert(cur =~= prev);
        }
        assert(forall|k: int| 0 <= k < prev.len() ==> cur[k] == prev[k]);
    }
}

fn collect_changed_keys(layout: &KeyboardLayout, old: &Vec<u16>, desired: &Vec<u16>) -> (changes:
    Vec<KeyChange>)
    ensures
        changes@ == changed_keys(*layout, old@, desired@, desired@.len() as int),
{
    let mut changes: Vec<KeyChange> = Vec::new();
    let mut i: usize = 0;
    while i < desired.len()
        invariant
            i <= desired@.len(),
            changes@ == changed_keys(*layout, old@, desired@, i as int),
        decreases desired@.len() - i,
    {
        let keycode = desired[i];
        if (i >= old.len() || old[i] != keycode) && i < layout.keys.len() {
            let key = layout.keys[i];
            changes.push((i, key.row, key.col, keycode));
        }
        i = i + 1;
        assert(changes@ =~= changed_keys(*layout, old@, desired@, i as int));
    }
    changes
}

fn collect_changed_encoders(layout: &KeyboardLayout, old: &Vec<u16>, desired: &Vec<u16>) -> (changes:
    Vec<EncoderChange>)
    ensures
        changes@ == changed_encoders(*layout, old@, desired@, desired@.len() as int),
{
    let mut changes: Vec<EncoderChange> = Vec::new();
    let mut i: usize = 0;
    while i < desired.len()
        invariant
            i <= desired@.len(),
            changes@ == changed_encoders(*layout, old@, desired@, i as int),
        decreases desired@.len() - i,
    {
        let keycode = desired[i];
        if (i >= old.len() || old[i] != keycode) && i < layout.encoders.len() {
            let encoder = layout.encoders[i];
            changes.push((i, encoder.encoder_idx, encoder.direction, keycode));
        }
        i = i + 1;
        assert(changes@ =~= changed_encoders(*layout, old@, desired@, i as int));
    }
    changes
}

/// The index and keycode of every change.
pub open spec fn updates_of(changes: Seq<(usize, u8, u8, u16)>) -> Seq<(usize, u16)> {
    change_updates(changes, changes.len() as int)
}

fn updates_from_changes(changes: &Vec<(usize, u8, u8, u16)>) -> (updates: Vec<(usize, u16)>)
    ensures
        updates@ == updates_of(changes@),
{
    let mut updates: Vec<(usize, u16)> = Vec::new();
    let mut i: usize = 0;
    while i < changes.len()
        invariant
            i <= changes@.len(),
            updates@ == change_updates(changes@, i as int),
        decreases changes@.len() - i,
    {
        let (idx, _, _, keycode) = changes[i];
        updates.push((idx, keycode));
        i = i + 1;
        assert(updates@ =~= change_updates(changes@, i as int));
    }
    updates
}

} // verus!

verus! {

/// The placeholder values of the status message for a layer-operation error.
pub open spec fn layer_error_args(error: LayerOperationError) -> Seq<(&'static str, StatusArg)> {
    match error {
        LayerOperationError::KeyCountMismatch { source, target } => seq![
            ("source", StatusArg::Number(source)),
            ("target", StatusArg::Number(target)),
        ],
        _ => seq![],
    }
}

/// Whether `msg` is the status message for `error`.
pub open spec fn is_layer_error_status(msg: StatusMessage, error: LayerOperationError) -> bool {
    msg.is_catalog(layer_error_key(error), layer_error_args(error))
}

/// The message-catalog key for a layer-operation error.
pub open spec fn layer_error_key(error: LayerOperationError) -> &'static str {
    match error {
        LayerOperationError::KeyCountMismatch { .. } => "layer_actions.key_count_mismatch",
        LayerOperationError::UnevenKeyCount { .. } | LayerOperationError::UnbalancedGeometry => "layer_actions.mirror_unavailable",
        LayerOperationError::IncompatibleGeometry => "layer_actions.paste_geometry_mismatch",
        LayerOperationError::MissingLayer => "layer_actions.no_connected_layer",
    }
}

} // verus!

verus! {

impl EntropyApp {
    /// The status message for a layer-operation error.
    pub fn layer_operation_error_message(&self, error: LayerOperationError) -> (msg: StatusMessage)
        ensures
            is_layer_error_status(msg, error),
    {
        match error {
            LayerOperationError::KeyCountMismatch { source, target } => {
                let mut args: Vec<(&'static str, StatusArg)> = Vec::new();
                args.push(("source", StatusArg::Number(source)));
                args.push(("target", StatusArg::Number(target)));
                assert(args@ =~= layer_error_args(error));
                StatusMessage::Catalog { key: "layer_actions.key_count_mismatch", args }
            },
            LayerOperationError::UnevenKeyCount { .. } => {
                StatusMessage::plain("layer_actions.mirror_unavailable")
            },
            LayerOperationError::UnbalancedGeometry => {
                StatusMessage::plain("layer_actions.mirror_unavailable")
            },
            LayerOperationError::IncompatibleGeometry => StatusMessage::plain(
                "layer_actions.paste_geometry_mismatch",
            ),
            LayerOperationError::MissingLayer => StatusMessage::plain(
                "layer_actions.no_connected_layer",
            ),
        }
    }

    /// Shows the status message for a layer-operation error.
    pub fn report_layer_operation_error(&mut self, error: LayerOperationError)
        ensures
            is_layer_error_status(final(self).status_msg, error),
            *final(self) == (EntropyApp { status_msg: final(self).status_msg, ..*old(self) }),
    {
        self.status_msg = self.layer_operation_error_message(error);
    }
}

} // verus!

verus! {

/// The layer table with row `layer` overwritten by `values` where both have a cell.
pub open spec fn overwrite_row(table: Seq<Seq<u16>>, layer: int, values: Seq<u16>) -> Seq<Seq<u16>> {
    if 0 <= layer < table.len() {
        table.update(
            layer,
            Seq::new(
                table[layer].len(),
                |i: int| if i < values.len() {
                    values[i]
                } else {
                    table[layer][i]
                },
            ),
        )
    } else {
        table
    }
}

/// How many of the first `n` positions differ between `a` and `b`.
pub open spec fn count_differences(a: Seq<u16>, b: Seq<u16>, n: int) -> nat
    decreases n,
{
    if n <= 0 {
        0
    } else {
        count_differences(a, b, n - 1) + if a[n - 1] != b[n - 1] {
            1nat
        } else {
            0nat
        }
    }
}

/// How many positions of the common length differ between `a` and `b`.
pub open spec fn differences(a: Seq<u16>, b: Seq<u16>) -> nat {
    count_differences(a, b, if a.len() <= b.len() { a.len() as int } else { b.len() as int })
}

proof fn lemma_count_differences_le(a: Seq<u16>, b: Seq<u16>, n: int)
    requires
        0 <= n,
    ensures
        count_differences(a, b, n) <= n,
    decreases n,
{
    if n > 0 {
        lemma_count_differences_le(a, b, n - 1);
    }
}

fn count_changed(a: &Vec<u16>, b: &Vec<u16>) -> (count: usize)
    ensures
        count == differences(a@, b@),
{
    let n = if a.len() <= b.len() {
        a.len()
    } else {
        b.len()
    };
    let mut count: usize = 0;
    let mut i: usize = 0;
    while i < n
        invariant
            i <= n,
            n <= a@.len(),
            n <= b@.len(),
            n == (if a@.len() <= b@.len() { a@.len() } else { b@.len() }),
            count == count_differences(a@, b@, i as int),
        decreases n - i,
    {
        proof {
            lemma_count_differences_le(a@, b@, i as int);
        }
        if a[i] != b[i] {
            count = count + 1;
        }
        i = i + 1;
    }
    count
}

proof fn lemma_overwrite_nothing(table: Seq<Seq<u16>>, layer: int, values: Seq<u16>)
    requires
        values.len() == 0,
    ensures
        overwrite_row(table, layer, values) == table,
{
    if 0 <= layer < table.len() {
        assert(overwrite_row(table, layer, values)[layer] =~= table[layer]);
    }
    assert(overwrite_row(table, layer, values) =~= table);
}

proof fn lemma_overwrite_step(table: Seq<Seq<u16>>, layer: int, values: Seq<u16>, i: int)
    requires
        0 <= i < values.len(),
    ensures
        table_set(overwrite_row(table, layer, values.take(i)), layer, i, values[i]) == overwrite_row(
            table,
            layer,
            values.take(i + 1),
        ),
{
    let before = overwrite_row(table, layer, values.take(i));
    let after = overwrite_row(table, layer, values.take(i + 1));
    if 0 <= layer < table.len() {
        if i < table[layer].len() {
            assert(before[layer].update(i, values[i]) =~= after[layer]);
            assert(table_set(before, layer, i, values[i]) =~= after);
        } else {
            assert(before[layer] =~= after[layer]);
            assert(before =~= after);
        }
    } else {
    }
}

/// Overwrites row `layer` of the keys with `values`.
fn overwrite_layer_keys(layout: &mut KeyboardLayout, layer: usize, values: &Vec<u16>)
    ensures
        final(layout).layer_table() == overwrite_row(old(layout).layer_table(), layer as int, values@),
        final(layout).encoder_layers == old(layout).encoder_layers,
        final(layout).keys == old(layout).keys,
        final(layout).encoders == old(layout).encoders,
        final(layout).rows == old(layout).rows,
        final(layout).cols == old(layout).cols,
{
    let ghost table0 = layout.layer_table();
    proof {
        lemma_overwrite_nothing(table0, layer as int, values@.take(0));
    }
    let mut i: usize = 0;
    while i < values.len()
        invariant
            i <= values@.len(),
            layout.layer_table() == overwrite_row(table0, layer as int, values@.take(i as int)),
            layout.encoder_layers == old(layout).encoder_layers,
            layout.keys == old(layout).keys,
            layout.encoders == old(layout).encoders,
            layout.rows == old(layout).rows,
            layout.cols == old(layout).cols,
        decreases values@.len() - i,
    {
        let ghost before = layout.layer_table();
        layout.set_keycode(layer, i, values[i]);
        proof {
            lemma_overwrite_step(table0, layer as int, values@, i as int);
        }
        i = i + 1;
    }
    assert(values@.take(values@.len() as int) =~= values@);
}

/// Overwrites row `layer` of the encoders with `values`.
fn overwrite_layer_encoders(layout: &mut KeyboardLayout, layer: usize, values: &Vec<u16>)
    ensures
        final(layout).encoder_table() == overwrite_row(
            old(layout).encoder_table(),
            layer as int,
            values@,
        ),
        final(layout).layers == old(layout).layers,
        final(layout).keys == old(layout).keys,
        final(layout).encoders == old(layout).encoders,
        final(layout).rows == old(layout).rows,
        final(layout).cols == old(layout).cols,
{
    let ghost table0 = layout.encoder_table();
    proof {
        lemma_overwrite_nothing(table0, layer as int, values@.take(0));
    }
    let mut i: usize = 0;
    while i < values.len()
        invariant
            i <= values@.len(),
            layout.encoder_table() == overwrite_row(table0, layer as int, values@.take(i as int)),
            layout.layers == old(layout).layers,
            layout.keys == old(layout).keys,
            layout.encoders == old(layout).encoders,
            layout.rows == old(layout).rows,
            layout.cols == old(layout).cols,
        decreases values@.len() - i,
    {
        layout.set_encoder_keycode(layer, i, values[i]);
        proof {
            lemma_overwrite_step(table0, layer as int, values@, i as int);
        }
        i = i + 1;
    }
    assert(values@.take(values@.len() as int) =~= values@);
}

} // verus!

verus! {

/// The status after changing `count` keys and encoders of `layer` only in memory.
pub open spec fn local_only_status(action: &'static str, layer: usize, count: usize) -> Seq<(&'static str, StatusArg)> {
    seq![
        ("action", StatusArg::Catalog(action)),
        ("layer", StatusArg::Number(layer)),
        ("count", StatusArg::Number(count)),
    ]
}

fn action_status_args(action: &'static str, layer: usize, count: usize) -> (args: Vec<(&'static str, StatusArg)>)
    ensures
        args@ == local_only_status(action, layer, count),
{
    let mut args: Vec<(&'static str, StatusArg)> = Vec::new();
    args.push(("action", StatusArg::Catalog(action)));
    args.push(("layer", StatusArg::Number(layer)));
    args.push(("count", StatusArg::Number(count)));
    assert(args@ =~= local_only_status(action, layer, count));
    args
}

fn layer_status_args(layer: usize) -> (args: Vec<(&'static str, StatusArg)>)
    ensures
        args@ == seq![("layer", StatusArg::Number(layer))],
{
    let mut args: Vec<(&'static str, StatusArg)> = Vec::new();
    args.push(("layer", StatusArg::Number(layer)));
    assert(args@ =~= seq![("layer", StatusArg::Number(layer))]);
    args
}

impl EntropyApp {
    /// Replaces `layer` with `desired` in memory only and records the old layer for undo.
    /// A missing layer or a different key count is reported instead; when nothing differs
    /// the status says so and nothing changes.
    pub fn apply_layer_snapshot_locally(
        &mut self,
        layer: usize,
        desired: LayerSnapshot,
        action_key: &'static str,
    )
        requires
            desired.keycodes@.len() + desired.encoder_keycodes@.len() <= usize::MAX,
        ensures
            match old(self).layout {
                None => is_layer_error_status(final(self).status_msg, LayerOperationError::MissingLayer)
                    && *final(self) == (EntropyApp { status_msg: final(self).status_msg, ..*old(self) }),
                Some(layout) => if layer >= layout.layers@.len() {
                    is_layer_error_status(final(self).status_msg, LayerOperationError::MissingLayer)
                        && *final(self) == (EntropyApp {
                        status_msg: final(self).status_msg,
                        ..*old(self)
                    })
                } else if desired.keycodes@.len() != layout.keys@.len() {
                    is_layer_error_status(
                        final(self).status_msg,
                        LayerOperationError::KeyCountMismatch {
                            source: desired.keycodes@.len() as usize,
                            target: layout.keys@.len() as usize,
                        },
                    ) && *final(self) == (EntropyApp {
                        status_msg: final(self).status_msg,
                        ..*old(self)
                    })
                } else {
                    let changed = differences(desired.keycodes@, layer_keycodes(layout, layer as int))
                        + differences(
                        desired.encoder_keycodes@,
                        layer_encoder_keycodes(layout, layer as int),
                    );
                    if changed == 0 {
                        final(self).status_msg.is_catalog(
                            "layer_actions.no_changes",
                            seq![("layer", StatusArg::Number(layer))],
                        ) && *final(self) == (EntropyApp {
                            status_msg: final(self).status_msg,
                            ..*old(self)
                        })
                    } else {
                        &&& final(self).layout matches Some(new_layout)
                            && new_layout.layer_table() == overwrite_row(
                            layout.layer_table(),
                            layer as int,
                            desired.keycodes@,
                        ) && new_layout.encoder_table() == overwrite_row(
                            layout.encoder_table(),
                            layer as int,
                            desired.encoder_keycodes@,
                        ) && new_layout.keys == layout.keys && new_layout.encoders
                            == layout.encoders && new_layout.rows == layout.rows
                            && new_layout.cols == layout.cols
                        &&& final(self).undo_stack@.len() == old(self).undo_stack@.len() + 1
                        &&& final(self).undo_stack@.take(old(self).undo_stack@.len() as int)
                            == old(self).undo_stack@
                        &&& final(self).undo_stack@.last() matches UndoAction::Layer {
                            layer: l,
                            old: s,
                            requires_firmware: false,
                        } && l == layer && is_capture_of(s, layout, layer as int)
                        &&& final(self).status_msg.is_catalog(
                            "layer_actions.local_only_status",
                            local_only_status(action_key, layer, changed as usize),
                        )
                        &&& *final(self) == (EntropyApp {
                            layout: final(self).layout,
                            undo_stack: final(self).undo_stack,
                            status_msg: final(self).status_msg,
                            ..*old(self)
                        })
                    }
                }
            },
    {
        let captured = match &self.layout {
            Some(layout) => capture_layer(layout, layer),
            None => None,
        };
        let previous = match captured {
            Some(snapshot) => snapshot,
            None => {
                self.report_layer_operation_error(LayerOperationError::MissingLayer);
                return;
            },
        };
        if desired.keycodes.len() != previous.keycodes.len() {
            self.report_layer_operation_error(
                LayerOperationError::KeyCountMismatch {
                    source: desired.keycodes.len(),
                    target: previous.keycodes.len(),
                },
            );
            return;
        }
        let changed_keys = count_changed(&desired.keycodes, &previous.keycodes);
        let changed_encoders = count_changed(&desired.encoder_keycodes, &previous.encoder_keycodes);
        proof {
            lemma_count_differences_le(desired.keycodes@, previous.keycodes@, desired.keycodes@.len() as int);
            lemma_count_differences_le(
                desired.encoder_keycodes@,
                previous.encoder_keycodes@,
                if desired.encoder_keycodes@.len() <= previous.encoder_keycodes@.len() {
                    desired.encoder_keycodes@.len() as int
                } else {
                    previous.encoder_keycodes@.len() as int
                },
            );
        }
        let changed = changed_keys + changed_encoders;
        if changed == 0 {
            self.status_msg = StatusMessage::Catalog {
                key: "layer_actions.no_changes",
                args: layer_status_args(layer),
            };
            return;
        }
        if let Some(layout) = &mut self.layout {
            overwrite_layer_keys(layout, layer, &desired.keycodes);
            overwrite_layer_encoders(layout, layer, &desired.encoder_keycodes);
        }
        self.undo_stack.push(UndoAction::Layer { layer, old: previous, requires_firmware: false });
        proof {
            assert(self.undo_stack@.take(old(self).undo_stack@.len() as int) =~= old(
                self,
            ).undo_stack@);
        }
        self.status_msg = StatusMessage::Catalog {
            key: "layer_actions.local_only_status",
            args: action_status_args(action_key, layer, changed),
        };
    }
}

} // verus!

verus! {

/// The effect of starting to replace `layer` with `desired` (see
/// `EntropyApp::apply_layer_snapshot_with_behavior`), from `old_app` to `new_app`.
pub open spec fn starts_layer_write(
    old_app: EntropyApp,
    new_app: EntropyApp,
    job: Option<LayerWriteJob>,
    layer: usize,
    desired: LayerSnapshot,
    action_key: &'static str,
    undo_behavior: LayerUndoBehavior,
) -> bool {
    &&& (old_app.hid_write_busy ==> job is None && match undo_behavior {
                LayerUndoBehavior::RetryDesired { requires_firmware } => new_app.undo_stack@
                    == old_app.undo_stack@.push(
                    UndoAction::Layer { layer, old: desired, requires_firmware },
                ) && new_app == (EntropyApp { undo_stack: new_app.undo_stack, ..old_app }),
                LayerUndoBehavior::RecordOld => new_app == old_app,
            })
    &&& (!old_app.hid_write_busy ==> match old_app.layout {
                None => job is None && is_layer_error_status(
                    new_app.status_msg,
                    LayerOperationError::MissingLayer,
                ) && new_app == (EntropyApp { status_msg: new_app.status_msg, ..old_app }),
                Some(layout) => if layer >= layout.layers@.len() {
                    job is None && is_layer_error_status(
                        new_app.status_msg,
                        LayerOperationError::MissingLayer,
                    ) && new_app == (EntropyApp {
                        status_msg: new_app.status_msg,
                        ..old_app
                    })
                } else if desired.keycodes@.len() != layout.keys@.len() {
                    job is None && is_layer_error_status(
                        new_app.status_msg,
                        LayerOperationError::KeyCountMismatch {
                            source: desired.keycodes@.len() as usize,
                            target: layout.keys@.len() as usize,
                        },
                    ) && new_app == (EntropyApp {
                        status_msg: new_app.status_msg,
                        ..old_app
                    })
                } else {
                    let key_changes = changed_keys(
                        layout,
                        layer_keycodes(layout, layer as int),
                        desired.keycodes@,
                        desired.keycodes@.len() as int,
                    );
                    let encoder_changes = changed_encoders(
                        layout,
                        layer_encoder_keycodes(layout, layer as int),
                        desired.encoder_keycodes@,
                        desired.encoder_keycodes@.len() as int,
                    );
                    let total = key_changes.len() + encoder_changes.len();
                    if total == 0 {
                        job is None && new_app.status_msg.is_catalog(
                            "layer_actions.no_changes",
                            seq![("layer", StatusArg::Number(layer))],
                        ) && new_app == (EntropyApp {
                            status_msg: new_app.status_msg,
                            ..old_app
                        })
                    } else if undo_behavior == (LayerUndoBehavior::RetryDesired {
                        requires_firmware: true,
                    }) && !old_app.hid_connected {
                        job is None && new_app.undo_stack@ == old_app.undo_stack@.push(
                            UndoAction::Layer { layer, old: desired, requires_firmware: true },
                        ) && new_app.status_msg.is_plain(
                            "layer_actions.undo_requires_connection",
                        ) && new_app == (EntropyApp {
                            undo_stack: new_app.undo_stack,
                            status_msg: new_app.status_msg,
                            ..old_app
                        })
                    } else if !old_app.hid_connected {
                        &&& job is None
                        &&& new_app.layout matches Some(new_layout)
                            && new_layout.layer_table() == apply_updates(
                            layout.layer_table(),
                            layer as int,
                            updates_of(key_changes),
                        ) && new_layout.encoder_table() == apply_updates(
                            layout.encoder_table(),
                            layer as int,
                            updates_of(encoder_changes),
                        ) && new_layout.keys == layout.keys && new_layout.encoders
                            == layout.encoders && new_layout.rows == layout.rows
                            && new_layout.cols == layout.cols
                        &&& if undo_behavior == LayerUndoBehavior::RecordOld {
                            &&& new_app.undo_stack@.len() == old_app.undo_stack@.len() + 1
                            &&& new_app.undo_stack@.take(old_app.undo_stack@.len() as int)
                                == old_app.undo_stack@
                            &&& new_app.undo_stack@.last() matches UndoAction::Layer {
                                layer: l,
                                old: s,
                                requires_firmware: false,
                            } && l == layer && is_capture_of(s, layout, layer as int)
                        } else {
                            new_app.undo_stack == old_app.undo_stack
                        }
                        &&& new_app.layer_picker_flags_dirty
                        &&& new_app.status_msg.is_catalog(
                            "layer_actions.local_only_status",
                            local_only_status(action_key, layer, total as usize),
                        )
                        &&& new_app.pending_middle_click_assignments@
                            == old_app.pending_middle_click_assignments@.filter(not_layer(layer))
                        &&& new_app == (EntropyApp {
                            layout: new_app.layout,
                            undo_stack: new_app.undo_stack,
                            status_msg: new_app.status_msg,
                            layer_picker_flags_dirty: true,
                            pending_middle_click_assignments: new_app.pending_middle_click_assignments,
                            ..old_app
                        })
                    } else {
                        &&& job matches Some(job) && job.key_changes@ == key_changes
                            && job.encoder_changes@ == encoder_changes && job.context.layer
                            == layer && is_capture_of(job.context.old, layout, layer as int)
                            && job.context.desired == desired && job.context.action == action_key
                            && job.context.total == total && job.context.undo_behavior
                            == undo_behavior && job.fallback.layer == layer
                            && job.fallback.desired.keycodes@ == desired.keycodes@
                            && job.fallback.desired.encoder_keycodes@ == desired.encoder_keycodes@
                            && job.fallback.action == action_key && job.fallback.undo_behavior
                            == undo_behavior
                        &&& new_app.status_msg.is_catalog(
                            "layer_actions.saving_status",
                            local_only_status(action_key, layer, total as usize),
                        )
                        &&& new_app.pending_middle_click_assignments@
                            == old_app.pending_middle_click_assignments@.filter(not_layer(layer))
                        &&& new_app == (EntropyApp {
                            hid_connected: false,
                            status_msg: new_app.status_msg,
                            pending_middle_click_assignments: new_app.pending_middle_click_assignments,
                            ..old_app
                        })
                    }
                }
            })
}

impl EntropyApp {
    /// Starts replacing `layer` with `desired`.
    ///
    /// While another keyboard write runs nothing is written, but a failed undo stays
    /// available. A missing layer or a different key count is reported; when nothing differs
    /// the status says so. An undo that needs the keyboard while it is disconnected stays
    /// available. Without a keyboard the changes are made in memory only (a normal edit
    /// records the old layer for undo). Otherwise the keyboard's handle goes to the returned
    /// job, which writes exactly the keys and encoder slots whose keycodes change. Either
    /// way, the layer write supersedes the middle-click assignments queued for that layer.
    pub fn apply_layer_snapshot_with_behavior(
        &mut self,
        layer: usize,
        desired: LayerSnapshot,
        action_key: &'static str,
        undo_behavior: LayerUndoBehavior,
    ) -> (job: Option<LayerWriteJob>)
        requires
            desired.keycodes@.len() + desired.encoder_keycodes@.len() <= usize::MAX,
        ensures
            starts_layer_write(
                *old(self),
                *final(self),
                job,
                layer,
                desired,
                action_key,
                undo_behavior,
            ),
    {
        if self.hid_write_busy {
            if let LayerUndoBehavior::RetryDesired { requires_firmware } = undo_behavior {
                self.undo_stack.push(UndoAction::Layer { layer, old: desired, requires_firmware });
            }
            return None;
        }
        let captured = match &self.layout {
            Some(layout) => capture_layer(layout, layer),
            None => None,
        };
        let previous = match captured {
            Some(snapshot) => snapshot,
            None => {
                self.report_layer_operation_error(LayerOperationError::MissingLayer);
                return None;
            },
        };
        if desired.keycodes.len() != previous.keycodes.len() {
            self.report_layer_operation_error(
                LayerOperationError::KeyCountMismatch {
                    source: desired.keycodes.len(),
                    target: previous.keycodes.len(),
                },
            );
            return None;
        }
        let (key_changes, encoder_changes) = match &self.layout {
            Some(layout) => (
                collect_changed_keys(layout, &previous.keycodes, &desired.keycodes),
                collect_changed_encoders(
                    layout,
                    &previous.encoder_keycodes,
                    &desired.encoder_keycodes,
                ),
            ),
            None => (Vec::new(), Vec::new()),
        };
        proof {
            lemma_changed_keys_len(
                self.layout->0,
                previous.keycodes@,
                desired.keycodes@,
                desired.keycodes@.len() as int,
            );
            lemma_changed_encoders_len(
                self.layout->0,
                previous.encoder_keycodes@,
                desired.encoder_keycodes@,
                desired.encoder_keycodes@.len() as int,
            );
        }
        let total = key_changes.len() + encoder_changes.len();
        if total == 0 {
            self.status_msg = StatusMessage::Catalog {
                key: "layer_actions.no_changes",
                args: layer_status_args(layer),
            };
            return None;
        }
        if matches!(undo_behavior, LayerUndoBehavior::RetryDesired { requires_firmware: true })
            && !self.hid_connected {
            self.undo_stack.push(
                UndoAction::Layer { layer, old: desired, requires_firmware: true },
            );
            self.status_msg = StatusMessage::plain("layer_actions.undo_requires_connection");
            return None;
        }
        self.drop_queued_middle_click_assignments_for_layer(layer);
        if !self.hid_connected {
            let key_updates = updates_from_changes(&key_changes);
            let encoder_updates = updates_from_changes(&encoder_changes);
            if let Some(layout) = &mut self.layout {
                apply_layer_updates(layout, layer, key_updates.as_slice(), encoder_updates.as_slice());
            }
            if matches!(undo_behavior, LayerUndoBehavior::RecordOld) {
                self.undo_stack.push(UndoAction::Layer { layer, old: previous, requires_firmware: false });
                proof {
                    assert(self.undo_stack@.take(old(self).undo_stack@.len() as int) =~= old(
                        self,
                    ).undo_stack@);
                }
            }
            self.layer_picker_flags_dirty = true;
            self.status_msg = StatusMessage::Catalog {
                key: "layer_actions.local_only_status",
                args: action_status_args(action_key, layer, total),
            };
            return None;
        }
        self.status_msg = StatusMessage::Catalog {
            key: "layer_actions.saving_status",
            args: action_status_args(action_key, layer, total),
        };
        let fallback = LayerWriteFallback {
            layer,
            desired: desired.duplicate(),
            action: action_key,
            undo_behavior,
        };
        let context = LayerWriteContext {
            layer,
            old: previous,
            desired,
            action: action_key,
            total,
            undo_behavior,
        };
        self.hid_connected = false;
        Some(LayerWriteJob { key_changes, encoder_changes, context, fallback })
    }
}

} // verus!

verus! {

/// Whether `new` is `old` with one more layer undo entry on top.
pub open spec fn pushed_layer_undo(
    new: Seq<UndoAction>,
    old: Seq<UndoAction>,
    layer: usize,
    keycodes: Seq<u16>,
    encoder_keycodes: Seq<u16>,
    requires_firmware: bool,
) -> bool {
    &&& new.len() == old.len() + 1
    &&& new.take(old.len() as int) == old
    &&& new.last() matches UndoAction::Layer { layer: l, old: s, requires_firmware: r }
    &&& l == layer
    &&& r == requires_firmware
    &&& s.keycodes@ == keycodes
    &&& s.encoder_keycodes@ == encoder_keycodes
}

/// The placeholders of the status after a layer write that stopped on an error.
pub open spec fn partial_status_args(
    action: &'static str,
    layer: usize,
    applied: usize,
    total: usize,
    error: String,
) -> Seq<(&'static str, StatusArg)> {
    seq![
        ("action", StatusArg::Catalog(action)),
        ("layer", StatusArg::Number(layer)),
        ("applied", StatusArg::Number(applied)),
        ("total", StatusArg::Number(total)),
        ("error", StatusArg::Text(error)),
    ]
}

/// What taking in a finished layer write leaves: see `finish_layer_write`.
pub open spec fn layer_write_finished(app: EntropyApp, old: EntropyApp, result: LayerWriteResult) -> bool {
    &&& (!result.hid_returned ==> {
        &&& app.pending_layer_write matches Some(w) && w.layer
            == result.context.layer && w.keycodes@ == result.context.desired.keycodes@
            && w.encoder_keycodes@ == result.context.desired.encoder_keycodes@
        &&& !app.hid_connected
        &&& app.hid_disconnect_pending
        &&& app.status_msg == StatusMessage::Literal("Layer write disconnected")
        &&& app == (EntropyApp {
            pending_layer_write: app.pending_layer_write,
            hid_connected: false,
            hid_disconnect_pending: true,
            status_msg: app.status_msg,
            ..old
        })
    })
    &&& (result.hid_returned ==> {
        let touched = result.progress.key_updates@.len() > 0
            || result.progress.encoder_updates@.len() > 0;
        let failed = result.progress.error is Some;
        &&& app.hid_connected
        &&& match old.layout {
            None => app.layout is None,
            Some(layout) => app.layout matches Some(new_layout)
                && new_layout.layer_table() == apply_updates(
                layout.layer_table(),
                result.context.layer as int,
                result.progress.key_updates@,
            ) && new_layout.encoder_table() == apply_updates(
                layout.encoder_table(),
                result.context.layer as int,
                result.progress.encoder_updates@,
            ) && new_layout.keys == layout.keys && new_layout.encoders == layout.encoders
                && new_layout.rows == layout.rows && new_layout.cols == layout.cols,
        }
        &&& match result.context.undo_behavior {
            LayerUndoBehavior::RecordOld => if touched {
                pushed_layer_undo(
                    app.undo_stack@,
                    old.undo_stack@,
                    result.context.layer,
                    result.context.old.keycodes@,
                    result.context.old.encoder_keycodes@,
                    true,
                )
            } else {
                app.undo_stack == old.undo_stack
            },
            LayerUndoBehavior::RetryDesired { requires_firmware } => if failed {
                pushed_layer_undo(
                    app.undo_stack@,
                    old.undo_stack@,
                    result.context.layer,
                    result.context.desired.keycodes@,
                    result.context.desired.encoder_keycodes@,
                    requires_firmware,
                )
            } else {
                app.undo_stack == old.undo_stack
            },
        }
        &&& app.layer_picker_flags_dirty == (old.layer_picker_flags_dirty
            || touched)
        &&& match result.progress.error {
            Some(error) => app.status_msg.is_catalog(
                "layer_actions.partial_status",
                partial_status_args(
                    result.context.action,
                    result.context.layer,
                    result.progress.written,
                    result.context.total,
                    error,
                ),
            ),
            None => app.status_msg.is_catalog(
                "layer_actions.saved_status",
                local_only_status(
                    result.context.action,
                    result.context.layer,
                    result.progress.written,
                ),
            ),
        }
        &&& app == (EntropyApp {
            hid_connected: true,
            layout: app.layout,
            undo_stack: app.undo_stack,
            layer_picker_flags_dirty: app.layer_picker_flags_dirty,
            status_msg: app.status_msg,
            ..old
        })
    })
}

impl EntropyApp {
    /// Takes in a finished layer write. If the worker lost the keyboard, the whole desired
    /// layer is kept for replay after reconnecting and the disconnect is handed on.
    /// Otherwise the keyboard handle is back, every confirmed key and encoder update is
    /// applied to the layout, the undo entry of `undo_after_layer_write` is recorded, and the
    /// status reports how many writes were confirmed (and the error, if one stopped it).
    pub fn finish_layer_write(&mut self, result: LayerWriteResult)
        ensures
            layer_write_finished(*final(self), *old(self), result),

    {
        if !result.hid_returned {
            self.pending_layer_write = Some(
                DeferredLayerWrite {
                    layer: result.context.layer,
                    keycodes: copy_keycodes(&result.context.desired.keycodes),
                    encoder_keycodes: copy_keycodes(&result.context.desired.encoder_keycodes),
                },
            );
            self.handoff_hid_worker_disconnect(StatusMessage::Literal("Layer write disconnected"));
            return;
        }
        self.hid_connected = true;
        if let Some(layout) = &mut self.layout {
            apply_layer_updates(
                layout,
                result.context.layer,
                result.progress.key_updates.as_slice(),
                result.progress.encoder_updates.as_slice(),
            );
        }
        let touched = !result.progress.key_updates.is_empty()
            || !result.progress.encoder_updates.is_empty();
        let failed = result.progress.error.is_some();
        if let Some((undo_layer, requires_firmware)) = undo_after_layer_write(
            &result.context,
            touched,
            failed,
        ) {
            self.undo_stack.push(
                UndoAction::Layer {
                    layer: result.context.layer,
                    old: undo_layer,
                    requires_firmware,
                },
            );
            proof {
                assert(self.undo_stack@.take(old(self).undo_stack@.len() as int) =~= old(
                    self,
                ).undo_stack@);
            }
        }
        if touched {
            self.layer_picker_flags_dirty = true;
        }
        let action = result.context.action;
        let layer = result.context.layer;
        let written = result.progress.written;
        match result.progress.error {
            Some(error) => {
                let mut args: Vec<(&'static str, StatusArg)> = Vec::new();
                args.push(("action", StatusArg::Catalog(action)));
                args.push(("layer", StatusArg::Number(layer)));
                args.push(("applied", StatusArg::Number(written)));
                args.push(("total", StatusArg::Number(result.context.total)));
                args.push(("error", StatusArg::Text(error)));
                proof {
                    assert(args@ =~= partial_status_args(
                        action,
                        layer,
                        written,
                        result.context.total,
                        result.progress.error->0,
                    ));
                }
                self.status_msg = StatusMessage::Catalog { key: "layer_actions.partial_status", args };
            },
            None => {
                self.status_msg = StatusMessage::Catalog {
                    key: "layer_actions.saved_status",
                    args: action_status_args(action, layer, written),
                };
            },
        }
    }
}

} // verus!

verus! {

impl EntropyApp {
    /// Starts replacing `layer` with `desired` as a normal edit (the old layer is recorded
    /// for undo).
    pub fn apply_layer_snapshot(&mut self, layer: usize, desired: LayerSnapshot, action_key: &'static str) -> (job:
        Option<LayerWriteJob>)
        requires
            desired.keycodes@.len() + desired.encoder_keycodes@.len() <= usize::MAX,
        ensures
            starts_layer_write(
                *old(self),
                *final(self),
                job,
                layer,
                desired,
                action_key,
                LayerUndoBehavior::RecordOld,
            ),
    {
        self.apply_layer_snapshot_with_behavior(layer, desired, action_key, LayerUndoBehavior::RecordOld)
    }

    /// Starts restoring `layer` to `desired` as an undo; if it fails the undo stays
    /// available.
    pub fn undo_layer_snapshot(&mut self, layer: usize, desired: LayerSnapshot, requires_firmware: bool) -> (job:
        Option<LayerWriteJob>)
        requires
            desired.keycodes@.len() + desired.encoder_keycodes@.len() <= usize::MAX,
        ensures
            starts_layer_write(
                *old(self),
                *final(self),
                job,
                layer,
                desired,
                "layer_actions.undo",
                LayerUndoBehavior::RetryDesired { requires_firmware },
            ),
    {
        self.apply_layer_snapshot_with_behavior(
            layer,
            desired,
            "layer_actions.undo",
            LayerUndoBehavior::RetryDesired { requires_firmware },
        )
    }

    /// Starts pasting `desired` onto the selected layer.
    pub fn paste_selected_layer(&mut self, desired: LayerSnapshot) -> (job: Option<LayerWriteJob>)
        requires
            desired.keycodes@.len() + desired.encoder_keycodes@.len() <= usize::MAX,
        ensures
            starts_layer_write(
                *old(self),
                *final(self),
                job,
                old(self).selected_layer,
                desired,
                "layer_actions.paste",
                LayerUndoBehavior::RecordOld,
            ),
    {
        self.apply_layer_snapshot(self.selected_layer, desired, "layer_actions.paste")
    }

    /// Starts setting every key of the selected layer to `keycode` (`KC_TRNS` fills with
    /// "inherit", anything else with "none"); encoders keep their keycodes.
    pub fn fill_selected_layer(&mut self, keycode: u16) -> (job: Option<LayerWriteJob>)
        requires
            old(self).layout matches Some(layout) ==> layout.keys@.len() + layout.encoders@.len()
                <= usize::MAX,
        ensures
            match old(self).layout {
                Some(layout) if old(self).selected_layer < layout.layers@.len() => exists|
                    desired: LayerSnapshot,
                |
                    desired.keycodes@ == Seq::new(layout.keys@.len(), |k: int| keycode)
                        && desired.encoder_keycodes@ == layer_encoder_keycodes(
                        layout,
                        old(self).selected_layer as int,
                    ) && starts_layer_write(
                        *old(self),
                        *final(self),
                        job,
                        old(self).selected_layer,
                        desired,
                        if keycode == 0x0001 {
                            "layer_actions.fill_inherit"
                        } else {
                            "layer_actions.fill_none"
                        },
                        LayerUndoBehavior::RecordOld,
                    ),
                _ => job is None && is_layer_error_status(
                    final(self).status_msg,
                    LayerOperationError::MissingLayer,
                ) && *final(self) == (EntropyApp { status_msg: final(self).status_msg, ..*old(self) }),
            },
    {
        let target_layer = self.selected_layer;
        let desired = match &self.layout {
            Some(layout) => filled_layer_snapshot(layout, target_layer, keycode),
            None => None,
        };
        let desired = match desired {
            Some(desired) => desired,
            None => {
                self.report_layer_operation_error(LayerOperationError::MissingLayer);
                return None;
            },
        };
        let action_key = if keycode == 0x0001 {
            "layer_actions.fill_inherit"
        } else {
            "layer_actions.fill_none"
        };
        self.apply_layer_snapshot(target_layer, desired, action_key)
    }

    /// Starts mirroring the selected layer by `mapping` (see
    /// `mirrored_layer_snapshot_with_mapping`).
    pub fn mirror_selected_layer(&mut self, mapping: &[usize]) -> (job: Option<LayerWriteJob>)
        requires
            old(self).layout matches Some(layout) ==> (old(self).selected_layer < layout.layers@.len()
                ==> mapping_in_range(layout, mapping@)) && mapping@.len() + layout.encoders@.len()
                <= usize::MAX,
        ensures
            match old(self).layout {
                Some(layout) if old(self).selected_layer < layout.layers@.len() => exists|
                    desired: LayerSnapshot,
                |
                    desired.keycodes@ == mirror_keycodes(
                        layer_keycodes(layout, old(self).selected_layer as int),
                        mapping@,
                    ) && desired.encoder_keycodes@ == layer_encoder_keycodes(
                        layout,
                        old(self).selected_layer as int,
                    ) && starts_layer_write(
                        *old(self),
                        *final(self),
                        job,
                        old(self).selected_layer,
                        desired,
                        "layer_actions.mirror",
                        LayerUndoBehavior::RecordOld,
                    ),
                _ => job is None && is_layer_error_status(
                    final(self).status_msg,
                    LayerOperationError::MissingLayer,
                ) && *final(self) == (EntropyApp { status_msg: final(self).status_msg, ..*old(self) }),
            },
    {
        let desired = match &self.layout {
            Some(layout) => mirrored_layer_snapshot_with_mapping(layout, self.selected_layer, mapping),
            None => Err(LayerOperationError::MissingLayer),
        };
        match desired {
            Ok(desired) => {
                proof {
                    let layout = old(self).layout->0;
                    assert(desired.keycodes@ =~= mirror_keycodes(
                        layer_keycodes(layout, old(self).selected_layer as int),
                        mapping@,
                    ));
                }
                self.apply_layer_snapshot(self.selected_layer, desired, "layer_actions.mirror")
            },
            Err(error) => {
                self.report_layer_operation_error(error);
                None
            },
        }
    }
}

} // verus!

verus! {

/// What recovering from a layer-write worker that ended without reporting leaves: see
/// `recover_lost_layer_write`.
pub open spec fn layer_write_recovered(app: EntropyApp, old: EntropyApp, fallback: LayerWriteFallback) -> bool {
    &&& app.pending_layer_write matches Some(w) && w.layer == fallback.layer && w.keycodes@
        == fallback.desired.keycodes@ && w.encoder_keycodes@ == fallback.desired.encoder_keycodes@
    &&& !app.hid_connected
    &&& app.hid_disconnect_pending
    &&& app.status_msg.is_catalog(
        "layer_actions.write_task_failed",
        seq![
            ("action", StatusArg::Catalog(fallback.action)),
            ("layer", StatusArg::Number(fallback.layer)),
        ],
    )
    &&& match fallback.undo_behavior {
        LayerUndoBehavior::RetryDesired { requires_firmware } => app.undo_stack@
            == old.undo_stack@.push(
            UndoAction::Layer { layer: fallback.layer, old: fallback.desired, requires_firmware },
        ),
        LayerUndoBehavior::RecordOld => app.undo_stack == old.undo_stack,
    }
    &&& app == (EntropyApp {
        pending_layer_write: app.pending_layer_write,
        hid_connected: false,
        hid_disconnect_pending: true,
        status_msg: app.status_msg,
        undo_stack: app.undo_stack,
        ..old
    })
}

impl EntropyApp {
    /// Recovers from a layer-write worker that ended without reporting: the whole desired
    /// layer is kept for replay after reconnecting, the keyboard is handed to the disconnect
    /// handling with a status naming the operation and the layer, and a failed undo is put
    /// back so that it can be retried.
    pub fn recover_lost_layer_write(&mut self, fallback: LayerWriteFallback)
        ensures
            layer_write_recovered(*final(self), *old(self), fallback),
    {
        let LayerWriteFallback { layer, desired, action, undo_behavior } = fallback;
        let mut args: Vec<(&'static str, StatusArg)> = Vec::new();
        args.push(("action", StatusArg::Catalog(action)));
        args.push(("layer", StatusArg::Number(layer)));
        assert(args@ =~= seq![("action", StatusArg::Catalog(action)), ("layer", StatusArg::Number(layer))]);
        self.pending_layer_write = Some(
            DeferredLayerWrite {
                layer,
                keycodes: copy_keycodes(&desired.keycodes),
                encoder_keycodes: copy_keycodes(&desired.encoder_keycodes),
            },
        );
        self.handoff_hid_worker_disconnect(
            StatusMessage::Catalog { key: "layer_actions.write_task_failed", args },
        );
        if let LayerUndoBehavior::RetryDesired { requires_firmware } = undo_behavior {
            self.undo_stack.push(UndoAction::Layer { layer, old: desired, requires_firmware });
        }
    }
}

impl EntropyApp {
    /// Acts on one poll of the running layer write's channel: while no report is there
    /// nothing changes; a report is taken in as `finish_layer_write` does; a worker that
    /// ended without one is recovered from as `recover_lost_layer_write` does. Either way
    /// the task is over. Returns whether a report was taken in, after which the writes and
    /// the connection that waited for the keyboard may go on.
    pub fn poll_layer_write(&mut self, received: Result<LayerWriteResult, TryRecvError>) -> (finished: bool)
        ensures
            match old(self).layer_write_task {
                None => *final(self) == *old(self) && !finished,
                Some(task) => match received {
                    Err(TryRecvError::Empty) => *final(self) == *old(self) && !finished,
                    Ok(result) => finished && layer_write_finished(
                        *final(self),
                        EntropyApp { layer_write_task: None, ..*old(self) },
                        result,
                    ),
                    Err(TryRecvError::Disconnected) => !finished && layer_write_recovered(
                        *final(self),
                        EntropyApp { layer_write_task: None, ..*old(self) },
                        task.fallback,
                    ),
                },
            },
    {
        if self.layer_write_task.is_none() {
            return false;
        }
        match received {
            Err(TryRecvError::Empty) => false,
            Ok(result) => {
                self.layer_write_task = None;
                self.finish_layer_write(result);
                true
            },
            Err(TryRecvError::Disconnected) => {
                let task = self.layer_write_task.take().unwrap();
                let LayerWriteTask { receiver: _, fallback } = task;
                self.recover_lost_layer_write(fallback);
                false
            },
        }
    }
}

} // verus!
