//! Copying a layer and pasting it onto a layout whose keys may be stored in another order:
//! each target key takes the keycode of the copied key that matches it best.
use vstd::prelude::*;

use crate::app::{EntropyApp, StatusArg, StatusMessage};
use crate::keyboard::KeyboardLayout;
use crate::layer_operations::{
    capture_layer, is_capture_of, layer_encoder_keycodes, layer_keycodes, LayerOperationError,
    LayerSnapshot,
};

verus! {

/// The marker of a target that has no source yet.
pub open spec fn unmatched() -> usize {
    usize::MAX
}

/// Whether every candidate names a target among `target_len` and a source among
/// `source_len`.
pub open spec fn match_candidates_valid(
    source_len: nat,
    target_len: nat,
    candidates: Seq<(usize, usize)>,
) -> bool {
    forall|k: int|
        0 <= k < candidates.len() ==> (#[trigger] candidates[k]).0 < target_len && candidates[k].1
            < source_len
}

/// Whether source `s` is already matched in `m`.
pub open spec fn source_taken(m: Seq<usize>, s: usize) -> bool {
    exists|t: int| 0 <= t < m.len() && m[t] == s
}

/// The matching that taking candidate pairs (target, source) in order makes: a pair is
/// taken when its target has no source and its source no target yet.
pub open spec fn greedy_matching(target_len: nat, candidates: Seq<(usize, usize)>) -> Seq<usize>
    decreases candidates.len(),
{
    if candidates.len() == 0 {
        Seq::new(target_len, |i: int| unmatched())
    } else {
        let m = greedy_matching(target_len, candidates.drop_last());
        let (t, s) = candidates.last();
        if m[t as int] == unmatched() && !source_taken(m, s) {
            m.update(t as int, s)
        } else {
            m
        }
    }
}

/// Whether a matching uses each source at most once.
pub open spec fn injective(m: Seq<usize>) -> bool {
    forall|a: int, b: int|
        0 <= a < m.len() && 0 <= b < m.len() && a != b && m[a] != unmatched() ==> #[trigger] m[a]
            != #[trigger] m[b]
}

/// Matches the keys of a target layout to those of a copied layer, one to one: both must
/// have as many keys, and taking `candidates` (pairs of a target and a source key, best
/// geometric match first) must match every target key.
pub fn geometry_mapping(source_len: usize, target_len: usize, candidates: &[(usize, usize)]) -> (result: Result<Vec<usize>, LayerOperationError>)
    requires
        match_candidates_valid(source_len as nat, target_len as nat, candidates@),
        source_len < usize::MAX,
    ensures
        source_len != target_len ==> result == Err::<Vec<usize>, LayerOperationError>(
            LayerOperationError::KeyCountMismatch { source: source_len, target: target_len },
        ),
        source_len == target_len ==> ({
            let m = greedy_matching(target_len as nat, candidates@);
            if m.contains(unmatched()) {
                result == Err::<Vec<usize>, LayerOperationError>(
                    LayerOperationError::IncompatibleGeometry,
                )
            } else {
                result matches Ok(mapping) && mapping@ == m
            }
        }),
        result matches Ok(mapping) ==> mapping@.len() == target_len && injective(mapping@)
            && forall|t: int| 0 <= t < target_len ==> #[trigger] mapping@[t] < source_len,
{
    if source_len != target_len {
        return Err(LayerOperationError::KeyCountMismatch { source: source_len, target: target_len });
    }
    let mut mapping: Vec<usize> = Vec::new();
    let mut used: Vec<bool> = Vec::new();
    let mut i: usize = 0;
    while i < target_len
        invariant
            i <= target_len,
            target_len == source_len,
            mapping@ == Seq::new(i as nat, |j: int| unmatched()),
            used@ == Seq::new(i as nat, |j: int| false),
        decreases target_len - i,
    {
        mapping.push(usize::MAX);
        used.push(false);
        i = i + 1;
        assert(mapping@ =~= Seq::new(i as nat, |j: int| unmatched()));
        assert(used@ =~= Seq::new(i as nat, |j: int| false));
    }
    assert(mapping@ =~= greedy_matching(target_len as nat, candidates@.take(0)));
    let mut k: usize = 0;
    while k < candidates.len()
        invariant
            k <= candidates@.len(),
            target_len == source_len,
            source_len < usize::MAX,
            match_candidates_valid(source_len as nat, target_len as nat, candidates@),
            mapping@.len() == target_len,
            used@.len() == source_len,
            mapping@ == greedy_matching(target_len as nat, candidates@.take(k as int)),
            forall|s: int| 0 <= s < source_len ==> (#[trigger] used@[s] <==> source_taken(mapping@, s as usize)),
            forall|t: int| 0 <= t < target_len && #[trigger] mapping@[t] != unmatched() ==> mapping@[t] < source_len,
            injective(mapping@),
        decreases candidates@.len() - k,
    {
        let (target_idx, source_idx) = candidates[k];
        assert(candidates@.take(k as int + 1).drop_last() =~= candidates@.take(k as int));
        assert(candidates@[k as int].0 < target_len && candidates@[k as int].1 < source_len);
        if mapping[target_idx] == usize::MAX && !used[source_idx] {
            let ghost before = mapping@;
            mapping.set(target_idx, source_idx);
            used.set(source_idx, true);
            assert(mapping@ =~= before.update(target_idx as int, source_idx));
            assert forall|s: int| 0 <= s < source_len implies (#[trigger] used@[s] <==> source_taken(mapping@, s as usize)) by {
                if s == source_idx {
                    assert(mapping@[target_idx as int] == source_idx);
                } else {
                    if source_taken(before, s as usize) {
                        let t = choose|t: int| 0 <= t < before.len() && before[t] == s as usize;
                        assert(t != target_idx);
                        assert(mapping@[t] == s as usize);
                    }
                    if source_taken(mapping@, s as usize) {
                        let t = choose|t: int| 0 <= t < mapping@.len() && mapping@[t] == s as usize;
                        assert(t != target_idx);
                        assert(before[t] == s as usize);
                    }
                }
            }
            assert forall|a: int, b: int|
                0 <= a < mapping@.len() && 0 <= b < mapping@.len() && a != b && mapping@[a] != unmatched() implies #[trigger] mapping@[a]
                != #[trigger] mapping@[b] by {
                if a == target_idx {
                    assert(!source_taken(before, source_idx));
                    assert(before[b] != source_idx);
                } else if b == target_idx {
                    assert(!source_taken(before, source_idx));
                    assert(before[a] != source_idx);
                }
            }
        }
        k = k + 1;
    }
    assert(candidates@.take(candidates@.len() as int) =~= candidates@);
    let mut p: usize = 0;
    while p < target_len
        invariant
            p <= target_len,
            target_len == source_len,
            mapping@ == greedy_matching(target_len as nat, candidates@),
            mapping@.len() == target_len,
            forall|t: int| 0 <= t < target_len && #[trigger] mapping@[t] != unmatched() ==> mapping@[t] < source_len,
            injective(mapping@),
            forall|j: int| 0 <= j < p ==> #[trigger] mapping@[j] != unmatched(),
        decreases target_len - p,
    {
        if mapping[p] == usize::MAX {
            assert(mapping@.contains(unmatched()));
            return Err(LayerOperationError::IncompatibleGeometry);
        }
        p = p + 1;
    }
    assert(!mapping@.contains(unmatched()));
    Ok(mapping)
}

/// Whether every entry of `mapping` names an entry of `values`.
pub open spec fn maps_into(mapping: Seq<usize>, len: nat) -> bool {
    forall|i: int| 0 <= i < mapping.len() ==> #[trigger] mapping[i] < len
}

/// The values `mapping` picks from `values`, in target order.
pub open spec fn pick(values: Seq<u16>, mapping: Seq<usize>) -> Seq<u16> {
    Seq::new(mapping.len(), |i: int| values[mapping[i] as int])
}

fn pick_values(values: &Vec<u16>, mapping: &Vec<usize>) -> (picked: Vec<u16>)
    requires
        maps_into(mapping@, values@.len()),
    ensures
        picked@ == pick(values@, mapping@),
{
    let mut picked: Vec<u16> = Vec::new();
    let mut i: usize = 0;
    while i < mapping.len()
        invariant
            i <= mapping@.len(),
            maps_into(mapping@, values@.len()),
            picked@ == pick(values@, mapping@).take(i as int),
        decreases mapping@.len() - i,
    {
        picked.push(values[mapping[i]]);
        i = i + 1;
        assert(picked@ =~= pick(values@, mapping@).take(i as int));
    }
    assert(picked@ =~= pick(values@, mapping@));
    picked
}

/// The layer that pasting `copied` onto `layer` of `target` writes: each key takes the
/// copied keycode its key mapping names; the encoders take theirs likewise where their
/// mapping exists, and keep their own otherwise.
pub fn layer_snapshot_for_paste(
    copied: &LayerSnapshot,
    target: &KeyboardLayout,
    layer: usize,
    key_mapping: Result<Vec<usize>, LayerOperationError>,
    encoder_mapping: Result<Vec<usize>, LayerOperationError>,
) -> (result: Result<LayerSnapshot, LayerOperationError>)
    requires
        key_mapping matches Ok(m) ==> maps_into(m@, copied.keycodes@.len()),
        encoder_mapping matches Ok(m) ==> maps_into(m@, copied.encoder_keycodes@.len()),
    ensures
        layer >= target.layers@.len() ==> result == Err::<LayerSnapshot, LayerOperationError>(
            LayerOperationError::MissingLayer,
        ),
        layer < target.layers@.len() ==> match key_mapping {
            Err(e) => result == Err::<LayerSnapshot, LayerOperationError>(e),
            Ok(km) => result matches Ok(s) && s.keycodes@ == pick(copied.keycodes@, km@)
                && s.encoder_keycodes@ == match encoder_mapping {
                Ok(em) => pick(copied.encoder_keycodes@, em@),
                Err(_) => layer_encoder_keycodes(*target, layer as int),
            },
        },
{
    let current = match capture_layer(target, layer) {
        Some(snapshot) => snapshot,
        None => return Err(LayerOperationError::MissingLayer),
    };
    let key_mapping = match key_mapping {
        Ok(m) => m,
        Err(e) => return Err(e),
    };
    let keycodes = pick_values(&copied.keycodes, &key_mapping);
    let encoder_keycodes = match encoder_mapping {
        Ok(m) => pick_values(&copied.encoder_keycodes, &m),
        Err(_) => current.encoder_keycodes,
    };
    Ok(LayerSnapshot { keycodes, encoder_keycodes })
}

impl EntropyApp {
    /// Copies the selected layer to the layer clipboard; returns whether it did, so that
    /// the caller stores the keys' geometry beside it. Without a connected layer the status
    /// bar says so.
    pub fn copy_selected_layer(&mut self) -> (copied: bool)
        ensures
            match old(self).layout {
                Some(layout) if old(self).selected_layer < layout.layers@.len() => {
                    &&& copied
                    &&& final(self).layer_clipboard matches Some(c) && is_capture_of(
                        c,
                        layout,
                        old(self).selected_layer as int,
                    )
                    &&& final(self).status_msg.is_catalog(
                        "layer_actions.copied_status",
                        seq![
                            ("layer", StatusArg::Number(old(self).selected_layer)),
                            ("keys", StatusArg::Number(layout.keys@.len() as usize)),
                        ],
                    )
                },
                _ => {
                    &&& !copied
                    &&& final(self).layer_clipboard == old(self).layer_clipboard
                    &&& final(self).status_msg.is_plain("layer_actions.no_connected_layer")
                },
            },
            final(self).layout == old(self).layout,
            final(self).selected_layer == old(self).selected_layer,
            final(self).undo_stack == old(self).undo_stack,
    {
        let captured = match &self.layout {
            Some(layout) => capture_layer(layout, self.selected_layer),
            None => None,
        };
        match captured {
            Some(clipboard) => {
                let keys = clipboard.keycodes.len();
                let mut args: Vec<(&'static str, StatusArg)> = Vec::new();
                args.push(("layer", StatusArg::Number(self.selected_layer)));
                args.push(("keys", StatusArg::Number(keys)));
                assert(args@ =~= seq![
                    ("layer", StatusArg::Number(self.selected_layer)),
                    ("keys", StatusArg::Number(keys)),
                ]);
                self.layer_clipboard = Some(clipboard);
                self.status_msg = StatusMessage::Catalog { key: "layer_actions.copied_status", args };
                true
            },
            None => {
                self.status_msg = StatusMessage::plain("layer_actions.no_connected_layer");
                false
            },
        }
    }

    /// The layer that pasting the clipboard onto the selected layer writes, from the key
    /// and encoder mappings the caller measured on the geometry of the copied and the
    /// target keys.
    pub fn layer_paste_snapshot(
        &self,
        key_mapping: Result<Vec<usize>, LayerOperationError>,
        encoder_mapping: Result<Vec<usize>, LayerOperationError>,
    ) -> (result: Result<LayerSnapshot, LayerOperationError>)
        requires
            self.layer_clipboard matches Some(c) ==> (key_mapping matches Ok(m) ==> maps_into(
                m@,
                c.keycodes@.len(),
            )) && (encoder_mapping matches Ok(m) ==> maps_into(m@, c.encoder_keycodes@.len())),
        ensures
            match (self.layer_clipboard, self.layout) {
                (Some(c), Some(layout)) if self.selected_layer < layout.layers@.len() => match key_mapping {
                    Err(e) => result == Err::<LayerSnapshot, LayerOperationError>(e),
                    Ok(km) => result matches Ok(s) && s.keycodes@ == pick(c.keycodes@, km@)
                        && s.encoder_keycodes@ == match encoder_mapping {
                        Ok(em) => pick(c.encoder_keycodes@, em@),
                        Err(_) => layer_encoder_keycodes(layout, self.selected_layer as int),
                    },
                },
                _ => result == Err::<LayerSnapshot, LayerOperationError>(
                    LayerOperationError::MissingLayer,
                ),
            },
    {
        let copied = match &self.layer_clipboard {
            Some(c) => c,
            None => return Err(LayerOperationError::MissingLayer),
        };
        let layout = match &self.layout {
            Some(l) => l,
            None => return Err(LayerOperationError::MissingLayer),
        };
        if self.selected_layer >= layout.layers.len() {
            return Err(LayerOperationError::MissingLayer);
        }
        layer_snapshot_for_paste(copied, layout, self.selected_layer, key_mapping, encoder_mapping)
    }
}

} // verus!
