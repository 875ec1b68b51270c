//! Pairing each key with its mirror image, from candidate pairs ordered by how well they
//! match.
use vstd::prelude::*;

use crate::keyboard::KeyboardLayout;
use crate::layer_operations::{
    is_involution, mapping_in_range, mirrored_keycode, mirrored_layer_snapshot_with_mapping,
    layer_encoder_keycodes, LayerOperationError, LayerSnapshot,
};

verus! {

/// The marker of a key that has no partner yet.
pub open spec fn unpaired() -> usize {
    usize::MAX
}

/// The pairing that taking candidate pairs in order makes: a pair is taken when neither of
/// its keys has a partner yet.
pub open spec fn greedy_pairing(count: nat, candidates: Seq<(usize, usize)>) -> Seq<usize>
    decreases candidates.len(),
{
    if candidates.len() == 0 {
        Seq::new(count, |i: int| unpaired())
    } else {
        let m = greedy_pairing(count, candidates.drop_last());
        let (l, r) = candidates.last();
        if m[l as int] == unpaired() && m[r as int] == unpaired() {
            m.update(l as int, r).update(r as int, l)
        } else {
            m
        }
    }
}

/// Whether every candidate pair names two different keys among `count`.
pub open spec fn candidates_valid(count: nat, candidates: Seq<(usize, usize)>) -> bool {
    forall|k: int|
        0 <= k < candidates.len() ==> (#[trigger] candidates[k]).0 < count && candidates[k].1
            < count && candidates[k].0 != candidates[k].1
}

/// Whether a partial pairing is consistent: each key is unpaired or paired with another key
/// that is paired with it.
pub open spec fn consistent_pairing(m: Seq<usize>) -> bool {
    forall|i: int|
        0 <= i < m.len() && #[trigger] m[i] != unpaired() ==> m[i] < m.len() && m[i] != i
            && m[m[i] as int] == i
}

/// The pairing of mirror-image keys. `count` keys must split into two equal halves, the
/// halves must not overlap (`halves_separated`, which the caller measures on the keys'
/// positions), and taking `candidates` (pairs of a left and a right key, best match first)
/// must pair every key.
pub fn mirror_key_mapping(count: usize, halves_separated: bool, candidates: &[(usize, usize)]) -> (result: Result<Vec<usize>, LayerOperationError>)
    requires
        candidates_valid(count as nat, candidates@),
        count < usize::MAX,
    ensures
        (count == 0 || count % 2 == 1) ==> result == Err::<Vec<usize>, LayerOperationError>(
            LayerOperationError::UnevenKeyCount { count },
        ),
        (count > 0 && count % 2 == 0 && !halves_separated) ==> result == Err::<
            Vec<usize>,
            LayerOperationError,
        >(LayerOperationError::UnbalancedGeometry),
        (count > 0 && count % 2 == 0 && halves_separated) ==> ({
            let m = greedy_pairing(count as nat, candidates@);
            if m.contains(unpaired()) {
                result == Err::<Vec<usize>, LayerOperationError>(
                    LayerOperationError::UnbalancedGeometry,
                )
            } else {
                result matches Ok(mapping) && mapping@ == m
            }
        }),
        result matches Ok(mapping) ==> mapping@.len() == count && is_involution(mapping@)
            && forall|i: int| 0 <= i < count ==> #[trigger] mapping@[i] != i,
{
    if count == 0 || count % 2 == 1 {
        return Err(LayerOperationError::UnevenKeyCount { count });
    }
    if !halves_separated {
        return Err(LayerOperationError::UnbalancedGeometry);
    }
    let mut mapping: Vec<usize> = Vec::new();
    let mut i: usize = 0;
    while i < count
        invariant
            i <= count,
            mapping@ == Seq::new(i as nat, |j: int| unpaired()),
        decreases count - i,
    {
        mapping.push(usize::MAX);
        i = i + 1;
        assert(mapping@ =~= Seq::new(i as nat, |j: int| unpaired()));
    }
    assert(mapping@ =~= greedy_pairing(count as nat, candidates@.take(0)));
    let mut k: usize = 0;
    while k < candidates.len()
        invariant
            k <= candidates@.len(),
            candidates_valid(count as nat, candidates@),
            mapping@.len() == count,
            mapping@ == greedy_pairing(count as nat, candidates@.take(k as int)),
            consistent_pairing(mapping@),
        decreases candidates@.len() - k,
    {
        let (left, right) = candidates[k];
        assert(candidates@.take(k as int + 1).drop_last() =~= candidates@.take(k as int));
        assert(candidates@[k as int].0 < count && candidates@[k as int].1 < count);
        if mapping[left] == usize::MAX && mapping[right] == usize::MAX {
            let ghost before = mapping@;
            mapping.set(left, right);
            mapping.set(right, left);
            assert(mapping@ =~= before.update(left as int, right).update(right as int, left));
            assert forall|x: int|
                0 <= x < mapping@.len() && #[trigger] mapping@[x] != unpaired() implies mapping@[x]
                < mapping@.len() && mapping@[x] != x && mapping@[mapping@[x] as int] == x by {
                if x != left && x != right {
                    assert(before[x] != unpaired());
                    let y = before[x] as int;
                    assert(before[y] == x);
                    assert(y != left && y != right);
                }
            }
        }
        k = k + 1;
    }
    assert(candidates@.take(candidates@.len() as int) =~= candidates@);
    let mut p: usize = 0;
    while p < count
        invariant
            p <= count,
            count > 0 && count % 2 == 0 && halves_separated,
            mapping@ == greedy_pairing(count as nat, candidates@),
            consistent_pairing(mapping@),
            mapping@.len() == count,
            forall|j: int| 0 <= j < p ==> #[trigger] mapping@[j] != unpaired(),
        decreases count - p,
    {
        if mapping[p] == usize::MAX {
            assert(mapping@.contains(unpaired()));
            return Err(LayerOperationError::UnbalancedGeometry);
        }
        p = p + 1;
    }
    assert(!mapping@.contains(unpaired()));
    Ok(mapping)
}

/// The mirrored layer, from the key pairing `mirror_key_mapping` computed (or the reason
/// there is none).
pub fn mirrored_layer_snapshot(
    layout: &KeyboardLayout,
    layer: usize,
    mapping: Result<Vec<usize>, LayerOperationError>,
) -> (result: Result<LayerSnapshot, LayerOperationError>)
    requires
        mapping matches Ok(m) ==> mapping_in_range(*layout, m@),
    ensures
        match mapping {
            Err(e) => result == Err::<LayerSnapshot, LayerOperationError>(e),
            Ok(m) => if layer >= layout.layers@.len() {
                result == Err::<LayerSnapshot, LayerOperationError>(
                    LayerOperationError::MissingLayer,
                )
            } else {
                result matches Ok(s) && s.keycodes@ == Seq::new(
                    m@.len(),
                    |i: int| mirrored_keycode(layout.keycode_at(layer as int, m@[i] as int)),
                ) && s.encoder_keycodes@ == layer_encoder_keycodes(*layout, layer as int)
            },
        },
{
    match mapping {
        Ok(m) => mirrored_layer_snapshot_with_mapping(layout, layer, m.as_slice()),
        Err(e) => Err(e),
    }
}

} // verus!
