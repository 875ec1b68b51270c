//! Middle-click assignments: the value a middle click assigns, and the queue of assignments
//! that wait while the keyboard is busy.
use vstd::prelude::*;

use crate::app::EntropyApp;

verus! {

/// A middle-click assignment that waits until the keyboard can take a write.
#[derive(Clone, Copy, Debug, PartialEq, Eq, Structural)]
pub enum PendingMiddleClickAssignment {
    Key { layer: usize, key_idx: usize, binding: u16, generation: u64 },
    Encoder { layer: usize, encoder_visual_idx: usize, keycode: u16, generation: u64 },
}

/// Whether two assignments write the same key or the same encoder slot of the same layer.
pub open spec fn same_target(left: PendingMiddleClickAssignment, right: PendingMiddleClickAssignment) -> bool {
    match (left, right) {
        (
            PendingMiddleClickAssignment::Key { layer: l1, key_idx: k1, .. },
            PendingMiddleClickAssignment::Key { layer: l2, key_idx: k2, .. },
        ) => l1 == l2 && k1 == k2,
        (
            PendingMiddleClickAssignment::Encoder { layer: l1, encoder_visual_idx: e1, .. },
            PendingMiddleClickAssignment::Encoder { layer: l2, encoder_visual_idx: e2, .. },
        ) => l1 == l2 && e1 == e2,
        _ => false,
    }
}

/// The layer an assignment writes.
pub open spec fn assignment_layer(a: PendingMiddleClickAssignment) -> usize {
    match a {
        PendingMiddleClickAssignment::Key { layer, .. } => layer,
        PendingMiddleClickAssignment::Encoder { layer, .. } => layer,
    }
}

/// Whether no two queued assignments write the same target.
pub open spec fn targets_distinct(queue: Seq<PendingMiddleClickAssignment>) -> bool {
    forall|i: int, j: int|
        0 <= i < queue.len() && 0 <= j < queue.len() && i != j ==> !same_target(
            #[trigger] queue[i],
            #[trigger] queue[j],
        )
}

/// Whether two assignments write the same key or the same encoder slot of the same layer.
pub fn same_middle_click_target(
    left: PendingMiddleClickAssignment,
    right: PendingMiddleClickAssignment,
) -> (r: bool)
    ensures
        r == same_target(left, right),
{
    match (left, right) {
        (
            PendingMiddleClickAssignment::Key { layer: left_layer, key_idx: left_key, .. },
            PendingMiddleClickAssignment::Key { layer: right_layer, key_idx: right_key, .. },
        ) => left_layer == right_layer && left_key == right_key,
        (
            PendingMiddleClickAssignment::Encoder {
                layer: left_layer,
                encoder_visual_idx: left_encoder,
                ..
            },
            PendingMiddleClickAssignment::Encoder {
                layer: right_layer,
                encoder_visual_idx: right_encoder,
                ..
            },
        ) => left_layer == right_layer && left_encoder == right_encoder,
        _ => false,
    }
}

/// Whether an assignment writes the key `key_idx` of `layer`.
pub open spec fn writes_key(a: PendingMiddleClickAssignment, layer: usize, key_idx: usize) -> bool {
    a matches PendingMiddleClickAssignment::Key { layer: l, key_idx: k, .. } && l == layer && k == key_idx
}

/// Keeps the assignments of targets other than `a`'s.
pub open spec fn other_target(a: PendingMiddleClickAssignment) -> spec_fn(PendingMiddleClickAssignment) -> bool {
    |p: PendingMiddleClickAssignment| !same_target(p, a)
}

/// Keeps the assignments of anything but the key `key_idx` of `layer`.
pub open spec fn not_key(layer: usize, key_idx: usize) -> spec_fn(PendingMiddleClickAssignment) -> bool {
    |p: PendingMiddleClickAssignment| !writes_key(p, layer, key_idx)
}

/// Keeps the assignments of layers other than `layer`.
pub open spec fn not_layer(layer: usize) -> spec_fn(PendingMiddleClickAssignment) -> bool {
    |p: PendingMiddleClickAssignment| assignment_layer(p) != layer
}

/// The connection an assignment was queued under.
pub open spec fn assignment_generation(a: PendingMiddleClickAssignment) -> u64 {
    match a {
        PendingMiddleClickAssignment::Key { generation, .. } => generation,
        PendingMiddleClickAssignment::Encoder { generation, .. } => generation,
    }
}

/// Keeps the assignments queued under the connection `generation`.
pub open spec fn of_generation(generation: u64) -> spec_fn(PendingMiddleClickAssignment) -> bool {
    |p: PendingMiddleClickAssignment| assignment_generation(p) == generation
}

/// The keycode a middle click assigns: transparent where the user chose so, else none.
pub open spec fn middle_click_keycode(transparent: bool) -> u16 {
    if transparent { 0x0001 } else { 0x0000 }
}

/// Whether `app` differs from `old` only in the queue of middle-click assignments.
pub open spec fn only_queue_changed(app: EntropyApp, old: EntropyApp) -> bool {
    app == (EntropyApp { pending_middle_click_assignments: app.pending_middle_click_assignments, ..old })
}

impl EntropyApp {
    /// The binding a middle click assigns: transparent where the user chose so, else none.
    pub fn middle_click_binding(&self) -> (kc: u16)
        ensures
            kc == middle_click_keycode(self.app_settings.middle_click_assigns_transparent),
    {
        if self.app_settings.middle_click_assigns_transparent {
            0x0001
        } else {
            0x0000
        }
    }

    /// Queues an assignment, replacing any queued one of the same target; the new one
    /// comes last.
    pub fn queue_pending_middle_click_assignment(&mut self, assignment: PendingMiddleClickAssignment)
        ensures
            only_queue_changed(*final(self), *old(self)),
            final(self).pending_middle_click_assignments@ == old(
                self,
            ).pending_middle_click_assignments@.filter(other_target(assignment)).push(assignment),
            targets_distinct(old(self).pending_middle_click_assignments@) ==> targets_distinct(
                final(self).pending_middle_click_assignments@,
            ),
    {
        let ghost pred = other_target(assignment);
        let ghost q = self.pending_middle_click_assignments@;
        let mut kept: Vec<PendingMiddleClickAssignment> = Vec::new();
        let mut i: usize = 0;
        while i < self.pending_middle_click_assignments.len()
            invariant
                q == self.pending_middle_click_assignments@,
                i <= q.len(),
                pred == other_target(assignment),
                kept@ == q.subrange(0, i as int).filter(pred),
                forall|j: int| 0 <= j < kept@.len() ==> !same_target(#[trigger] kept@[j], assignment),
            decreases q.len() - i,
        {
            let p = self.pending_middle_click_assignments[i];
            let ghost before = kept@;
            if !same_middle_click_target(p, assignment) {
                kept.push(p);
            }
            proof {
                reveal(Seq::filter);
                let s1 = q.subrange(0, i as int + 1);
                assert(s1.drop_last() =~= q.subrange(0, i as int));
                assert(s1.last() == p);
                assert(s1.filter(pred) == (if pred(p) {
                    before.push(p)
                } else {
                    before
                }));
                assert(kept@ == (if pred(p) {
                    before.push(p)
                } else {
                    before
                }));
            }
            i = i + 1;
        }
        proof {
            assert(q.subrange(0, q.len() as int) =~= q);
            if targets_distinct(q) {
                q.filter_lemma(pred);
                assert forall|a: int, b: int|
                    0 <= a < kept@.len() && 0 <= b < kept@.len() && a != b implies !same_target(
                    #[trigger] kept@[a],
                    #[trigger] kept@[b],
                ) by {
                    lemma_filter_keeps_distinct(q, pred, a, b);
                }
            }
        }
        kept.push(assignment);
        proof {
            if targets_distinct(q) {
                let k = kept@;
                assert forall|a: int, b: int|
                    0 <= a < k.len() && 0 <= b < k.len() && a != b implies !same_target(
                    #[trigger] k[a],
                    #[trigger] k[b],
                ) by {
                    if a == k.len() - 1 {
                        lemma_same_target_symmetric(k[b], assignment);
                    }
                }
            }
        }
        self.pending_middle_click_assignments = kept;
    }

    /// Drops the queued assignment of the key `key_idx` of `layer`: a newer edit of that key
    /// supersedes it.
    pub fn drop_queued_middle_click_assignment(&mut self, layer: usize, key_idx: usize)
        ensures
            only_queue_changed(*final(self), *old(self)),
            final(self).pending_middle_click_assignments@ == old(
                self,
            ).pending_middle_click_assignments@.filter(not_key(layer, key_idx)),
    {
        let ghost pred = not_key(layer, key_idx);
        let ghost q = self.pending_middle_click_assignments@;
        let mut kept: Vec<PendingMiddleClickAssignment> = Vec::new();
        let mut i: usize = 0;
        while i < self.pending_middle_click_assignments.len()
            invariant
                q == self.pending_middle_click_assignments@,
                i <= q.len(),
                pred == not_key(layer, key_idx),
                kept@ == q.subrange(0, i as int).filter(pred),
            decreases q.len() - i,
        {
            let p = self.pending_middle_click_assignments[i];
            let ghost before = kept@;
            let matches_key = match p {
                PendingMiddleClickAssignment::Key { layer: l, key_idx: k, .. } => l == layer && k
                    == key_idx,
                PendingMiddleClickAssignment::Encoder { .. } => false,
            };
            if !matches_key {
                kept.push(p);
            }
            proof {
                reveal(Seq::filter);
                let s1 = q.subrange(0, i as int + 1);
                assert(s1.drop_last() =~= q.subrange(0, i as int));
                assert(s1.last() == p);
                assert(s1.filter(pred) == (if pred(p) {
                    before.push(p)
                } else {
                    before
                }));
                assert(kept@ == (if pred(p) {
                    before.push(p)
                } else {
                    before
                }));
            }
            i = i + 1;
        }
        proof {
            assert(q.subrange(0, q.len() as int) =~= q);
        }
        self.pending_middle_click_assignments = kept;
    }

    /// Drops every queued assignment of keys and encoders on `layer`: a write of the whole
    /// layer supersedes them.
    pub fn drop_queued_middle_click_assignments_for_layer(&mut self, layer: usize)
        ensures
            only_queue_changed(*final(self), *old(self)),
            final(self).pending_middle_click_assignments@ == old(
                self,
            ).pending_middle_click_assignments@.filter(not_layer(layer)),
    {
        let ghost pred = not_layer(layer);
        let ghost q = self.pending_middle_click_assignments@;
        let mut kept: Vec<PendingMiddleClickAssignment> = Vec::new();
        let mut i: usize = 0;
        while i < self.pending_middle_click_assignments.len()
            invariant
                q == self.pending_middle_click_assignments@,
                i <= q.len(),
                pred == not_layer(layer),
                kept@ == q.subrange(0, i as int).filter(pred),
            decreases q.len() - i,
        {
            let p = self.pending_middle_click_assignments[i];
            let ghost before = kept@;
            let l = match p {
                PendingMiddleClickAssignment::Key { layer: l, .. } => l,
                PendingMiddleClickAssignment::Encoder { layer: l, .. } => l,
            };
            if l != layer {
                kept.push(p);
            }
            proof {
                reveal(Seq::filter);
                let s1 = q.subrange(0, i as int + 1);
                assert(s1.drop_last() =~= q.subrange(0, i as int));
                assert(s1.last() == p);
                assert(s1.filter(pred) == (if pred(p) {
                    before.push(p)
                } else {
                    before
                }));
                assert(kept@ == (if pred(p) {
                    before.push(p)
                } else {
                    before
                }));
            }
            i = i + 1;
        }
        proof {
            assert(q.subrange(0, q.len() as int) =~= q);
        }
        self.pending_middle_click_assignments = kept;
    }

    /// Drops the queued assignments made under an earlier connection: they were meant for
    /// a keyboard that is gone.
    pub fn drop_stale_middle_click_assignments(&mut self)
        ensures
            only_queue_changed(*final(self), *old(self)),
            final(self).pending_middle_click_assignments@ == old(
                self,
            ).pending_middle_click_assignments@.filter(of_generation(old(self).connection_generation)),
    {
        let generation = self.connection_generation;
        let ghost pred = of_generation(generation);
        let ghost q = self.pending_middle_click_assignments@;
        let mut kept: Vec<PendingMiddleClickAssignment> = Vec::new();
        let mut i: usize = 0;
        while i < self.pending_middle_click_assignments.len()
            invariant
                q == self.pending_middle_click_assignments@,
                i <= q.len(),
                pred == of_generation(generation),
                kept@ == q.subrange(0, i as int).filter(pred),
            decreases q.len() - i,
        {
            let p = self.pending_middle_click_assignments[i];
            let ghost before = kept@;
            let g = match p {
                PendingMiddleClickAssignment::Key { generation: g, .. } => g,
                PendingMiddleClickAssignment::Encoder { generation: g, .. } => g,
            };
            if g == generation {
                kept.push(p);
            }
            proof {
                reveal(Seq::filter);
                let s1 = q.subrange(0, i as int + 1);
                assert(s1.drop_last() =~= q.subrange(0, i as int));
                assert(s1.last() == p);
                assert(s1.filter(pred) == (if pred(p) {
                    before.push(p)
                } else {
                    before
                }));
            }
            i = i + 1;
        }
        proof {
            assert(q.subrange(0, q.len() as int) =~= q);
        }
        self.pending_middle_click_assignments = kept;
    }

    /// The device to reconnect to in order to reload every keycode from it: the selected
    /// device, if any.
    pub fn load_from_device(&self) -> (device: Option<usize>)
        ensures
            device == self.selected_device,
    {
        self.selected_device
    }
}

proof fn lemma_same_target_symmetric(a: PendingMiddleClickAssignment, b: PendingMiddleClickAssignment)
    ensures
        same_target(a, b) == same_target(b, a),
{
}

/// Filtering a queue whose targets are distinct keeps them distinct.
proof fn lemma_filter_keeps_distinct(
    q: Seq<PendingMiddleClickAssignment>,
    pred: spec_fn(PendingMiddleClickAssignment) -> bool,
    a: int,
    b: int,
)
    requires
        targets_distinct(q),
        0 <= a < q.filter(pred).len(),
        0 <= b < q.filter(pred).len(),
        a != b,
    ensures
        !same_target(q.filter(pred)[a], q.filter(pred)[b]),
    decreases q.len(),
{
    reveal(Seq::filter);
    if q.len() > 0 {
        let rest = q.drop_last();
        assert(targets_distinct(rest)) by {
            assert forall|i: int, j: int|
                0 <= i < rest.len() && 0 <= j < rest.len() && i != j implies !same_target(
                #[trigger] rest[i],
                #[trigger] rest[j],
            ) by {
                assert(rest[i] == q[i] && rest[j] == q[j]);
            }
        }
        let f = rest.filter(pred);
        if pred(q.last()) {
            let n = f.len() as int;
            if a < n && b < n {
                lemma_filter_keeps_distinct(rest, pred, a, b);
            } else {
                let other = if a < n { a } else { b };
                rest.filter_lemma(pred);
                assert(f.contains(f[other]));
                lemma_filter_element_in_source(rest, pred, other);
                let j = choose|j: int| 0 <= j < rest.len() && rest[j] == f[other];
                assert(q[j] == f[other]);
                assert(!same_target(q[j], q[q.len() - 1]));
                lemma_same_target_symmetric(q[j], q[q.len() - 1]);
            }
        } else {
            lemma_filter_keeps_distinct(rest, pred, a, b);
        }
    }
}

/// Each element of a filtered sequence is an element of the source.
proof fn lemma_filter_element_in_source<A>(q: Seq<A>, pred: spec_fn(A) -> bool, i: int)
    requires
        0 <= i < q.filter(pred).len(),
    ensures
        exists|j: int| 0 <= j < q.len() && q[j] == q.filter(pred)[i],
    decreases q.len(),
{
    reveal(Seq::filter);
    if q.len() > 0 {
        let rest = q.drop_last();
        let f = rest.filter(pred);
        if i < f.len() {
            lemma_filter_element_in_source(rest, pred, i);
            let j = choose|j: int| 0 <= j < rest.len() && rest[j] == f[i];
            assert(q[j] == rest[j]);
        } else {
            assert(q.filter(pred)[i] == q[q.len() - 1]);
        }
    }
}

} // verus!
