use entropy::app::{EntropyApp, StatusArg, StatusMessage, UndoAction};
use entropy::keyboard::{KeyboardLayout, Language, PhysicalEncoder, PhysicalKey};
use entropy::layer_operations::{
    apply_layer_updates, filled_layer_snapshot, DeferredLayerWrite, LayerWriteFallback, LayerWriteResult,
    LayerWriteTask, record_encoder_write, record_key_write, run_layer_writes, undo_after_layer_write,
    KeyWriteOutcome, LayerOperationError, LayerSnapshot, LayerUndoBehavior, LayerWriteContext,
    LayerWriteProgress,
};
use entropy::mirror::{mirror_key_mapping, mirrored_layer_snapshot};

fn layout(key_count: usize, keycodes: &[u16], encoder_keycodes: &[u16]) -> KeyboardLayout {
    KeyboardLayout {
        rows: 8,
        cols: 8,
        keys: (0..key_count)
            .map(|index| PhysicalKey { row: (index / 8) as u8, col: (index % 8) as u8 })
            .collect(),
        encoders: encoder_keycodes
            .iter()
            .enumerate()
            .map(|(idx, _)| PhysicalEncoder { encoder_idx: idx as u8, direction: 0 })
            .collect(),
        layers: vec![keycodes.to_vec()],
        encoder_layers: vec![encoder_keycodes.to_vec()],
    }
}

/// Candidate pairs of left and right keys, best geometric match first, as the geometry of
/// two mirrored rows of two keys each (left keys 0, 1, 4, 5; right keys 2, 3, 6, 7) ranks
/// them.
fn two_row_candidates() -> Vec<(usize, usize)> {
    vec![(1, 2), (5, 6), (0, 3), (4, 7), (0, 2), (1, 3), (4, 6), (5, 7)]
}

#[test]
fn fill_changes_every_key_but_preserves_encoders() {
    let target = layout(4, &[10, 11, 12, 13], &[20, 21]);

    let none = filled_layer_snapshot(&target, 0, 0x0000).expect("layer");
    let inherit = filled_layer_snapshot(&target, 0, 0x0001).expect("layer");

    assert_eq!(none.keycodes, vec![0x0000; 4]);
    assert_eq!(inherit.keycodes, vec![0x0001; 4]);
    assert_eq!(none.encoder_keycodes, vec![20, 21]);
    assert_eq!(inherit.encoder_keycodes, vec![20, 21]);
}

#[test]
fn fill_updates_stay_on_the_selected_raw_layer() {
    let mut target = layout(2, &[10, 11], &[20]);
    target.layers = vec![vec![10, 11], vec![12, 13], vec![14, 15]];
    target.encoder_layers = vec![vec![20], vec![21], vec![22]];

    apply_layer_updates(&mut target, 1, &[(0, 0x0001), (1, 0x0001)], &[]);

    assert_eq!(target.layers[0], vec![10, 11]);
    assert_eq!(target.layers[1], vec![0x0001, 0x0001]);
    assert_eq!(target.layers[2], vec![14, 15]);
    assert_eq!(target.encoder_layers, vec![vec![20], vec![21], vec![22]]);
}

#[test]
fn mirror_preserves_rows_and_swaps_handed_modifiers() {
    let target = layout(8, &[0x00E0, 11, 12, 0x00E6, 20, 21, 22, 23], &[30]);

    let mapping = mirror_key_mapping(8, true, &two_row_candidates());
    let mirrored = mirrored_layer_snapshot(&target, 0, mapping).expect("balanced layout");

    assert_eq!(mirrored.keycodes, vec![0x00E2, 12, 11, 0x00E4, 23, 22, 21, 20]);
    assert_eq!(mirrored.encoder_keycodes, vec![30]);
}

#[test]
fn mirror_rejects_keyboards_without_equal_halves() {
    let target = layout(3, &[10, 11, 12], &[]);

    assert_eq!(
        mirrored_layer_snapshot(&target, 0, mirror_key_mapping(3, true, &[(0, 2)])),
        Err(LayerOperationError::UnevenKeyCount { count: 3 })
    );
}

#[test]
fn mirror_handles_symmetric_mixed_width_rotated_keys_and_is_involutive() {
    let mut target = layout(4, &[0x00E0, 11, 12, 0x00E6], &[]);
    let candidates = vec![(1, 2), (0, 3), (0, 2), (1, 3)];

    let mapping = mirror_key_mapping(4, true, &candidates).expect("symmetric geometry");
    assert_eq!(mapping, vec![3, 2, 1, 0]);

    let original = target.layers[0].clone();
    let once = mirrored_layer_snapshot(&target, 0, Ok(mapping.clone())).expect("first mirror");
    target.layers[0] = once.keycodes;
    let twice = mirrored_layer_snapshot(&target, 0, Ok(mapping)).expect("second mirror");
    assert_eq!(twice.keycodes, original);
}

#[test]
fn mirror_rejects_even_but_asymmetric_geometry() {
    let target = layout(4, &[10, 11, 12, 13], &[]);

    assert_eq!(
        mirrored_layer_snapshot(&target, 0, mirror_key_mapping(4, false, &[(0, 3), (1, 2)])),
        Err(LayerOperationError::UnbalancedGeometry)
    );
    assert_eq!(
        mirror_key_mapping(4, true, &[(0, 3), (1, 3)]),
        Err(LayerOperationError::UnbalancedGeometry)
    );
}

#[test]
fn layer_write_runner_records_successful_keys_and_encoders() {
    let keys = vec![(0, 0, 0, 10), (1, 0, 1, 11)];
    let encoders = vec![(0, 0, 1, 20)];

    let progress =
        run_layer_writes(&keys, &encoders, |_, _, _| KeyWriteOutcome::Saved, |_, _, _| Ok(()));

    assert_eq!(
        progress,
        LayerWriteProgress {
            key_updates: vec![(0, 10), (1, 11)],
            encoder_updates: vec![(0, 20)],
            written: 3,
            error: None,
            disconnect: false,
        }
    );
}

#[test]
fn layer_write_runner_stops_after_disconnect_and_skips_encoders() {
    let keys = vec![(0, 0, 0, 10), (1, 0, 1, 11), (2, 0, 2, 12)];
    let encoders = vec![(0, 0, 1, 20)];
    let encoder_calls = std::cell::Cell::new(0);

    let progress = run_layer_writes(
        &keys,
        &encoders,
        |_, _, keycode| {
            if keycode == 11 {
                KeyWriteOutcome::Failed("device disconnected".into())
            } else {
                KeyWriteOutcome::Saved
            }
        },
        |_, _, _| {
            encoder_calls.set(encoder_calls.get() + 1);
            Ok(())
        },
    );

    assert_eq!(progress.key_updates, vec![(0, 10)]);
    assert!(progress.encoder_updates.is_empty());
    assert_eq!(progress.written, 1);
    assert_eq!(progress.error.as_deref(), Some("device disconnected"));
    assert!(progress.disconnect);
    assert_eq!(encoder_calls.get(), 0);
}

#[test]
fn layer_write_runner_reconciles_readback_mismatch_without_disconnect() {
    let keys = vec![(0, 0, 0, 10)];

    let progress = run_layer_writes(
        &keys,
        &[],
        |_, _, _| KeyWriteOutcome::Mismatch { readback: 99, error: "writeback mismatch".into() },
        |_, _, _| Ok(()),
    );

    assert_eq!(progress.key_updates, vec![(0, 99)]);
    assert_eq!(progress.written, 0);
    assert_eq!(progress.error.as_deref(), Some("writeback mismatch"));
    assert!(!progress.disconnect);
}

#[test]
fn layer_write_runner_keeps_encoder_successes_before_failure() {
    let encoders = vec![(0, 0, 0, 20), (1, 1, 1, 21)];

    let progress = run_layer_writes(
        &[],
        &encoders,
        |_, _, _| KeyWriteOutcome::Saved,
        |_, _, keycode| {
            if keycode == 21 {
                Err("encoder write failed".into())
            } else {
                Ok(())
            }
        },
    );

    assert_eq!(progress.encoder_updates, vec![(0, 20)]);
    assert_eq!(progress.written, 1);
    assert_eq!(progress.error.as_deref(), Some("encoder write failed"));
    assert!(progress.disconnect);
}

#[test]
fn failed_layer_undo_requeues_desired_snapshot() {
    let old = LayerSnapshot { keycodes: vec![1, 2], encoder_keycodes: vec![] };
    let desired = LayerSnapshot { keycodes: vec![3, 4], encoder_keycodes: vec![] };
    let context = LayerWriteContext {
        layer: 0,
        old,
        desired: desired.clone(),
        action: "Undo".into(),
        total: 2,
        undo_behavior: LayerUndoBehavior::RetryDesired { requires_firmware: true },
    };

    assert_eq!(undo_after_layer_write(&context, true, true), Some((desired, true)));
    assert_eq!(undo_after_layer_write(&context, true, false), None);
}

#[test]
fn partial_normal_write_records_old_snapshot_for_undo() {
    let old = LayerSnapshot { keycodes: vec![1, 2], encoder_keycodes: vec![] };
    let context = LayerWriteContext {
        layer: 0,
        old: old.clone(),
        desired: LayerSnapshot { keycodes: vec![3, 4], encoder_keycodes: vec![] },
        action: "Paste".into(),
        total: 2,
        undo_behavior: LayerUndoBehavior::RecordOld,
    };

    assert_eq!(undo_after_layer_write(&context, true, true), Some((old, true)));
    assert_eq!(undo_after_layer_write(&context, false, true), None);
}

#[test]
fn mirror_pairing_takes_the_best_free_pair_first() {
    let mapping = mirror_key_mapping(4, true, &[(0, 2), (1, 2), (0, 3), (1, 3)]).expect("paired");
    assert_eq!(mapping, vec![2, 3, 0, 1]);
    assert_eq!(mirror_key_mapping(0, true, &[]), Err(LayerOperationError::UnevenKeyCount { count: 0 }));
}

#[test]
fn fill_reports_a_missing_layer() {
    let target = layout(2, &[10, 11], &[]);
    assert!(filled_layer_snapshot(&target, 1, 0x0001).is_none());
    assert_eq!(
        mirrored_layer_snapshot(&target, 3, Ok(vec![1, 0])),
        Err(LayerOperationError::MissingLayer)
    );
}

#[test]
fn lost_layer_worker_keeps_the_write_and_disconnects() {
    let mut app = EntropyApp::new(Language::English);
    app.hid_connected = true;
    let fallback = LayerWriteFallback {
        layer: 2,
        desired: LayerSnapshot { keycodes: vec![7, 8], encoder_keycodes: vec![9] },
        action: "layer_actions.fill",
        undo_behavior: LayerUndoBehavior::RetryDesired { requires_firmware: true },
    };
    app.recover_lost_layer_write(fallback);
    assert_eq!(
        app.pending_layer_write,
        Some(DeferredLayerWrite { layer: 2, keycodes: vec![7, 8], encoder_keycodes: vec![9] })
    );
    assert!(!app.hid_connected);
    assert!(app.hid_disconnect_pending);
    assert_eq!(
        app.status_msg,
        StatusMessage::Catalog {
            key: "layer_actions.write_task_failed",
            args: vec![
                ("action", StatusArg::Catalog("layer_actions.fill")),
                ("layer", StatusArg::Number(2)),
            ],
        }
    );
    assert_eq!(app.undo_stack.len(), 1);
    assert_eq!(
        app.undo_stack[0],
        UndoAction::Layer {
            layer: 2,
            old: LayerSnapshot { keycodes: vec![7, 8], encoder_keycodes: vec![9] },
            requires_firmware: true,
        }
    );
}

#[test]
fn polling_a_layer_write_takes_its_report_or_recovers_from_its_loss() {
    let fallback = || LayerWriteFallback {
        layer: 0,
        desired: LayerSnapshot { keycodes: vec![10, 11], encoder_keycodes: vec![] },
        action: "layer_actions.fill",
        undo_behavior: LayerUndoBehavior::RecordOld,
    };
    let mut app = EntropyApp::new(Language::English);
    app.layout = Some(layout(2, &[1, 2], &[]));
    assert!(!app.poll_layer_write(Err(std::sync::mpsc::TryRecvError::Empty)));

    let (sender, receiver) = std::sync::mpsc::channel::<LayerWriteResult>();
    app.layer_write_task = Some(LayerWriteTask { receiver, fallback: fallback() });
    let waiting = app.layer_write_task.as_ref().unwrap().receiver.try_recv();
    assert!(!app.poll_layer_write(waiting));
    assert!(app.layer_write_task.is_some());

    sender
        .send(LayerWriteResult {
            hid_returned: true,
            context: LayerWriteContext {
                layer: 0,
                old: LayerSnapshot { keycodes: vec![1, 2], encoder_keycodes: vec![] },
                desired: LayerSnapshot { keycodes: vec![10, 11], encoder_keycodes: vec![] },
                action: "layer_actions.fill",
                total: 2,
                undo_behavior: LayerUndoBehavior::RecordOld,
            },
            progress: LayerWriteProgress {
                key_updates: vec![(0, 10), (1, 11)],
                encoder_updates: vec![],
                written: 2,
                error: None,
                disconnect: false,
            },
        })
        .expect("receiver is live");
    let report = app.layer_write_task.as_ref().unwrap().receiver.try_recv();
    assert!(app.poll_layer_write(report));
    assert!(app.layer_write_task.is_none());
    assert!(app.hid_connected);
    assert_eq!(app.layout.as_ref().unwrap().layers[0], vec![10, 11]);
    assert_eq!(app.undo_stack.len(), 1);

    let (sender, receiver) = std::sync::mpsc::channel::<LayerWriteResult>();
    drop(sender);
    app.layer_write_task = Some(LayerWriteTask { receiver, fallback: fallback() });
    let gone = app.layer_write_task.as_ref().unwrap().receiver.try_recv();
    assert!(!app.poll_layer_write(gone));
    assert!(app.layer_write_task.is_none());
    assert!(!app.hid_connected);
    assert!(app.hid_disconnect_pending);
    assert_eq!(
        app.pending_layer_write,
        Some(DeferredLayerWrite { layer: 0, keycodes: vec![10, 11], encoder_keycodes: vec![] })
    );
}

#[test]
fn each_write_answer_is_recorded_and_says_whether_to_stop() {
    let fresh = || LayerWriteProgress {
        key_updates: vec![],
        encoder_updates: vec![],
        written: 0,
        error: None,
        disconnect: false,
    };
    let mut progress = fresh();
    assert!(!record_key_write(&mut progress, (3, 0, 3, 0x0029), KeyWriteOutcome::Saved));
    assert_eq!(progress.key_updates, vec![(3, 0x0029)]);
    assert_eq!(progress.written, 1);
    assert!(record_key_write(
        &mut progress,
        (4, 0, 4, 0x002A),
        KeyWriteOutcome::Mismatch { readback: 7, error: "mismatch".into() }
    ));
    assert_eq!(progress.key_updates, vec![(3, 0x0029), (4, 7)]);
    assert_eq!(progress.written, 1);
    assert_eq!(progress.error.as_deref(), Some("mismatch"));
    assert!(!progress.disconnect);

    let mut progress = fresh();
    assert!(record_key_write(&mut progress, (0, 0, 0, 1), KeyWriteOutcome::Failed("gone".into())));
    assert!(progress.key_updates.is_empty());
    assert!(progress.disconnect);

    let mut progress = fresh();
    assert!(!record_encoder_write(&mut progress, (1, 0, 1, 0x00E9), Ok(())));
    assert_eq!(progress.encoder_updates, vec![(1, 0x00E9)]);
    assert!(record_encoder_write(&mut progress, (2, 1, 0, 0x00EA), Err("gone".into())));
    assert_eq!(progress.encoder_updates, vec![(1, 0x00E9)]);
    assert_eq!(progress.written, 1);
    assert!(progress.disconnect);
}

#[test]
fn each_key_is_written_to_its_own_row_and_column() {
    let calls = std::cell::RefCell::new(Vec::new());
    let progress = run_layer_writes(
        &[(0, 1, 2, 10), (5, 3, 4, 11)],
        &[(2, 7, 1, 20)],
        |row, col, kc| {
            calls.borrow_mut().push((row, col, kc));
            KeyWriteOutcome::Saved
        },
        |device, direction, kc| {
            calls.borrow_mut().push((device, direction, kc));
            Ok(())
        },
    );
    assert_eq!(*calls.borrow(), vec![(1, 2, 10), (3, 4, 11), (7, 1, 20)]);
    assert_eq!(progress.written, 3);
    assert_eq!(progress.encoder_updates, vec![(2, 20)]);
}
