use entropy::app::{EntropyApp, StatusArg, StatusMessage};
use entropy::keyboard::{KeyboardLayout, Language, PhysicalEncoder, PhysicalKey};
use entropy::layer_operations::{capture_layer, LayerOperationError, LayerSnapshot};
use entropy::paste::{geometry_mapping, layer_snapshot_for_paste};

fn layout(keycodes: &[u16], encoder_keycodes: &[u16]) -> KeyboardLayout {
    KeyboardLayout {
        rows: 1,
        cols: keycodes.len(),
        keys: (0..keycodes.len()).map(|col| PhysicalKey { row: 0, col: col as u8 }).collect(),
        encoders: (0..encoder_keycodes.len())
            .map(|idx| PhysicalEncoder { encoder_idx: idx as u8, direction: 0 })
            .collect(),
        layers: vec![keycodes.to_vec()],
        encoder_layers: vec![encoder_keycodes.to_vec()],
    }
}

#[test]
fn geometry_matching_is_one_to_one_and_needs_equal_counts() {
    assert_eq!(
        geometry_mapping(4, 6, &[]),
        Err(LayerOperationError::KeyCountMismatch { source: 4, target: 6 })
    );
    assert_eq!(geometry_mapping(0, 0, &[]), Ok(vec![]));
    let mapping = geometry_mapping(3, 3, &[(0, 2), (1, 2), (1, 0), (2, 1), (2, 2)]).expect("matched");
    assert_eq!(mapping, vec![2, 0, 1]);
    assert_eq!(
        geometry_mapping(2, 2, &[(0, 1), (1, 1)]),
        Err(LayerOperationError::IncompatibleGeometry)
    );
}

#[test]
fn paste_maps_keycodes_and_keeps_encoders_without_a_mapping() {
    let copied = LayerSnapshot { keycodes: vec![10, 11, 12, 13], encoder_keycodes: vec![20] };
    let target = layout(&[1, 1, 1, 1], &[30, 31]);
    let pasted = layer_snapshot_for_paste(
        &copied,
        &target,
        0,
        Ok(vec![3, 0, 2, 1]),
        Err(LayerOperationError::KeyCountMismatch { source: 1, target: 2 }),
    )
    .expect("pasted");
    assert_eq!(pasted.keycodes, vec![13, 10, 12, 11]);
    assert_eq!(pasted.encoder_keycodes, vec![30, 31]);
    assert_eq!(
        layer_snapshot_for_paste(&copied, &target, 0, Err(LayerOperationError::IncompatibleGeometry), Ok(vec![])),
        Err(LayerOperationError::IncompatibleGeometry)
    );
    assert_eq!(
        layer_snapshot_for_paste(&copied, &target, 1, Ok(vec![0, 1, 2, 3]), Ok(vec![0, 0])),
        Err(LayerOperationError::MissingLayer)
    );
}

#[test]
fn copy_then_paste_round_trips_on_the_same_keyboard() {
    let mut app = EntropyApp::new(Language::English);
    assert!(!app.copy_selected_layer());
    assert!(matches!(
        app.status_msg,
        StatusMessage::Catalog { key: "layer_actions.no_connected_layer", .. }
    ));
    app.layout = Some(layout(&[10, 11, 12], &[20]));
    assert!(app.copy_selected_layer());
    assert_eq!(
        app.status_msg,
        StatusMessage::Catalog {
            key: "layer_actions.copied_status",
            args: vec![("layer", StatusArg::Number(0)), ("keys", StatusArg::Number(3))],
        }
    );
    let pasted = app.layer_paste_snapshot(Ok(vec![0, 1, 2]), Ok(vec![0])).expect("same keyboard");
    assert_eq!(pasted, LayerSnapshot { keycodes: vec![10, 11, 12], encoder_keycodes: vec![20] });
    app.selected_layer = 2;
    assert_eq!(
        app.layer_paste_snapshot(Ok(vec![0, 1, 2]), Ok(vec![0])),
        Err(LayerOperationError::MissingLayer)
    );
}

// The key positions of these layouts are in the comments; the candidate pairs
// (target, source) are those whose normalized positions lie within tolerance, nearest
// first, as the application measures them on the geometry.

#[test]
fn captures_whole_layer_for_same_keyboard_paste() {
    // Both layouts: keys at x = 0, 1, 4, 5.
    let source = layout(&[10, 11, 12, 13], &[20, 21]);
    let target = layout(&[1, 1, 1, 1], &[2, 2]);
    let copied = capture_layer(&source, 0).expect("source layer");
    let keys = geometry_mapping(4, 4, &[(0, 0), (1, 1), (2, 2), (3, 3)]);
    let encoders = geometry_mapping(2, 2, &[(0, 0), (1, 1)]);
    let pasted = layer_snapshot_for_paste(&copied, &target, 0, keys, encoders).expect("compatible layer");
    assert_eq!(pasted.keycodes, vec![10, 11, 12, 13]);
    assert_eq!(pasted.encoder_keycodes, vec![20, 21]);
}

#[test]
fn paste_maps_keycodes_by_geometry_when_storage_order_differs() {
    // Source keys at x = 0, 1, 4, 5; target keys at x = 5, 0, 4, 1.
    let source = layout(&[10, 11, 12, 13], &[]);
    let target = layout(&[1, 1, 1, 1], &[]);
    let copied = capture_layer(&source, 0).expect("source layer");
    let keys = geometry_mapping(4, 4, &[(0, 3), (1, 0), (2, 2), (3, 1)]);
    let encoders = geometry_mapping(0, 0, &[]);
    let pasted = layer_snapshot_for_paste(&copied, &target, 0, keys, encoders).expect("compatible geometry");
    assert_eq!(pasted.keycodes, vec![13, 10, 12, 11]);
}

#[test]
fn paste_rejects_equal_key_count_with_different_geometry() {
    // Source keys on a 2x2 grid; target keys in one row at x = 0, 1, 2, 3: only the
    // two corners of the row match.
    let source = layout(&[10, 11, 12, 13], &[]);
    let target = layout(&[1, 1, 1, 1], &[]);
    let copied = capture_layer(&source, 0).expect("source layer");
    let keys = geometry_mapping(4, 4, &[(0, 0), (3, 1)]);
    let encoders = geometry_mapping(0, 0, &[]);
    assert_eq!(
        layer_snapshot_for_paste(&copied, &target, 0, keys, encoders),
        Err(LayerOperationError::IncompatibleGeometry)
    );
}

#[test]
fn paste_requires_equal_key_count_but_preserves_incompatible_encoders() {
    // Both layouts: keys at x = 0, 1, 4, 5; one source encoder, two target encoders.
    let source = layout(&[10, 11, 12, 13], &[20]);
    let target = layout(&[1, 1, 1, 1], &[30, 31]);
    let copied = capture_layer(&source, 0).expect("source layer");
    let keys = geometry_mapping(4, 4, &[(0, 0), (1, 1), (2, 2), (3, 3)]);
    let encoders = geometry_mapping(1, 2, &[]);
    let pasted = layer_snapshot_for_paste(&copied, &target, 0, keys, encoders).expect("same key count");
    assert_eq!(pasted.keycodes, vec![10, 11, 12, 13]);
    assert_eq!(pasted.encoder_keycodes, vec![30, 31]);

    // A target of six keys in one row.
    let different_target = layout(&[1; 6], &[]);
    let keys = geometry_mapping(4, 6, &[]);
    let encoders = geometry_mapping(0, 0, &[]);
    assert_eq!(
        layer_snapshot_for_paste(&copied, &different_target, 0, keys, encoders),
        Err(LayerOperationError::KeyCountMismatch { source: 4, target: 6 })
    );
}
