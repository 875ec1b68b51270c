use entropy::display_settings::SavedPictogram;
use entropy::pictogram_editor::{EditorBitmap, PictogramEditorState};

fn editor() -> PictogramEditorState {
    PictogramEditorState {
        threshold: 90,
        inverted: true,
        source_file_name: "logo.png".to_owned(),
        selected_builtin: None,
        source_levels: vec![7; 4],
        editor_color: [1, 2, 3],
        undo: vec![vec![1]],
        selected_saved_pictogram: None,
        editor_name: "Old".to_owned(),
        editor_last_cell: Some((1, 1)),
        upload_due: Some(5),
    }
}

fn saved(name: &str, bitmap: Vec<u8>) -> SavedPictogram {
    SavedPictogram { name: name.to_owned(), color: [0, 0, 0], bitmap }
}

fn builtin_names() -> Vec<String> {
    vec!["Heart".to_owned(), "Star".to_owned()]
}

#[test]
fn showing_a_bitmap_resets_the_editor_and_names_it() {
    let library = vec![saved("Mine", vec![9, 9]), saved("Again", vec![1, 2])];
    let mut e = editor();
    let bitmap = EditorBitmap { bitmap: vec![1, 2], builtin: Some(1), levels: vec![0, 255] };
    e.set_bitmap(Some(bitmap), [10, 20, 30], &library, &builtin_names(), "New");
    assert_eq!(e.threshold, 128);
    assert!(!e.inverted);
    assert!(e.source_file_name.is_empty());
    assert_eq!(e.selected_builtin, Some(1));
    assert_eq!(e.source_levels, vec![0, 255]);
    assert_eq!(e.editor_color, [10, 20, 30]);
    assert!(e.undo.is_empty());
    assert_eq!(e.selected_saved_pictogram, Some(1));
    assert_eq!(e.editor_name, "Again");
    assert_eq!(e.editor_last_cell, None);
    assert_eq!(e.upload_due, None);

    let bitmap = EditorBitmap { bitmap: vec![4], builtin: Some(1), levels: vec![255] };
    e.set_bitmap(Some(bitmap), [10, 20, 30], &library, &builtin_names(), "New");
    assert_eq!(e.selected_saved_pictogram, None);
    assert_eq!(e.editor_name, "Star");

    e.set_bitmap(None, [0, 0, 0], &library, &builtin_names(), "New");
    assert_eq!(e.selected_builtin, None);
    assert!(e.source_levels.is_empty());
    assert_eq!(e.editor_name, "New");
}

#[test]
fn editing_a_builtin_pictogram_makes_a_copy_with_a_free_name() {
    let library = vec![saved("heart copy", vec![1]), saved("Heart copy 3", vec![2])];
    let mut e = editor();
    e.selected_builtin = Some(0);
    e.selected_saved_pictogram = Some(1);
    e.editor_name = "  Heart ".to_owned();
    e.detach_builtin_for_edit(&library, &builtin_names(), "New", "", " copy");
    assert_eq!(e.editor_name, "Heart copy 2");
    assert_eq!(e.selected_builtin, None);
    assert_eq!(e.selected_saved_pictogram, None);

    let mut blank = editor();
    blank.selected_builtin = Some(1);
    blank.editor_name = "   ".to_owned();
    blank.detach_builtin_for_edit(&library, &builtin_names(), "Drawing", "Copy of ", "");
    assert_eq!(blank.editor_name, "Copy of Drawing");

    let mut own = editor();
    own.detach_builtin_for_edit(&library, &builtin_names(), "New", "", " copy");
    assert_eq!(own.editor_name, "Old");
}

#[test]
fn clearing_remembers_the_state_and_blanks_the_canvas() {
    let mut e = editor();
    e.selected_builtin = Some(1);
    e.editor_name = "Star".to_owned();
    e.clear(vec![3, 3], 6, &[], &builtin_names(), "New", "", " copy");
    assert_eq!(e.undo, vec![vec![1], vec![3, 3]]);
    assert_eq!(e.source_levels, vec![0; 6]);
    assert!(e.source_file_name.is_empty());
    assert_eq!(e.selected_builtin, None);
    assert_eq!(e.threshold, 128);
    assert!(!e.inverted);
    assert_eq!(e.editor_last_cell, None);
    assert_eq!(e.upload_due, None);
    assert_eq!(e.editor_name, "Star copy");
    assert_eq!(e.editor_color, [1, 2, 3]);
}

#[test]
fn remembering_undo_keeps_the_newest_states() {
    let mut e = editor();
    e.undo = (0..64u8).map(|i| vec![i]).collect();
    e.remember_undo(vec![200]);
    assert_eq!(e.undo.len(), 64);
    assert_eq!(e.undo[0], vec![1]);
    assert_eq!(e.undo[63], vec![200]);
}
