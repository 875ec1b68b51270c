//! The pictogram editor's state: showing a bitmap, remembering states for undo, clearing
//! the canvas, and turning an edited built-in pictogram into a copy with a free name.
use vstd::prelude::*;

use crate::display_settings::{name_error, remember_pictogram_undo, undo_after_remember, SavedPictogram};
use crate::text::{decimal_digits, decimal_string, trim, trimmed};

verus! {

/// The threshold at which the editor turns levels into set pixels, before the user moves it.
pub const PICTOGRAM_DEFAULT_THRESHOLD: u8 = 128;

/// What the pictogram editor shows and edits.
#[derive(Clone, Debug)]
pub struct PictogramEditorState {
    /// The level at which a source level counts as a set pixel.
    pub threshold: u8,
    /// Whether set and clear pixels are swapped.
    pub inverted: bool,
    /// The name of the image file the source levels came from, if any (empty otherwise).
    pub source_file_name: String,
    /// The built-in pictogram the editor shows, if any.
    pub selected_builtin: Option<usize>,
    /// The level of each cell of the canvas.
    pub source_levels: Vec<u8>,
    /// The colour the pictogram is shown in.
    pub editor_color: [u8; 3],
    /// Earlier editor states, the oldest first.
    pub undo: Vec<Vec<u8>>,
    /// The saved pictogram the editor shows, if any.
    pub selected_saved_pictogram: Option<usize>,
    /// The name under which the pictogram would be saved.
    pub editor_name: String,
    /// The cell a stroke last reached, while one is drawn.
    pub editor_last_cell: Option<(u8, u8)>,
    /// The frame time (nanoseconds, monotonic clock) at which an edit is uploaded, if one
    /// waits.
    pub upload_due: Option<u64>,
}

/// A bitmap to show in the editor, with the built-in pictogram it is (if any) and the
/// levels of its cells.
#[derive(Clone, Debug)]
pub struct EditorBitmap {
    pub bitmap: Vec<u8>,
    pub builtin: Option<usize>,
    pub levels: Vec<u8>,
}

/// The first saved pictogram at or after `i` whose bitmap is `bitmap`.
pub open spec fn saved_index_from(saved: Seq<SavedPictogram>, bitmap: Seq<u8>, i: int) -> Option<usize>
    decreases saved.len() - i,
{
    if i < 0 || i >= saved.len() {
        None
    } else if saved[i].bitmap@ == bitmap {
        Some(i as usize)
    } else {
        saved_index_from(saved, bitmap, i + 1)
    }
}

/// The first saved pictogram whose bitmap is `bitmap`.
pub open spec fn saved_index_of(saved: Seq<SavedPictogram>, bitmap: Seq<u8>) -> Option<usize> {
    saved_index_from(saved, bitmap, 0)
}

/// The saved pictogram the editor selects for `bitmap`.
pub open spec fn selected_saved_for(saved: Seq<SavedPictogram>, bitmap: Option<EditorBitmap>) -> Option<usize> {
    match bitmap {
        Some(b) => saved_index_of(saved, b.bitmap@),
        None => None,
    }
}

/// The name the editor shows for `bitmap`: the saved pictogram's name, else the built-in
/// pictogram's, else the name of a new pictogram.
pub open spec fn editor_name_for(
    saved: Seq<SavedPictogram>,
    bitmap: Option<EditorBitmap>,
    builtin_names: Seq<String>,
    new_name: Seq<char>,
) -> Seq<char> {
    match selected_saved_for(saved, bitmap) {
        Some(j) => saved[j as int].name@,
        None => match bitmap {
            Some(b) => match b.builtin {
                Some(i) => builtin_names[i as int]@,
                None => new_name,
            },
            None => new_name,
        },
    }
}

/// Whether the built-in pictogram that `bitmap` is has a name, where the editor takes its
/// name from it (no saved pictogram has the bitmap).
pub open spec fn builtin_named(saved: Seq<SavedPictogram>, bitmap: Option<EditorBitmap>, builtin_names: Seq<String>) -> bool {
    match bitmap {
        Some(b) => match b.builtin {
            Some(i) => saved_index_of(saved, b.bitmap@) is None ==> i < builtin_names.len(),
            None => true,
        },
        None => true,
    }
}

/// Whether the editor shows `bitmap` afresh: default threshold, not inverted, no source
/// file, its levels (none without a bitmap) in `accent`, no undo history, the saved or
/// built-in pictogram it is with that one's name, no stroke and no upload waiting.
pub open spec fn shows_bitmap(
    e: PictogramEditorState,
    bitmap: Option<EditorBitmap>,
    accent: [u8; 3],
    saved: Seq<SavedPictogram>,
    builtin_names: Seq<String>,
    new_name: Seq<char>,
) -> bool {
    &&& e.threshold == PICTOGRAM_DEFAULT_THRESHOLD
    &&& !e.inverted
    &&& e.source_file_name@.len() == 0
    &&& e.selected_builtin == (match bitmap {
        Some(b) => b.builtin,
        None => None,
    })
    &&& e.source_levels@ == (match bitmap {
        Some(b) => b.levels@,
        None => Seq::<u8>::empty(),
    })
    &&& e.editor_color == accent
    &&& e.undo@.len() == 0
    &&& e.selected_saved_pictogram == selected_saved_for(saved, bitmap)
    &&& e.editor_name@ == editor_name_for(saved, bitmap, builtin_names, new_name)
    &&& e.editor_last_cell is None
    &&& e.upload_due is None
}

/// The `n`-th name tried for the copy of a built-in pictogram named `copy`: `copy` itself
/// first, then `copy` followed by a space and 2, 3, and so on.
pub open spec fn copy_candidate(copy: Seq<char>, n: nat) -> Seq<char> {
    if n <= 1 {
        copy
    } else {
        copy + " "@ + decimal_digits(n)
    }
}

/// Whether the `n`-th candidate name for the copy is free: a well-formed name that no
/// built-in and no saved pictogram has.
pub open spec fn copy_name_free(
    copy: Seq<char>,
    n: nat,
    saved: Seq<SavedPictogram>,
    builtin_names: Seq<String>,
) -> bool {
    name_error(copy_candidate(copy, n), saved, None, builtin_names) is None
}

/// The copy of the pictogram named `name`, by the name template around the name: the
/// name, or the name of a new pictogram where it is blank, between `prefix` and `suffix`.
pub open spec fn copy_name_of(name: Seq<char>, new_name: Seq<char>, prefix: Seq<char>, suffix: Seq<char>) -> Seq<
    char,
> {
    let base = if trimmed(name).len() == 0 {
        new_name
    } else {
        trimmed(name)
    };
    prefix + base + suffix
}

/// Whether the editor's name for a copy of a built-in pictogram can be found: some
/// candidate is free.
pub open spec fn copy_name_findable(
    e: PictogramEditorState,
    saved: Seq<SavedPictogram>,
    builtin_names: Seq<String>,
    new_name: Seq<char>,
    prefix: Seq<char>,
    suffix: Seq<char>,
) -> bool {
    e.selected_builtin is Some ==> exists|n: nat|
        1 <= n <= usize::MAX && #[trigger] copy_name_free(
            copy_name_of(e.editor_name@, new_name, prefix, suffix),
            n,
            saved,
            builtin_names,
        )
}

/// Whether `e` is `old` once an edited built-in pictogram was turned into a copy: nothing
/// changes unless a built-in pictogram is shown; then neither a built-in nor a saved
/// pictogram is selected, and the name is the first free candidate for the copy.
pub open spec fn detached(
    e: PictogramEditorState,
    old: PictogramEditorState,
    saved: Seq<SavedPictogram>,
    builtin_names: Seq<String>,
    new_name: Seq<char>,
    prefix: Seq<char>,
    suffix: Seq<char>,
) -> bool {
    if old.selected_builtin is None {
        e == old
    } else {
        let copy = copy_name_of(old.editor_name@, new_name, prefix, suffix);
        &&& e == (PictogramEditorState {
            selected_builtin: None,
            selected_saved_pictogram: None,
            editor_name: e.editor_name,
            ..old
        })
        &&& exists|n: nat|
            1 <= n && e.editor_name@ == copy_candidate(copy, n) && copy_name_free(copy, n, saved, builtin_names)
                && forall|m: nat| 1 <= m < n ==> !#[trigger] copy_name_free(copy, m, saved, builtin_names)
    }
}

proof fn lemma_saved_index_in_range(saved: Seq<SavedPictogram>, bitmap: Seq<u8>, i: int)
    ensures
        saved_index_from(saved, bitmap, i) matches Some(j) ==> j < saved.len(),
    decreases saved.len() - i,
{
    if 0 <= i < saved.len() {
        lemma_saved_index_in_range(saved, bitmap, i + 1);
    }
}

/// The first saved pictogram whose bitmap is `bitmap`, if any.
fn find_saved_bitmap(saved: &[SavedPictogram], bitmap: &Vec<u8>) -> (r: Option<usize>)
    ensures
        r == saved_index_of(saved@, bitmap@),
        r matches Some(j) ==> j < saved@.len(),
{
    proof {
        lemma_saved_index_in_range(saved@, bitmap@, 0);
    }
    let mut i: usize = saved.len();
    let mut found: Option<usize> = None;
    while i > 0
        invariant
            i <= saved@.len(),
            found == saved_index_from(saved@, bitmap@, i as int),
        decreases i,
    {
        i = i - 1;
        if bytes_equal(&saved[i].bitmap, bitmap) {
            found = Some(i);
        }
    }
    found
}

/// Whether two byte strings are equal.
fn bytes_equal(a: &Vec<u8>, b: &Vec<u8>) -> (r: bool)
    ensures
        r == (a@ == b@),
{
    if a.len() != b.len() {
        return false;
    }
    let mut i: usize = 0;
    while i < a.len()
        invariant
            a@.len() == b@.len(),
            i <= a@.len(),
            forall|j: int| 0 <= j < i ==> a@[j] == b@[j],
        decreases a@.len() - i,
    {
        if a[i] != b[i] {
            return false;
        }
        i = i + 1;
    }
    assert(a@ =~= b@);
    true
}

impl PictogramEditorState {
    /// Shows `bitmap` (none for an empty slot) afresh in the editor, as `shows_bitmap` says;
    /// `builtin_names` are the built-in pictograms' names and `new_name` the name of a new
    /// pictogram.
    pub fn set_bitmap(
        &mut self,
        bitmap: Option<EditorBitmap>,
        accent: [u8; 3],
        saved: &[SavedPictogram],
        builtin_names: &[String],
        new_name: &str,
    )
        requires
            builtin_named(saved@, bitmap, builtin_names@),
        ensures
            shows_bitmap(*final(self), bitmap, accent, saved@, builtin_names@, new_name@),
    {
        self.threshold = PICTOGRAM_DEFAULT_THRESHOLD;
        self.inverted = false;
        self.source_file_name = String::new();
        self.editor_color = accent;
        self.undo = Vec::new();
        self.editor_last_cell = None;
        self.upload_due = None;
        match bitmap {
            Some(b) => {
                let found = find_saved_bitmap(saved, &b.bitmap);
                self.selected_saved_pictogram = found;
                self.editor_name = match found {
                    Some(j) => saved[j].name.clone(),
                    None => match b.builtin {
                        Some(i) => builtin_names[i].clone(),
                        None => String::from_str(new_name),
                    },
                };
                self.selected_builtin = b.builtin;
                self.source_levels = b.levels;
            },
            None => {
                self.selected_builtin = None;
                self.source_levels = Vec::new();
                self.selected_saved_pictogram = None;
                self.editor_name = String::from_str(new_name);
            },
        }
    }

    /// Remembers the editor's current state, `current_levels` (the levels the editor shows
    /// for its source levels, threshold and inversion), for undo.
    pub fn remember_undo(&mut self, current_levels: Vec<u8>)
        ensures
            *final(self) == (PictogramEditorState { undo: final(self).undo, ..*old(self) }),
            final(self).undo@ == undo_after_remember(old(self).undo@, current_levels),
    {
        remember_pictogram_undo(&mut self.undo, current_levels);
    }

    /// Turns an edited built-in pictogram into a copy, as `detached` says: the copy's name
    /// is `prefix`, the editor's name (or `new_name` where it is blank) and `suffix`, and is
    /// followed by a space and the first number from 2 on that makes it free where it is
    /// taken.
    pub fn detach_builtin_for_edit(
        &mut self,
        saved: &[SavedPictogram],
        builtin_names: &[String],
        new_name: &str,
        prefix: &str,
        suffix: &str,
    )
        requires
            copy_name_findable(*old(self), saved@, builtin_names@, new_name@, prefix@, suffix@),
        ensures
            detached(*final(self), *old(self), saved@, builtin_names@, new_name@, prefix@, suffix@),
    {
        if self.selected_builtin.is_none() {
            return;
        }
        let base = trim(self.editor_name.as_str());
        let mut copy = String::from_str(prefix);
        if base.unicode_len() == 0 {
            copy.append(new_name);
        } else {
            copy.append(base);
        }
        copy.append(suffix);
        let ghost c = copy@;
        assert(c == copy_name_of(self.editor_name@, new_name@, prefix@, suffix@));
        let ghost w: nat = choose|n: nat|
            1 <= n <= usize::MAX && #[trigger] copy_name_free(c, n, saved@, builtin_names@);
        let mut candidate = copy.clone();
        let mut n: usize = 1;
        while pictogram_name_error_is_some(candidate.as_str(), saved, builtin_names)
            invariant
                1 <= n <= w,
                w <= usize::MAX,
                copy@ == c,
                copy_name_free(c, w, saved@, builtin_names@),
                candidate@ == copy_candidate(c, n as nat),
                forall|m: nat| 1 <= m < n ==> !#[trigger] copy_name_free(c, m, saved@, builtin_names@),
            decreases w - n,
        {
            assert(!copy_name_free(c, n as nat, saved@, builtin_names@));
            n = n + 1;
            let mut next = copy.clone();
            next.append(" ");
            let digits = decimal_string(n);
            next.append(digits.as_str());
            assert(next@ =~= copy_candidate(c, n as nat));
            candidate = next;
        }
        self.selected_builtin = None;
        self.selected_saved_pictogram = None;
        self.editor_name = candidate;
        assert(copy_name_free(c, n as nat, saved@, builtin_names@));
    }

    /// Clears the canvas for a new drawing of `cell_count` cells: the current state,
    /// `current_levels`, is remembered for undo, an edited built-in pictogram becomes a copy
    /// (as `detach_builtin_for_edit` does), and the canvas is blank at the default
    /// threshold, not inverted, with no source file, stroke or upload waiting.
    pub fn clear(
        &mut self,
        current_levels: Vec<u8>,
        cell_count: usize,
        saved: &[SavedPictogram],
        builtin_names: &[String],
        new_name: &str,
        prefix: &str,
        suffix: &str,
    )
        requires
            copy_name_findable(*old(self), saved@, builtin_names@, new_name@, prefix@, suffix@),
        ensures
            exists|mid: PictogramEditorState|
                {
                    &&& detached(
                        mid,
                        PictogramEditorState {
                            undo: mid.undo,
                            ..*old(self)
                        },
                        saved@,
                        builtin_names@,
                        new_name@,
                        prefix@,
                        suffix@,
                    )
                    &&& mid.undo@ == undo_after_remember(old(self).undo@, current_levels)
                    &&& *final(self) == (PictogramEditorState {
                        source_levels: final(self).source_levels,
                        source_file_name: final(self).source_file_name,
                        selected_builtin: None,
                        threshold: PICTOGRAM_DEFAULT_THRESHOLD,
                        inverted: false,
                        editor_last_cell: None,
                        upload_due: None,
                        ..mid
                    })
                },
            final(self).source_levels@ == Seq::new(cell_count as nat, |i: int| 0u8),
            final(self).source_file_name@.len() == 0,
    {
        let ghost start = *self;
        self.remember_undo(current_levels);
        let ghost remembered = *self;
        assert(remembered == (PictogramEditorState { undo: remembered.undo, ..start }));
        assert(remembered.editor_name == start.editor_name);
        assert(remembered.selected_builtin == start.selected_builtin);
        proof {
            if start.selected_builtin is Some {
                let c = copy_name_of(start.editor_name@, new_name@, prefix@, suffix@);
                let w: nat = choose|n: nat| 1 <= n <= usize::MAX && #[trigger] copy_name_free(c, n, saved@, builtin_names@);
                assert(copy_name_free(copy_name_of(remembered.editor_name@, new_name@, prefix@, suffix@), w, saved@, builtin_names@));
            }
        }
        self.detach_builtin_for_edit(saved, builtin_names, new_name, prefix, suffix);
        let ghost mid = *self;
        assert(mid.undo == remembered.undo);
        assert(remembered == (PictogramEditorState { undo: mid.undo, ..start }));
        let mut levels: Vec<u8> = Vec::new();
        let mut i: usize = 0;
        while i < cell_count
            invariant
                i <= cell_count,
                levels@ == Seq::new(i as nat, |j: int| 0u8),
            decreases cell_count - i,
        {
            levels.push(0);
            i = i + 1;
            assert(levels@ =~= Seq::new(i as nat, |j: int| 0u8));
        }
        self.source_levels = levels;
        self.source_file_name = String::new();
        self.selected_builtin = None;
        self.threshold = PICTOGRAM_DEFAULT_THRESHOLD;
        self.inverted = false;
        self.editor_last_cell = None;
        self.upload_due = None;
        assert(*self == (PictogramEditorState {
            source_levels: self.source_levels,
            source_file_name: self.source_file_name,
            selected_builtin: None,
            threshold: PICTOGRAM_DEFAULT_THRESHOLD,
            inverted: false,
            editor_last_cell: None,
            upload_due: None,
            ..mid
        }));
    }
}

/// Whether a candidate name gives an error.
fn pictogram_name_error_is_some(name: &str, saved: &[SavedPictogram], builtin_names: &[String]) -> (r: bool)
    ensures
        r == (name_error(name@, saved@, None, builtin_names@) is Some),
{
    crate::display_settings::pictogram_name_error(name, saved, None, builtin_names).is_some()
}

} // verus!
