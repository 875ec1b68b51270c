use vstd::prelude::*;

verus! {

/// A switch of the key matrix, by its matrix position.
#[derive(Clone, Copy, Debug, PartialEq, Eq)]
pub struct PhysicalKey {
    pub row: u8,
    pub col: u8,
}

/// A rotary encoder: its firmware index and which of its two directions this slot is.
#[derive(Clone, Copy, Debug, PartialEq, Eq)]
pub struct PhysicalEncoder {
    pub encoder_idx: u8,
    pub direction: u8,
}

/// A keyboard layout: the physical keys and encoders, and the keycodes of every layer.
#[derive(Clone, Debug)]
pub struct KeyboardLayout {
    pub rows: usize,
    pub cols: usize,
    pub keys: Vec<PhysicalKey>,
    pub encoders: Vec<PhysicalEncoder>,
    pub layers: Vec<Vec<u16>>,
    pub encoder_layers: Vec<Vec<u16>>,
}

/// The keycodes of all layers, as sequences.
pub open spec fn rows_view(rows: Seq<Vec<u16>>) -> Seq<Seq<u16>> {
    rows.map_values(|row: Vec<u16>| row@)
}

/// The value at `(layer, idx)` of a table of rows; 0 where the table has none.
pub open spec fn table_at(rows: Seq<Seq<u16>>, layer: int, idx: int) -> u16 {
    if 0 <= layer < rows.len() && 0 <= idx < rows[layer].len() {
        rows[layer][idx]
    } else {
        0
    }
}

/// `rows` after writing `value` at `(layer, idx)`, where that cell exists.
pub open spec fn table_set(rows: Seq<Seq<u16>>, layer: int, idx: int, value: u16) -> Seq<Seq<u16>> {
    if 0 <= layer < rows.len() && 0 <= idx < rows[layer].len() {
        rows.update(layer, rows[layer].update(idx, value))
    } else {
        rows
    }
}

impl KeyboardLayout {
    pub open spec fn layer_table(self) -> Seq<Seq<u16>> {
        rows_view(self.layers@)
    }

    pub open spec fn encoder_table(self) -> Seq<Seq<u16>> {
        rows_view(self.encoder_layers@)
    }

    /// The keycode stored for `key` on `layer`; 0 where the layout has none.
    pub open spec fn keycode_at(self, layer: int, key: int) -> u16 {
        table_at(self.layer_table(), layer, key)
    }

    /// The keycode stored for encoder slot `encoder` on `layer`; 0 where the layout has none.
    pub open spec fn encoder_keycode_at(self, layer: int, encoder: int) -> u16 {
        table_at(self.encoder_table(), layer, encoder)
    }

    /// Every matrix index `row * cols + col` of a `u8` row and column fits in `usize`.
    pub open spec fn matrix_fits(self) -> bool {
        self.cols * 255 + 255 <= usize::MAX
    }

    /// The index of a matrix position in a row-major matrix of this layout's width.
    pub open spec fn matrix_index(self, row: u8, col: u8) -> int {
        row * self.cols + col
    }

    pub fn get_keycode(&self, layer: usize, key_idx: usize) -> (kc: u16)
        ensures
            kc == self.keycode_at(layer as int, key_idx as int),
    {
        if layer < self.layers.len() && key_idx < self.layers[layer].len() {
            self.layers[layer][key_idx]
        } else {
            0
        }
    }

    pub fn get_encoder_keycode(&self, layer: usize, encoder_idx: usize) -> (kc: u16)
        ensures
            kc == self.encoder_keycode_at(layer as int, encoder_idx as int),
    {
        if layer < self.encoder_layers.len() && encoder_idx < self.encoder_layers[layer].len() {
            self.encoder_layers[layer][encoder_idx]
        } else {
            0
        }
    }

    /// Writes `keycode` for `key_idx` on `layer`; a position outside the layout is ignored.
    pub fn set_keycode(&mut self, layer: usize, key_idx: usize, keycode: u16)
        ensures
            final(self).layer_table() == table_set(
                old(self).layer_table(),
                layer as int,
                key_idx as int,
                keycode,
            ),
            final(self).layers@.len() == old(self).layers@.len(),
            final(self).encoder_layers == old(self).encoder_layers,
            final(self).keys == old(self).keys,
            final(self).encoders == old(self).encoders,
            final(self).rows == old(self).rows,
            final(self).cols == old(self).cols,
    {
        if layer < self.layers.len() && key_idx < self.layers[layer].len() {
            self.layers[layer].set(key_idx, keycode);
        }
        assert(self.layer_table() =~= table_set(
            old(self).layer_table(),
            layer as int,
            key_idx as int,
            keycode,
        ));
    }

    /// Writes `keycode` for encoder slot `encoder_idx` on `layer`; a slot outside the
    /// layout is ignored.
    pub fn set_encoder_keycode(&mut self, layer: usize, encoder_idx: usize, keycode: u16)
        ensures
            final(self).encoder_table() == table_set(
                old(self).encoder_table(),
                layer as int,
                encoder_idx as int,
                keycode,
            ),
            final(self).encoder_layers@.len() == old(self).encoder_layers@.len(),
            final(self).layers == old(self).layers,
            final(self).keys == old(self).keys,
            final(self).encoders == old(self).encoders,
            final(self).rows == old(self).rows,
            final(self).cols == old(self).cols,
    {
        if layer < self.encoder_layers.len() && encoder_idx < self.encoder_layers[layer].len() {
            self.encoder_layers[layer].set(encoder_idx, keycode);
        }
        assert(self.encoder_table() =~= table_set(
            old(self).encoder_table(),
            layer as int,
            encoder_idx as int,
            keycode,
        ));
    }
}

/// A combo: up to four trigger keycodes (0 marks an unused slot) that together emit
/// `output`, optionally only on one layer.
#[derive(Clone, Copy, Debug, PartialEq, Eq)]
pub struct ComboEntry {
    pub keys: [u16; 4],
    pub output: u16,
    pub layer: Option<u8>,
}

/// A tap-dance entry: the keycodes for tap, hold, double tap and tap-then-hold, and the
/// tapping term in milliseconds.
#[derive(Clone, Copy, Debug, PartialEq, Eq, Default)]
pub struct TapDanceEntry {
    pub on_tap: u16,
    pub on_hold: u16,
    pub on_double_tap: u16,
    pub on_tap_hold: u16,
    pub tapping_term: u16,
}

/// The user-interface language.
#[derive(Clone, Copy, Debug, PartialEq, Eq)]
pub enum Language {
    English,
    Russian,
}

} // verus!
