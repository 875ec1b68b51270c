# entropy

The decision logic of the Entropy keyboard configurator's user interface, written in
Verus and proved against its contracts: what a click, a key press or a worker's report
does to the application state, which writes go to the keyboard, and what the status bar
then says.

## Layout

- `src/` is the verified library. Each module states its behaviour over spec functions
  and proves it; the laws that relate several operations are public proof functions
  (`lemma_*`).
  - `keyboard`, `keycode`, `text`: the layout model, keycode classes and string helpers.
  - `app`: the application state that the other modules read and change.
  - `key_assignment`, `key_writes`, `secondary_click`: middle-click assignments and their
    queue, the key and encoder writes handed to the keyboard worker, undo, and what a
    right click on a key or encoder does.
  - `layer_operations`, `mirror`, `paste`: filling, mirroring, copying and pasting whole
    layers, and the layer writes that follow.
  - `display_settings`, `display_writes`: colour fields, pictogram names and the pictogram
    editor's line tool, and the queue of display-setting writes.
  - `pictogram_editor`: the pictogram editor's state: showing a bitmap, undo history,
    clearing the canvas, and turning an edited built-in pictogram into a copy.
  - `emoji_assignment`, `emoji_writes`: writing an emoji macro and binding it, with
    rollback.
  - `layout_indicator`, `layout_indicator_window`, `layout_hints`, `layout_image_export`,
    `layout_device_dropdown`, `layer_led_settings`, `encoder_visibility_settings`,
    `file_dialog`: the state and captions of the remaining pages and windows.
- `tests/` runs the library on concrete inputs.
- `app/` holds what works on floating-point key geometry (mirror and paste matching),
  handing the integer decisions to the library.
