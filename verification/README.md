# df_texture_helper

A library, and a desktop editor around it, for Dwarf Fortress graphics raw
files: tile page files (`[OBJECT:TILE_PAGE]`) and graphics files
(`[OBJECT:GRAPHICS]`) holding creatures, layer sets, layer groups, layers and
their conditions, statues, plants and tile graphics.

The library in `src/` is written in Verus and verified. Each reader is
specified line by line as a state machine over the bracketed fields of the
raw lines, each writer by the exact text it produces, and the editor's
operations (insert, delete, copy, cut, paste, undo, redo) by what they do to
the loaded files and the selection.

Layout of `src/`:

- `text`, `words`, `ordering`: characters, words, text order, stable sorting by key;
- `error`: the error type, block and file error positions, the error excerpt;
- `tokens`, `state`, `items`, `condition`: the tokens of the raw format;
- `lines`: raw lines and error lists shared by the readers;
- `layer`, `group`, `layer_set`, `creature`, `statue`, `tile`, `graphics_file`: readers and writers;
- `graphics`: a loaded mod, its files, bracket parsing and what is written back;
- `shared`, `gather`: what the creatures name, sorted for the editor's menus;
- `copy`: copies of the data known to equal their originals;
- `editor`: the editor's state and edits;
- `laws`: properties across operations.

`app/` holds the window (egui/eframe), the file dialogs, reading and writing
files, image loading, and the error window.
