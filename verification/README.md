# Dreaming Wizard — story model library

The model behind a narrative authoring tool: a canvas of story nodes whose
content is an ordered list of typed blocks (narration, dialogue, choice,
directive, note), a cast of characters, the Find panel, the project
dialogs, and the naming and syncing of the files a project directory holds.
The library's logic is proved by Verus against `requires`/`ensures`
contracts. The few calls into std, `uuid` and `jiff` go through small
trusted wrappers whose contracts state what those libraries document, and
functions whose result depends on the clock state only what holds of every
reading.

Layout:

- `src/` — the verified library.
  - `story_block.rs`, `story_node.rs` — the content model.
  - `node_editor.rs` — the node editor's state machine (title and prose
    drafts, block add/remove/reorder, choice and directive fields).
  - `canvas.rs`, `characters.rs`, `character_editor.rs` — the two pages'
    models and how editor events are written through.
  - `find.rs`, `pickers.rs` — search results, the Find panel's state, and
    what the inline pickers offer.
  - `dialogs.rs`, `project_dialogs.rs`, `settings.rs`, `config.rs` — modal
    dialogs, preferences, and the persistent configuration.
  - `session.rs` — page-level decisions: what Ctrl+A adds, how Find opens
    and closes, and the guard against closing over unsaved changes.
  - `project_data.rs`, `project_files.rs`, `paths.rs`, `ids.rs`, `text.rs`,
    `clock.rs` — metadata, file naming and sync decisions, and the small
    string, path, identity and clock helpers they rest on.
- `tests/` — executable tests of the library.
- `app/` — a command-line front end: project directory reading and
  writing with serde, and the canvas's floating-point geometry.
