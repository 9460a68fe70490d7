//! Persistent, cross-launch application settings. Most fields are edited
//! on the Preferences page; each field falls back to its default when
//! missing on disk, so adding fields stays backward-compatible.

use vstd::prelude::*;

verus! {

/// App-wide settings that persist between runs.
#[derive(Debug, Clone, PartialEq, Eq)]
pub struct Config {
    /// The most recently saved or loaded project directory; `None` until
    /// the first successful save or load, and cleared again if that path
    /// ever fails to load.
    pub last_project_path: Option<String>,
    /// Periodically re-save the open project while it has unsaved changes.
    pub autosave: bool,
    /// Minutes between autosave checks while `autosave` is on.
    pub autosave_interval_minutes: u32,
    /// Auto-load `last_project_path` on startup.
    pub reopen_last_project: bool,
    /// Scroll-zoom speed on the canvas, in percent.
    pub zoom_sensitivity_percent: u32,
    /// How many lines a prose block shows in the node editor before
    /// ellipsizing, while not being edited.
    pub preview_lines: u32,
    /// Whether deleting each kind of thing asks for confirmation first.
    pub confirm_delete_nodes: bool,
    pub confirm_delete_characters: bool,
    pub confirm_delete_blocks: bool,
    /// UI language override as a language identifier (e.g. `"en"`);
    /// `None` follows the system locale.
    pub language: Option<String>,
}

impl Default for Config {
    /// Nothing opened yet, no autosave (every 5 minutes once on), reopen
    /// the last project, 10% zoom steps, 6 preview lines, ask before
    /// deleting nodes and characters but not blocks, system language.
    fn default() -> (r: Self)
        ensures
            r.last_project_path is None,
            !r.autosave,
            r.autosave_interval_minutes == 5,
            r.reopen_last_project,
            r.zoom_sensitivity_percent == 10,
            r.preview_lines == 6,
            r.confirm_delete_nodes,
            r.confirm_delete_characters,
            !r.confirm_delete_blocks,
            r.language is None,
    {
        Config {
            last_project_path: None,
            autosave: false,
            autosave_interval_minutes: 5,
            reopen_last_project: true,
            zoom_sensitivity_percent: 10,
            preview_lines: 6,
            confirm_delete_nodes: true,
            confirm_delete_characters: true,
            confirm_delete_blocks: false,
            language: None,
        }
    }
}

} // verus!
