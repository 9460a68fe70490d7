use vstd::prelude::*;

pub mod canvas;
pub mod character_editor;
pub mod characters;
pub mod clock;
pub mod config;
pub mod dialogs;
pub mod find;
pub mod ids;
pub mod node_editor;
pub mod paths;
pub mod pickers;
pub mod project_data;
pub mod project_dialogs;
pub mod project_files;
pub mod session;
pub mod settings;
pub mod story_block;
pub mod story_node;
pub mod text;

verus! {

} // verus!
