//! The modal editor for a single character's card: avatar, name, comment,
//! and description. Every field writes straight through to the character
//! as it's edited — there's no separate draft/Save step, so nothing is lost
//! by just closing the editor.

use vstd::prelude::*;

use crate::project_data::Character;

verus! {

/// A modal panel for editing one character, seeded from it when opened.
/// Every field here is the live value.
#[derive(Debug)]
pub struct CharacterCardEditor {
    /// Which character this editor session is for.
    pub character_id: u128,
    pub name: String,
    /// Same convention as `Character::avatar`.
    pub avatar: String,
    pub comment: String,
    pub description: String,
}

/// Widget-level messages from the editor's view.
#[derive(Debug)]
pub enum EditorMessage {
    /// The name input changed.
    NameChanged(String),
    /// The comment input changed.
    CommentChanged(String),
    /// The description text widget now holds this text.
    DescriptionEdited(String),
    /// The avatar "+" button was pressed; the system file picker is opened
    /// by the application shell, so this is a no-op here.
    ChangeAvatar,
    /// The file picker finished: `Some` with the chosen image path, or
    /// `None` if it was cancelled or failed.
    AvatarPicked(Option<String>),
    /// The "Delete" button was pressed.
    Delete,
    /// The "Close" button was pressed.
    Close,
}

/// What the editor reports back to the characters page.
#[derive(Debug)]
pub enum EditorEvent {
    /// Nothing for the caller to do.
    Nothing,
    /// A field changed and should be written straight through.
    NameChanged(String),
    CommentChanged(String),
    AvatarChanged(String),
    DescriptionChanged(String),
    /// "Delete" was pressed; the caller should confirm and, if accepted,
    /// remove the character.
    DeleteRequested,
    /// The editor was closed and should be dropped.
    Closed,
}

/// How the editor reacts to `msg`: its fields after, and the event.
pub open spec fn editor_step(
    pre: CharacterCardEditor,
    msg: EditorMessage,
    post: CharacterCardEditor,
    ev: EditorEvent,
) -> bool {
    match msg {
        EditorMessage::NameChanged(v) => post == CharacterCardEditor { name: v, ..pre }
            && ev == EditorEvent::NameChanged(v),
        EditorMessage::CommentChanged(v) => post == CharacterCardEditor { comment: v, ..pre }
            && ev == EditorEvent::CommentChanged(v),
        EditorMessage::DescriptionEdited(v) => post == CharacterCardEditor {
            description: v,
            ..pre
        } && ev == EditorEvent::DescriptionChanged(v),
        EditorMessage::ChangeAvatar => post == pre && ev == EditorEvent::Nothing,
        EditorMessage::AvatarPicked(Some(p)) => post == CharacterCardEditor { avatar: p, ..pre }
            && ev == EditorEvent::AvatarChanged(p),
        EditorMessage::AvatarPicked(None) => post == pre && ev == EditorEvent::Nothing,
        EditorMessage::Delete => post == pre && ev == EditorEvent::DeleteRequested,
        EditorMessage::Close => post == pre && ev == EditorEvent::Closed,
    }
}

impl CharacterCardEditor {
    pub fn new(character: &Character) -> (r: Self)
        ensures
            r.character_id == character.id,
            r.name == character.name,
            r.avatar == character.avatar,
            r.comment == character.comment,
            r.description == character.description,
    {
        CharacterCardEditor {
            character_id: character.id,
            name: character.name.clone(),
            avatar: character.avatar.clone(),
            comment: character.comment.clone(),
            description: character.description.clone(),
        }
    }

    /// Applies a message to the editor's own copy of the field so the view
    /// reflects it, and reports what the caller should write through.
    pub fn update(&mut self, message: EditorMessage) -> (r: EditorEvent)
        ensures
            editor_step(*old(self), message, *final(self), r),
    {
        match message {
            EditorMessage::NameChanged(value) => {
                self.name = value.clone();
                EditorEvent::NameChanged(value)
            },
            EditorMessage::CommentChanged(value) => {
                self.comment = value.clone();
                EditorEvent::CommentChanged(value)
            },
            EditorMessage::DescriptionEdited(value) => {
                self.description = value.clone();
                EditorEvent::DescriptionChanged(value)
            },
            EditorMessage::ChangeAvatar => EditorEvent::Nothing,
            EditorMessage::AvatarPicked(path) => match path {
                Some(path) => {
                    self.avatar = path;
                    EditorEvent::AvatarChanged(self.avatar.clone())
                },
                None => EditorEvent::Nothing,
            },
            EditorMessage::Delete => EditorEvent::DeleteRequested,
            EditorMessage::Close => EditorEvent::Closed,
        }
    }
}

} // verus!
