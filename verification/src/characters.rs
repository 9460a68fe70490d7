//! The Characters page's model: the project's cast, the character whose
//! card editor is open, the card under the cursor, and the pending delete
//! confirmation. Scrolling and animation state belong to the view.

use std::time::Instant;

use vstd::prelude::*;

use crate::clock::{instant_now, pulse_running};
use crate::character_editor::{CharacterCardEditor, EditorEvent, EditorMessage};
use crate::dialogs::{ConfirmDialog, ConfirmDialogMessage, DialogView, UnsavedChangesMessage};
use crate::project_data::Character;

verus! {

/// The Characters page's model.
#[derive(Debug)]
pub struct CharactersPage {
    characters: Vec<Character>,
    /// Some while a character's editor is open.
    editor: Option<CharacterCardEditor>,
    /// The card currently under the cursor, if any.
    hovered: Option<u128>,
    /// Some while a delete confirmation is pending for this character.
    pending_delete: Option<(u128, ConfirmDialog)>,
    /// True while the unsaved-changes warning is shown over the editor.
    pending_unsaved_close: bool,
    /// `Some((character, started))` while a Find-triggered "found it" glow
    /// ring is fading in, holding or fading out.
    glow: Option<(u128, Instant)>,
}

/// The mathematical value of a `CharactersPage`.
pub struct CharactersView {
    pub characters: Seq<Character>,
    pub editor: Option<CharacterCardEditor>,
    pub hovered: Option<u128>,
    pub pending_delete: Option<(u128, DialogView)>,
    pub pending_unsaved_close: bool,
    /// The character whose glow ring is showing, if any.
    pub glow: Option<u128>,
}

impl View for CharactersPage {
    type V = CharactersView;

    closed spec fn view(&self) -> CharactersView {
        CharactersView {
            characters: self.characters@,
            editor: self.editor,
            hovered: self.hovered,
            pending_delete: match self.pending_delete {
                Some((id, d)) => Some((id, d@)),
                None => None,
            },
            pending_unsaved_close: self.pending_unsaved_close,
            glow: match self.glow {
                Some((id, _)) => Some(id),
                None => None,
            },
        }
    }
}

/// Messages the Characters page's model handles.
#[derive(Debug)]
pub enum CharactersMessage {
    /// A card was clicked; open its editor.
    CardClicked(u128),
    /// The cursor entered/left a card.
    CardHovered(u128),
    CardUnhovered,
    /// A card's hover-delete button was clicked.
    DeleteRequested(u128),
    /// Forwarded from the open confirmation dialog.
    ConfirmDelete(ConfirmDialogMessage),
    /// Add a new character with this (localized default) name.
    AddCharacter(String),
    /// Forwarded from the open card editor.
    Editor(EditorMessage),
    /// Forwarded from the unsaved-changes warning shown over the editor.
    UnsavedClose(UnsavedChangesMessage),
    /// One frame of an in-flight animation; drops the glow ring once it has
    /// run out.
    AnimationTick,
}

/// `i` is the position of the first character with id `id`.
pub open spec fn is_first_character(cs: Seq<Character>, id: u128, i: int) -> bool {
    &&& 0 <= i < cs.len()
    &&& cs[i].id == id
    &&& forall|k: int| 0 <= k < i ==> (#[trigger] cs[k]).id != id
}

/// The position of the first character with id `id`, if any.
pub open spec fn first_character(cs: Seq<Character>, id: u128) -> Option<int> {
    if exists|i: int| is_first_character(cs, id, i) {
        Some(choose|i: int| is_first_character(cs, id, i))
    } else {
        None
    }
}

/// `cs` without the characters whose id is `id`, order kept.
pub open spec fn without_character(cs: Seq<Character>, id: u128) -> Seq<Character>
    decreases cs.len(),
{
    if cs.len() == 0 {
        cs
    } else {
        let rest = without_character(cs.drop_last(), id);
        if cs.last().id == id {
            rest
        } else {
            rest.push(cs.last())
        }
    }
}

/// The name of the first character with id `id`, or empty when there is
/// none.
pub open spec fn character_name_or_empty(cs: Seq<Character>, id: u128) -> Seq<char> {
    match first_character(cs, id) {
        Some(i) => cs[i].name@,
        None => Seq::empty(),
    }
}

/// The dialog that asks before a character named `name` is deleted.
pub open spec fn character_delete_dialog(name: Seq<char>) -> DialogView {
    DialogView {
        title: "confirm-delete-character-title"@,
        message: "confirm-delete-character-message"@,
        dont_ask: None,
        argument: Some(name),
    }
}

/// The cast after `f` was applied to the first character with id `id`
/// (unchanged when there is none).
pub open spec fn write_through(
    cs: Seq<Character>,
    id: u128,
    f: spec_fn(Character) -> Character,
) -> Seq<Character> {
    match first_character(cs, id) {
        Some(i) => cs.update(i, f(cs[i])),
        None => cs,
    }
}

/// The cast with the open editor's fields written into its character.
pub open spec fn committed(s: CharactersView) -> Seq<Character> {
    match s.editor {
        Some(e) => write_through(
            s.characters,
            e.character_id,
            |c: Character|
                Character {
                    name: e.name,
                    avatar: e.avatar,
                    comment: e.comment,
                    description: e.description,
                    ..c
                },
        ),
        None => s.characters,
    }
}

/// The page after deleting character `id` (closing its editor if open).
pub open spec fn deleted(s: CharactersView, id: u128) -> CharactersView {
    CharactersView {
        characters: without_character(s.characters, id),
        hovered: None,
        pending_delete: None,
        editor: match s.editor {
            Some(e) => if e.character_id == id {
                None
            } else {
                s.editor
            },
            None => None,
        },
        ..s
    }
}

/// How the page handles every message except adding a character and the
/// editor's own messages: the next state and the returned id.
pub open spec fn page_step(s: CharactersView, msg: CharactersMessage) -> (CharactersView, Option<u128>) {
    match msg {
        CharactersMessage::CardClicked(id) => match first_character(s.characters, id) {
            Some(i) => (
                CharactersView {
                    editor: Some(
                        CharacterCardEditor {
                            character_id: s.characters[i].id,
                            name: s.characters[i].name,
                            avatar: s.characters[i].avatar,
                            comment: s.characters[i].comment,
                            description: s.characters[i].description,
                        },
                    ),
                    hovered: None,
                    ..s
                },
                Some(id),
            ),
            None => (s, None),
        },
        CharactersMessage::CardHovered(id) => (CharactersView { hovered: Some(id), ..s }, None),
        CharactersMessage::CardUnhovered => (CharactersView { hovered: None, ..s }, None),
        CharactersMessage::DeleteRequested(id) => (
            CharactersView {
                pending_delete: Some(
                    (id, character_delete_dialog(character_name_or_empty(s.characters, id))),
                ),
                ..s
            },
            None,
        ),
        CharactersMessage::ConfirmDelete(m) => match m {
            ConfirmDialogMessage::Cancel => (CharactersView { pending_delete: None, ..s }, None),
            ConfirmDialogMessage::DontAskToggled(c) => match s.pending_delete {
                Some((id, d)) => (
                    CharactersView {
                        pending_delete: Some((id, DialogView { dont_ask: Some(c), ..d })),
                        ..s
                    },
                    None,
                ),
                None => (s, None),
            },
            ConfirmDialogMessage::Confirm => match s.pending_delete {
                Some((id, _)) => (deleted(s, id), None),
                None => (s, None),
            },
        },
        CharactersMessage::UnsavedClose(m) => match m {
            UnsavedChangesMessage::Cancel => (
                CharactersView { pending_unsaved_close: false, ..s },
                None,
            ),
            UnsavedChangesMessage::Discard => (
                CharactersView { pending_unsaved_close: false, editor: None, ..s },
                None,
            ),
            UnsavedChangesMessage::Save => (
                CharactersView {
                    pending_unsaved_close: false,
                    characters: committed(s),
                    editor: None,
                    ..s
                },
                None,
            ),
        },
        _ => (s, None),
    }
}

/// How the page writes an editor event through to the cast.
pub open spec fn applied(s: CharactersView, id: u128, ev: EditorEvent) -> CharactersView {
    match ev {
        EditorEvent::Nothing => s,
        EditorEvent::NameChanged(v) => CharactersView {
            characters: write_through(s.characters, id, |c: Character| Character { name: v, ..c }),
            ..s
        },
        EditorEvent::CommentChanged(v) => CharactersView {
            characters: write_through(
                s.characters,
                id,
                |c: Character| Character { comment: v, ..c },
            ),
            ..s
        },
        EditorEvent::AvatarChanged(v) => CharactersView {
            characters: write_through(s.characters, id, |c: Character| Character { avatar: v, ..c }),
            ..s
        },
        EditorEvent::DescriptionChanged(v) => CharactersView {
            characters: write_through(
                s.characters,
                id,
                |c: Character| Character { description: v, ..c },
            ),
            ..s
        },
        EditorEvent::DeleteRequested => CharactersView {
            pending_delete: Some(
                (id, character_delete_dialog(character_name_or_empty(s.characters, id))),
            ),
            ..s
        },
        EditorEvent::Closed => CharactersView { editor: None, ..s },
    }
}

/// The page's whole contract.
pub open spec fn characters_update_spec(
    s: CharactersView,
    msg: CharactersMessage,
    post: CharactersView,
    r: Option<u128>,
) -> bool {
    match msg {
        CharactersMessage::AddCharacter(name) => {
            let c = post.characters.last();
            &&& post.characters.len() == s.characters.len() + 1
            &&& post.characters.drop_last() == s.characters
            &&& c.name == name
            &&& c.avatar@ == "default"@
            &&& c.comment@.len() == 0
            &&& c.description@.len() == 0
            &&& post == CharactersView { characters: post.characters, ..s }
            &&& r is None
        },
        CharactersMessage::AnimationTick => {
            &&& r is None
            &&& (post == s || post == CharactersView { glow: None, ..s })
        },
        CharactersMessage::Editor(m) => {
            &&& r is None
            &&& match s.editor {
                None => post == s,
                Some(e) => exists|e2: CharacterCardEditor, ev: EditorEvent|
                    crate::character_editor::editor_step(e, m, e2, ev) && post == applied(
                        CharactersView { editor: Some(e2), ..s },
                        e.character_id,
                        ev,
                    ),
            }
        },
        _ => (post, r) == page_step(s, msg),
    }
}

proof fn lemma_first_character_unique(cs: Seq<Character>, id: u128, i: int)
    requires
        is_first_character(cs, id, i),
    ensures
        first_character(cs, id) == Some(i),
{
    let j = choose|j: int| is_first_character(cs, id, j);
    if j < i {
        assert(cs[j].id != id);
    }
    if i < j {
        assert(cs[i].id != id);
    }
}

/// The position of the first character with id `id`.
fn find_character(cs: &Vec<Character>, id: u128) -> (r: Option<usize>)
    ensures
        match r {
            Some(i) => first_character(cs@, id) == Some(i as int),
            None => first_character(cs@, id) is None,
        },
{
    let n = cs.len();
    for i in 0..n
        invariant
            n == cs@.len(),
            forall|k: int| 0 <= k < i ==> (#[trigger] cs@[k]).id != id,
    {
        if cs[i].id == id {
            proof {
                assert(is_first_character(cs@, id, i as int));
                lemma_first_character_unique(cs@, id, i as int);
            }
            return Some(i);
        }
    }
    proof {
        assert(!exists|i: int| is_first_character(cs@, id, i));
    }
    None
}

impl CharactersPage {
    /// A page seeded with one placeholder character of the given
    /// (localized default) name, for the very first run.
    pub fn with_placeholder(name: String) -> (r: Self)
        ensures
            r@.characters.len() == 1,
            r@.characters[0].name == name,
            r@.characters[0].avatar@ == "default"@,
            r@.editor is None,
            r@.hovered is None,
            r@.pending_delete is None,
            !r@.pending_unsaved_close,
            r@.glow is None,
    {
        let mut characters: Vec<Character> = Vec::new();
        characters.push(Character::named(name));
        CharactersPage {
            characters,
            editor: None,
            hovered: None,
            pending_delete: None,
            pending_unsaved_close: false,
            glow: None,
        }
    }

    /// A truly empty page, for resetting a session (e.g. a new project).
    pub fn empty() -> (r: Self)
        ensures
            r@.characters.len() == 0,
            r@.editor is None,
            r@.hovered is None,
            r@.pending_delete is None,
            !r@.pending_unsaved_close,
            r@.glow is None,
    {
        CharactersPage {
            characters: Vec::new(),
            editor: None,
            hovered: None,
            pending_delete: None,
            pending_unsaved_close: false,
            glow: None,
        }
    }

    /// The position of character `id` in the list, if it is there.
    pub fn character_index(&self, id: u128) -> (r: Option<usize>)
        ensures
            match r {
                Some(i) => first_character(self@.characters, id) == Some(i as int),
                None => first_character(self@.characters, id) is None,
            },
    {
        find_character(&self.characters, id)
    }

    /// Starts character `id`'s "found it" glow ring, if it is on the page,
    /// and returns its position so the caller can scroll to it; a stale id
    /// changes nothing.
    pub fn focus_character(&mut self, id: u128) -> (r: Option<usize>)
        ensures
            match r {
                Some(i) => first_character(old(self)@.characters, id) == Some(i as int)
                    && final(self)@ == (CharactersView { glow: Some(id), ..old(self)@ }),
                None => first_character(old(self)@.characters, id) is None && final(self)@
                    == old(self)@,
            },
    {
        let r = find_character(&self.characters, id);
        if r.is_some() {
            self.glow = Some((id, instant_now()));
        }
        r
    }

    /// The character whose glow ring is showing, if any.
    pub fn glow_character(&self) -> (r: Option<u128>)
        ensures
            r == self@.glow,
    {
        match &self.glow {
            Some((id, _)) => Some(*id),
            None => None,
        }
    }

    /// Whether the glow ring is still fading in, holding or fading out.
    /// Only a started glow can be; how far it has run depends on the clock.
    pub fn is_glow_active(&self) -> (r: bool)
        ensures
            r ==> self@.glow is Some,
    {
        match &self.glow {
            Some((_, started)) => pulse_running(started),
            None => false,
        }
    }

    /// An animation frame once the glow's state is known: the glow ring is
    /// dropped when it has run out.
    pub fn tick_glow(&mut self, glow_active: bool)
        ensures
            final(self)@ == if glow_active {
                old(self)@
            } else {
                CharactersView { glow: None, ..old(self)@ }
            },
    {
        if !glow_active {
            self.glow = None;
        }
    }

    /// The cast.
    pub fn characters(&self) -> (r: &Vec<Character>)
        ensures
            r@ == self@.characters,
    {
        &self.characters
    }

    /// The open card editor, if any.
    pub fn editor(&self) -> (r: Option<&CharacterCardEditor>)
        ensures
            match r {
                Some(e) => self@.editor == Some(*e),
                None => self@.editor is None,
            },
    {
        self.editor.as_ref()
    }

    /// Replaces the cast with that of a loaded project, closing any open
    /// card editor.
    pub fn load_characters(&mut self, characters: Vec<Character>)
        ensures
            final(self)@ == (CharactersView { characters: characters@, editor: None, ..old(self)@ }),
    {
        self.characters = characters;
        self.editor = None;
    }

    /// The card under the cursor, if any.
    pub fn hovered(&self) -> (r: Option<u128>)
        ensures
            r == self@.hovered,
    {
        self.hovered
    }

    /// The pending delete confirmation, if any.
    pub fn pending_delete(&self) -> (r: Option<&(u128, ConfirmDialog)>)
        ensures
            match r {
                Some(p) => self@.pending_delete == Some((p.0, p.1@)),
                None => self@.pending_delete is None,
            },
    {
        self.pending_delete.as_ref()
    }

    /// Whether the unsaved-changes warning is shown over the editor.
    pub fn pending_unsaved_close(&self) -> (r: bool)
        ensures
            r == self@.pending_unsaved_close,
    {
        self.pending_unsaved_close
    }

    /// Applies `f` to the first character with id `id`.
    fn set_field(&mut self, id: u128, field: u8, value: String)
        requires
            field < 4,
        ensures
            final(self)@ == (CharactersView {
                characters: write_through(
                    old(self)@.characters,
                    id,
                    |c: Character|
                        if field == 0 {
                            Character { name: value, ..c }
                        } else if field == 1 {
                            Character { comment: value, ..c }
                        } else if field == 2 {
                            Character { avatar: value, ..c }
                        } else {
                            Character { description: value, ..c }
                        },
                ),
                ..old(self)@
            }),
    {
        match find_character(&self.characters, id) {
            Some(i) => {
                let mut c = self.characters[i].clone();
                if field == 0 {
                    c.name = value;
                } else if field == 1 {
                    c.comment = value;
                } else if field == 2 {
                    c.avatar = value;
                } else {
                    c.description = value;
                }
                self.characters.set(i, c);
            },
            None => {},
        }
    }

    /// Writes the open editor's fields into its character, without closing
    /// the editor.
    pub fn commit_editor(&mut self)
        ensures
            final(self)@ == (CharactersView { characters: committed(old(self)@), ..old(self)@ }),
    {
        let editor = match &self.editor {
            Some(e) => e,
            None => {
                return ;
            },
        };
        match find_character(&self.characters, editor.character_id) {
            Some(i) => {
                let c = Character {
                    id: self.characters[i].id,
                    name: editor.name.clone(),
                    avatar: editor.avatar.clone(),
                    comment: editor.comment.clone(),
                    description: editor.description.clone(),
                };
                self.characters.set(i, c);
            },
            None => {},
        }
    }

    /// Deletes character `id` from the cast, closing its editor if open.
    fn delete_character(&mut self, id: u128)
        ensures
            final(self)@ == deleted(old(self)@, id),
    {
        let mut kept: Vec<Character> = Vec::new();
        let n = self.characters.len();
        for i in 0..n
            invariant
                n == self.characters@.len(),
                kept@ == without_character(self.characters@.take(i as int), id),
        {
            assert(self.characters@.take(i + 1).drop_last() == self.characters@.take(i as int));
            assert(self.characters@.take(i + 1).last() == self.characters@[i as int]);
            if self.characters[i].id != id {
                kept.push(self.characters[i].clone());
            }
        }
        assert(self.characters@.take(n as int) == self.characters@);
        self.characters = kept;
        self.hovered = None;
        self.pending_delete = None;
        let close = match &self.editor {
            Some(e) => e.character_id == id,
            None => false,
        };
        if close {
            self.editor = None;
        }
    }

    /// Applies a message. Returns `Some(id)` when a card was clicked and its
    /// editor opened.
    pub fn update(&mut self, message: CharactersMessage) -> (r: Option<u128>)
        ensures
            characters_update_spec(old(self)@, message, final(self)@, r),
    {
        match message {
            CharactersMessage::CardClicked(id) => {
                let i = match find_character(&self.characters, id) {
                    Some(i) => i,
                    None => {
                        return None;
                    },
                };
                self.editor = Some(CharacterCardEditor::new(&self.characters[i]));
                self.hovered = None;
                Some(id)
            },
            CharactersMessage::CardHovered(id) => {
                self.hovered = Some(id);
                None
            },
            CharactersMessage::CardUnhovered => {
                self.hovered = None;
                None
            },
            CharactersMessage::DeleteRequested(id) => {
                self.request_delete(id);
                None
            },
            CharactersMessage::ConfirmDelete(ConfirmDialogMessage::Cancel) => {
                self.pending_delete = None;
                None
            },
            CharactersMessage::ConfirmDelete(ConfirmDialogMessage::DontAskToggled(checked)) => {
                match self.pending_delete.take() {
                    Some((id, dialog)) => {
                        let mut dialog = dialog;
                        dialog.dont_ask = Some(checked);
                        self.pending_delete = Some((id, dialog));
                    },
                    None => {},
                }
                None
            },
            CharactersMessage::ConfirmDelete(ConfirmDialogMessage::Confirm) => {
                match &self.pending_delete {
                    Some((id, _)) => {
                        let id = *id;
                        self.delete_character(id);
                    },
                    None => {},
                }
                None
            },
            CharactersMessage::AddCharacter(name) => {
                let ghost pre = self@;
                self.characters.push(Character::named(name));
                assert(self@.characters.drop_last() =~= pre.characters);
                None
            },
            CharactersMessage::Editor(message) => {
                let ghost pre = self@;
                let mut editor = match self.editor.take() {
                    Some(e) => e,
                    None => {
                        return None;
                    },
                };
                let ghost e0 = editor;
                let ghost m = message;
                let event = editor.update(message);
                let character_id = editor.character_id;
                let ghost e2 = editor;
                let ghost ev = event;
                self.editor = Some(editor);
                let ghost mid = self@;
                assert(mid == CharactersView { editor: Some(e2), ..pre });
                assert(e2.character_id == e0.character_id);
                match event {
                    EditorEvent::Nothing => {},
                    EditorEvent::NameChanged(v) => self.set_field(character_id, 0, v),
                    EditorEvent::CommentChanged(v) => self.set_field(character_id, 1, v),
                    EditorEvent::AvatarChanged(v) => self.set_field(character_id, 2, v),
                    EditorEvent::DescriptionChanged(v) => self.set_field(character_id, 3, v),
                    EditorEvent::DeleteRequested => self.request_delete(character_id),
                    EditorEvent::Closed => {
                        self.editor = None;
                    },
                }
                assert(crate::character_editor::editor_step(e0, m, e2, ev));
                assert(self@ == applied(mid, e0.character_id, ev));
                None
            },
            CharactersMessage::AnimationTick => {
                let active = self.is_glow_active();
                self.tick_glow(active);
                None
            },
            CharactersMessage::UnsavedClose(UnsavedChangesMessage::Cancel) => {
                self.pending_unsaved_close = false;
                None
            },
            CharactersMessage::UnsavedClose(UnsavedChangesMessage::Discard) => {
                self.pending_unsaved_close = false;
                self.editor = None;
                None
            },
            CharactersMessage::UnsavedClose(UnsavedChangesMessage::Save) => {
                self.pending_unsaved_close = false;
                self.commit_editor();
                self.editor = None;
                None
            },
        }
    }

    /// Stores the delete confirmation for character `id`.
    fn request_delete(&mut self, id: u128)
        ensures
            final(self)@ == (CharactersView {
                pending_delete: Some(
                    (id, character_delete_dialog(character_name_or_empty(old(self)@.characters, id))),
                ),
                ..old(self)@
            }),
    {
        let name = match find_character(&self.characters, id) {
            Some(i) => self.characters[i].name.clone(),
            None => String::new(),
        };
        let dialog = ConfirmDialog::new(
            "confirm-delete-character-title".to_string(),
            "confirm-delete-character-message".to_string(),
        ).with_argument(name);
        self.pending_delete = Some((id, dialog));
    }
}

/// Law: after a confirmed delete no character with that id remains, every
/// other character is kept, and an editor open on it is closed.
pub proof fn lemma_delete_character(s: CharactersView, id: u128)
    ensures
        forall|k: int|
            0 <= k < deleted(s, id).characters.len() ==> (#[trigger] deleted(
                s,
                id,
            ).characters[k]).id != id,
        forall|k: int|
            0 <= k < s.characters.len() && (#[trigger] s.characters[k]).id != id ==> deleted(
                s,
                id,
            ).characters.contains(s.characters[k]),
        deleted(s, id).editor matches Some(e) ==> e.character_id != id,
    decreases s.characters.len(),
{
    if s.characters.len() > 0 {
        let init = s.characters.drop_last();
        lemma_delete_character(CharactersView { characters: init, ..s }, id);
        let rest = without_character(init, id);
        assert(deleted(CharactersView { characters: init, ..s }, id).characters == rest);
        assert forall|k: int| 0 <= k < deleted(s, id).characters.len() implies (#[trigger] deleted(
            s,
            id,
        ).characters[k]).id != id by {
            if k < rest.len() {
                assert(deleted(s, id).characters[k] == rest[k]);
            }
        }
        assert forall|k: int|
            0 <= k < s.characters.len() && (#[trigger] s.characters[k]).id != id implies deleted(
            s,
            id,
        ).characters.contains(s.characters[k]) by {
            if k < s.characters.len() - 1 {
                assert(init[k] == s.characters[k]);
                let j = choose|j: int| 0 <= j < rest.len() && rest[j] == init[k];
                if s.characters.last().id != id {
                    assert(rest.push(s.characters.last())[j] == s.characters[k]);
                }
            } else {
                assert(rest.push(s.characters.last())[rest.len() as int] == s.characters[k]);
            }
        }
    }
}

/// Law: a name typed into the open card editor reaches its character at
/// once — the cast shows the new name, the rest of the character and the
/// rest of the cast stay as they were, and the editor shows it too.
pub proof fn lemma_name_edit_writes_through(
    s: CharactersView,
    v: String,
    post: CharactersView,
    r: Option<u128>,
)
    requires
        s.editor is Some,
        first_character(s.characters, s.editor->0.character_id) is Some,
        characters_update_spec(s, CharactersMessage::Editor(EditorMessage::NameChanged(v)), post, r),
    ensures
        ({
            let i = first_character(s.characters, s.editor->0.character_id)->0;
            &&& post.characters.len() == s.characters.len()
            &&& post.characters[i] == Character { name: v, ..s.characters[i] }
            &&& forall|k: int|
                0 <= k < s.characters.len() && k != i ==> post.characters[k] == s.characters[k]
            &&& post.editor is Some
            &&& post.editor->0.name == v
        }),
{
    let e = s.editor->0;
    let (e2, ev) = choose|e2: CharacterCardEditor, ev: EditorEvent|
        crate::character_editor::editor_step(e, EditorMessage::NameChanged(v), e2, ev) && post
            == applied(CharactersView { editor: Some(e2), ..s }, e.character_id, ev);
    assert(ev == EditorEvent::NameChanged(v));
}



} // verus!
