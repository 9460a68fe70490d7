use dreaming_wizard::character_editor::{CharacterCardEditor, EditorEvent, EditorMessage};
use dreaming_wizard::characters::{CharactersMessage, CharactersPage};
use dreaming_wizard::dialogs::{ConfirmDialogMessage, UnsavedChangesMessage};
use dreaming_wizard::project_data::{resolve_avatar_path, Character, ProjectData};

fn character(id: u128, name: &str) -> Character {
    Character {
        id,
        name: name.to_string(),
        avatar: "default".to_string(),
        comment: String::new(),
        description: String::new(),
    }
}

#[test]
fn avatar_sentinels_and_extensions() {
    assert_eq!(resolve_avatar_path("default"), None);
    assert_eq!(resolve_avatar_path(""), None);
    assert_eq!(resolve_avatar_path("/img/a.png"), Some("/img/a.png"));
    assert_eq!(resolve_avatar_path("/img/a.JPG"), Some("/img/a.JPG"));
    assert_eq!(resolve_avatar_path("/img/a.jpeg"), Some("/img/a.jpeg"));
    assert_eq!(resolve_avatar_path("/img/a.gif"), None);
    assert_eq!(resolve_avatar_path("/img/noext"), None);
}

#[test]
fn avatar_paths_relative_on_disk_and_absolute_in_memory() {
    let mut c = character(1, "Aria");
    c.avatar = "/proj/assets/images/aria.png".to_string();
    assert_eq!(c.avatar_path(), Some("/proj/assets/images/aria.png"));
    assert_eq!(c.avatar_for_disk("/proj"), "assets/images/aria.png");
    assert_eq!(c.avatar_for_disk("/elsewhere"), "/proj/assets/images/aria.png");
    let mut loaded = character(1, "Aria");
    loaded.avatar = "assets/images/aria.png".to_string();
    loaded.resolve_avatar_on_load("/proj");
    assert_eq!(loaded.avatar, "/proj/assets/images/aria.png");
    let mut default = character(2, "Bram");
    assert_eq!(default.avatar_for_disk("/proj"), "default");
    default.resolve_avatar_on_load("/proj");
    assert_eq!(default.avatar, "default");
}

#[test]
fn new_characters_use_placeholder() {
    let c = Character::named("Aria".to_string());
    assert_eq!(c.name, "Aria");
    assert_eq!(c.avatar, "default");
    assert!(c.comment.is_empty() && c.description.is_empty());
    let d = Character::default();
    assert!(d.name.is_empty());
    assert_ne!(c.id, d.id);
}

#[test]
fn project_data_save_stamps() {
    let mut m = ProjectData::default();
    m.name = "Saga".to_string();
    m.stamp_save("2024-01-01T00:00:00Z".to_string(), "0.1.0".to_string());
    assert_eq!(m.created_at, "2024-01-01T00:00:00Z");
    assert_eq!(m.updated_at, "2024-01-01T00:00:00Z");
    assert_eq!(m.app_version, "0.1.0");
    m.stamp_save("2024-02-02T00:00:00Z".to_string(), "0.2.0".to_string());
    assert_eq!(m.created_at, "2024-01-01T00:00:00Z");
    assert_eq!(m.updated_at, "2024-02-02T00:00:00Z");
    assert_eq!(m.app_version, "0.2.0");
    assert_eq!(m.name, "Saga");
}

#[test]
fn project_data_record_save_uses_clock() {
    let mut m = ProjectData::default();
    assert!(m.record_save("1.0.0".to_string()));
    assert!(!m.created_at.is_empty());
    assert_eq!(m.created_at, m.updated_at);
    assert!(!m.updated_at.is_empty());
    assert!(m.created_at.ends_with('Z'));
    let first = m.created_at.clone();
    assert!(m.record_save("1.0.1".to_string()));
    assert_eq!(m.created_at, first);
    assert_eq!(m.app_version, "1.0.1");
}

#[test]
fn project_data_for_new_project() {
    let m = ProjectData::for_new_project(
        "/home/me/My Story",
        "Ann".to_string(),
        "draft".to_string(),
        "0.1.0".to_string(),
        "2024-01-01T00:00:00Z".to_string(),
    );
    assert_eq!(m.name, "My Story");
    assert_eq!(m.author, "Ann");
    assert_eq!(m.comment, "draft");
    assert!(m.repository.is_empty());
    assert_eq!(m.created_at, m.updated_at);
    assert_eq!(m.root_node, None);
    let n = ProjectData::created_in("/", "A".to_string(), String::new(), "0.1.0".to_string()).expect("clock");
    assert_eq!(n.name, "");
    assert!(!n.created_at.is_empty());
}

#[test]
fn card_editor_reports_each_field() {
    let c = character(1, "Aria");
    let mut e = CharacterCardEditor::new(&c);
    match e.update(EditorMessage::NameChanged("Arya".to_string())) {
        EditorEvent::NameChanged(v) => assert_eq!(v, "Arya"),
        other => panic!("unexpected {other:?}"),
    }
    assert_eq!(e.name, "Arya");
    assert!(matches!(e.update(EditorMessage::AvatarPicked(None)), EditorEvent::Nothing));
    assert!(matches!(e.update(EditorMessage::ChangeAvatar), EditorEvent::Nothing));
    match e.update(EditorMessage::AvatarPicked(Some("/x.png".to_string()))) {
        EditorEvent::AvatarChanged(v) => assert_eq!(v, "/x.png"),
        other => panic!("unexpected {other:?}"),
    }
    assert!(matches!(e.update(EditorMessage::Delete), EditorEvent::DeleteRequested));
    assert!(matches!(e.update(EditorMessage::Close), EditorEvent::Closed));
}

#[test]
fn characters_page_add_open_edit_delete() {
    let mut page = CharactersPage::empty();
    assert!(page.characters().is_empty());
    page.update(CharactersMessage::AddCharacter("New character".to_string()));
    assert_eq!(page.characters().len(), 1);
    assert_eq!(page.characters()[0].name, "New character");
    let id = page.characters()[0].id;
    page.update(CharactersMessage::CardHovered(id));
    assert_eq!(page.hovered(), Some(id));
    assert_eq!(page.update(CharactersMessage::CardClicked(id)), Some(id));
    assert!(page.editor().is_some());
    assert_eq!(page.hovered(), None);
    page.update(CharactersMessage::Editor(EditorMessage::NameChanged("Aria".to_string())));
    assert_eq!(page.characters()[0].name, "Aria");
    page.update(CharactersMessage::Editor(EditorMessage::DescriptionEdited("brave".to_string())));
    assert_eq!(page.characters()[0].description, "brave");
    page.update(CharactersMessage::Editor(EditorMessage::Delete));
    let (pending, dialog) = page.pending_delete().expect("dialog");
    assert_eq!(*pending, id);
    assert_eq!(dialog.title, "confirm-delete-character-title");
    assert_eq!(dialog.argument.as_deref(), Some("Aria"));
    page.update(CharactersMessage::ConfirmDelete(ConfirmDialogMessage::Confirm));
    assert!(page.characters().is_empty());
    assert!(page.editor().is_none());
}

#[test]
fn characters_page_placeholder_and_cancel() {
    let mut page = CharactersPage::with_placeholder("Someone".to_string());
    assert_eq!(page.characters().len(), 1);
    let id = page.characters()[0].id;
    assert_eq!(page.character_index(id), Some(0));
    assert_eq!(page.character_index(id.wrapping_add(1)), None);
    page.update(CharactersMessage::DeleteRequested(id));
    page.update(CharactersMessage::ConfirmDelete(ConfirmDialogMessage::Cancel));
    assert_eq!(page.characters().len(), 1);
    assert!(page.pending_delete().is_none());
    assert_eq!(page.update(CharactersMessage::CardClicked(id.wrapping_add(1))), None);
}

#[test]
fn characters_unsaved_close_choices() {
    let mut page = CharactersPage::empty();
    page.load_characters(vec![character(5, "Bram")]);
    page.update(CharactersMessage::CardClicked(5));
    page.update(CharactersMessage::UnsavedClose(UnsavedChangesMessage::Cancel));
    assert!(page.editor().is_some());
    assert!(!page.pending_unsaved_close());
    page.update(CharactersMessage::UnsavedClose(UnsavedChangesMessage::Discard));
    assert!(page.editor().is_none());
    page.update(CharactersMessage::CardClicked(5));
    page.commit_editor();
    assert_eq!(page.characters()[0].name, "Bram");
    page.update(CharactersMessage::UnsavedClose(UnsavedChangesMessage::Save));
    assert!(page.editor().is_none());
}

#[test]
fn characters_focus_starts_glow() {
    let mut page = CharactersPage::empty();
    page.load_characters(vec![character(5, "Bram"), character(6, "Cora")]);
    assert_eq!(page.focus_character(7), None);
    assert_eq!(page.glow_character(), None);
    assert_eq!(page.focus_character(6), Some(1));
    assert_eq!(page.glow_character(), Some(6));
    assert!(page.is_glow_active());
    page.update(CharactersMessage::AnimationTick);
    assert!(page.is_glow_active());
    page.tick_glow(false);
    assert!(!page.is_glow_active());
}

#[test]
fn characters_getters_mirror_fields() {
    let mut page = CharactersPage::empty();
    page.load_characters(vec![character(5, "Bram")]);
    assert_eq!(page.characters().len(), 1);
    assert!(page.editor().is_none());
    page.update(CharactersMessage::CardClicked(5));
    assert_eq!(page.editor().map(|e| e.character_id), Some(5));
}

#[test]
fn avatars_outside_the_project_survive_save_and_load() {
    for avatar in ["default", "", "/elsewhere/face.png", "/notes/readme.txt"] {
        let mut c = character(1, "Aria");
        c.avatar = avatar.to_string();
        let mut d = c.clone();
        d.avatar = c.avatar_for_disk("/proj");
        d.resolve_avatar_on_load("/proj");
        assert_eq!(d.avatar, avatar);
    }
}

#[test]
fn characters_load_replaces_cast_and_closes_editor() {
    let mut page = CharactersPage::empty();
    page.load_characters(vec![character(5, "Bram")]);
    page.update(CharactersMessage::CardClicked(5));
    assert!(page.editor().is_some());
    page.load_characters(vec![character(6, "Cora"), character(7, "Dax")]);
    assert!(page.editor().is_none());
    assert_eq!(page.characters().len(), 2);
}
