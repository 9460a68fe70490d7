use dreaming_wizard::config::Config;
use dreaming_wizard::dialogs::{
    ConfirmDialog, FindMessage, FindPanel, FindTarget, PopupMessage, SimplePopup, UnsavedChangesMessage,
};
use dreaming_wizard::find::{find_results, result_at, FindAction, FindKey};
use dreaming_wizard::pickers::{choice_target_entries, choice_target_label, speaker_entries, speaker_label};
use dreaming_wizard::project_data::Character;
use dreaming_wizard::project_dialogs::{
    NewProjectDialog, NewProjectEvent, NewProjectMessage, SaveDialogEvent, SaveDialogMessage, SaveProjectDialog,
};
use dreaming_wizard::clock::{glow_active_after, is_pulse_active_at};
use dreaming_wizard::settings::{display_language, selected_language_index, SettingsMessage, SettingsPage};
use dreaming_wizard::story_block::{BlockContent, StoryBlock};
use dreaming_wizard::story_node::StoryNode;

fn character(id: u128, name: &str) -> Character {
    Character {
        id,
        name: name.to_string(),
        avatar: "default".to_string(),
        comment: String::new(),
        description: String::new(),
    }
}

fn nodes() -> Vec<StoryNode> {
    let mut a = StoryNode::new(1, "Tavern".to_string());
    a.blocks.push(StoryBlock { id: 10, content: BlockContent::Narration { text: "A dark night".to_string() } });
    let b = StoryNode::new(2, "Forest Path".to_string());
    let c = StoryNode::new(3, "Castle".to_string());
    vec![a, b, c]
}

#[test]
fn confirm_dialog_dont_ask() {
    let d = ConfirmDialog::new("t".to_string(), "m".to_string());
    assert_eq!(d.dont_ask, None);
    assert!(!d.dont_ask_again());
    let mut d = d.with_dont_ask();
    assert_eq!(d.dont_ask, Some(false));
    assert!(!d.dont_ask_again());
    d.dont_ask = Some(true);
    assert!(d.dont_ask_again());
}

#[test]
fn simple_popup_and_messages() {
    let p = SimplePopup::new("title".to_string(), "message".to_string());
    assert_eq!(p.title, "title");
    assert_eq!(p.message, "message");
    assert_eq!(PopupMessage::Close, PopupMessage::Close);
    assert_ne!(UnsavedChangesMessage::Save, UnsavedChangesMessage::Discard);
}

#[test]
fn find_target_index_roundtrip() {
    for t in FindTarget::ALL {
        assert_eq!(FindTarget::from_index(t.index()), t);
    }
    assert_eq!(FindTarget::from_index(7), FindTarget::Node);
    assert_eq!(FindTarget::Node.label(), "find-target-node");
    assert_eq!(FindTarget::Character.label(), "find-target-character");
}

#[test]
fn find_panel_messages() {
    let mut panel = FindPanel::new(FindTarget::Node);
    assert_eq!(panel.query, "");
    panel.highlighted = 2;
    assert_eq!(panel.update(FindMessage::QueryChanged("ta".to_string())), FindAction::Nothing);
    assert_eq!(panel.highlighted, 0);
    assert_eq!(panel.update(FindMessage::ResultHovered(1)), FindAction::Nothing);
    assert_eq!(panel.update(FindMessage::Confirm), FindAction::Select(1));
    assert_eq!(panel.update(FindMessage::ResultClicked(0)), FindAction::Select(0));
    assert_eq!(panel.update(FindMessage::TargetChanged(1)), FindAction::Nothing);
    assert_eq!(panel.target, FindTarget::Character);
    assert_eq!(panel.highlighted, 0);
    assert_eq!(panel.update(FindMessage::Close), FindAction::Close);
}

#[test]
fn find_panel_arrows_wrap() {
    let mut panel = FindPanel::new(FindTarget::Node);
    panel.move_up(3);
    assert_eq!(panel.highlighted, 2);
    panel.move_down(3);
    assert_eq!(panel.highlighted, 0);
    panel.move_down(3);
    assert_eq!(panel.highlighted, 1);
    panel.move_down(0);
    assert_eq!(panel.highlighted, 1);
    panel.highlighted = 5;
    panel.move_down(3);
    assert_eq!(panel.highlighted, 0);
    for start in 0..4 {
        panel.highlighted = start;
        panel.move_down(4);
        panel.move_up(4);
        assert_eq!(panel.highlighted, start);
    }
}

#[test]
fn find_nodes_by_title_and_content() {
    let nodes = nodes();
    let chars = vec![character(100, "Aria"), character(101, "Bram")];
    let mut panel = FindPanel::new(FindTarget::Node);
    panel.query = "TAVERN".to_string();
    let r = find_results(&panel, &nodes, &chars);
    assert_eq!(r.iter().map(|x| (x.id, x.label.as_str())).collect::<Vec<_>>(), vec![(1, "Tavern")]);
    panel.query = "dark".to_string();
    let r = find_results(&panel, &nodes, &chars);
    assert_eq!(r.iter().map(|x| x.id).collect::<Vec<_>>(), vec![1]);
    assert_eq!(r[0].label, "Tavern");
    panel.query = "a".to_string();
    let r = find_results(&panel, &nodes, &chars);
    assert_eq!(r.iter().map(|x| x.id).collect::<Vec<_>>(), vec![1, 2, 3]);
    assert_eq!(result_at(&r, 1), Some(2));
    assert_eq!(result_at(&r, 3), None);
}

#[test]
fn find_empty_query_lists_everything() {
    let nodes = nodes();
    let chars = vec![character(100, "Aria"), character(101, "Bram")];
    let panel = FindPanel::new(FindTarget::Node);
    assert_eq!(find_results(&panel, &nodes, &chars).len(), 3);
    let panel = FindPanel::new(FindTarget::Character);
    let r = find_results(&panel, &nodes, &chars);
    assert_eq!(r.iter().map(|x| (x.id, x.label.as_str())).collect::<Vec<_>>(), vec![(100, "Aria"), (101, "Bram")]);
}

#[test]
fn find_characters_by_name() {
    let nodes = nodes();
    let chars = vec![character(100, "Aria"), character(101, "Bram")];
    let mut panel = FindPanel::new(FindTarget::Character);
    panel.query = "BR".to_string();
    let r = find_results(&panel, &nodes, &chars);
    assert_eq!(r.iter().map(|x| x.id).collect::<Vec<_>>(), vec![101]);
    panel.query = "zz".to_string();
    assert!(find_results(&panel, &nodes, &chars).is_empty());
}

#[test]
fn choice_targets_exclude_current_node() {
    let nodes = nodes();
    let entries = choice_target_entries(2, &nodes);
    assert_eq!(
        entries.iter().map(|e| (e.id, e.label.as_str())).collect::<Vec<_>>(),
        vec![(1, "Tavern"), (3, "Castle")]
    );
    assert_eq!(choice_target_label(Some(3), &nodes), Some("Castle".to_string()));
    assert_eq!(choice_target_label(Some(9), &nodes), None);
    assert_eq!(choice_target_label(None, &nodes), None);
}

#[test]
fn speaker_picker_follows_renames() {
    let mut chars = vec![character(100, "Aria"), character(101, "Bram")];
    let entries = speaker_entries(&chars);
    assert_eq!(entries.iter().map(|e| e.id).collect::<Vec<_>>(), vec![100, 101]);
    assert_eq!(speaker_label(Some(101), &chars), Some("Bram".to_string()));
    chars[1].name = "Bramwell".to_string();
    assert_eq!(speaker_label(Some(101), &chars), Some("Bramwell".to_string()));
    assert_eq!(speaker_label(Some(7), &chars), None);
    assert_eq!(speaker_label(None, &chars), None);
}

#[test]
fn new_project_dialog_flow() {
    let mut d = NewProjectDialog::new(false);
    assert!(!d.can_cancel);
    assert!(matches!(d.update(NewProjectMessage::Confirm, false), NewProjectEvent::Nothing));
    assert_eq!(d.error.as_deref(), Some("new-project-error-incomplete"));
    d.update(NewProjectMessage::NameChanged("  My Story  ".to_string()), false);
    assert_eq!(d.error, None);
    assert_eq!(d.target_path(), None);
    d.update(NewProjectMessage::BaseDirPicked(None), false);
    assert_eq!(d.base_dir, None);
    d.update(NewProjectMessage::BaseDirPicked(Some("/home/me".to_string())), false);
    assert_eq!(d.target_path(), Some("/home/me/My Story".to_string()));
    d.update(NewProjectMessage::AuthorChanged(" Ann ".to_string()), false);
    d.update(NewProjectMessage::CommentChanged("draft ".to_string()), false);
    assert!(matches!(d.update(NewProjectMessage::Confirm, true), NewProjectEvent::Nothing));
    assert_eq!(d.error.as_deref(), Some("new-project-error-not-empty"));
    match d.update(NewProjectMessage::Confirm, false) {
        NewProjectEvent::Confirmed { path, author, comment } => {
            assert_eq!(path, "/home/me/My Story");
            assert_eq!(author, "Ann");
            assert_eq!(comment, "draft");
        }
        other => panic!("unexpected event {other:?}"),
    }
    assert!(matches!(d.update(NewProjectMessage::OpenExisting, false), NewProjectEvent::OpenExisting));
    assert!(matches!(d.update(NewProjectMessage::Cancel, false), NewProjectEvent::Cancelled));
    assert!(matches!(d.update(NewProjectMessage::Browse, false), NewProjectEvent::Nothing));
}

#[test]
fn new_project_blank_name_is_incomplete() {
    let mut d = NewProjectDialog::new(true);
    d.update(NewProjectMessage::BaseDirPicked(Some("/tmp".to_string())), false);
    d.update(NewProjectMessage::NameChanged("   ".to_string()), false);
    assert!(matches!(d.update(NewProjectMessage::Confirm, false), NewProjectEvent::Nothing));
    assert_eq!(d.error.as_deref(), Some("new-project-error-incomplete"));
}

#[test]
fn save_dialog_flow() {
    let mut d = SaveProjectDialog::new("Untitled".to_string());
    assert_eq!(d.draft_name, "Untitled");
    assert!(matches!(d.update(SaveDialogMessage::Confirm, false), SaveDialogEvent::Nothing));
    assert_eq!(d.error.as_deref(), Some("save-dialog-error-incomplete"));
    d.update(SaveDialogMessage::BaseDirPicked(Some("/p".to_string())), false);
    assert_eq!(d.error, None);
    assert!(matches!(d.update(SaveDialogMessage::Confirm, true), SaveDialogEvent::Nothing));
    assert_eq!(d.error.as_deref(), Some("save-dialog-error-not-empty"));
    d.update(SaveDialogMessage::NameChanged("Saga".to_string()), false);
    assert_eq!(d.error, None);
    match d.update(SaveDialogMessage::Confirm, false) {
        SaveDialogEvent::Confirmed(p) => assert_eq!(p, "/p/Saga"),
        other => panic!("unexpected event {other:?}"),
    }
    assert!(matches!(d.update(SaveDialogMessage::Cancel, false), SaveDialogEvent::Cancelled));
}

#[test]
fn settings_glow_timing() {
    assert!(is_pulse_active_at(0, 200, 1500, 800));
    assert!(is_pulse_active_at(2499, 200, 1500, 800));
    assert!(!is_pulse_active_at(2500, 200, 1500, 800));
    assert!(glow_active_after(1000));
    assert!(!glow_active_after(2500));
}

#[test]
fn settings_page_glow_lifecycle() {
    let mut page = SettingsPage::default();
    assert!(!page.is_glow_active());
    page.flash_language();
    assert!(page.is_glow_active());
    page.update(&SettingsMessage::AnimationTick);
    assert!(page.is_glow_active());
    page.apply(&SettingsMessage::AnimationTick, false);
    assert!(!page.is_glow_active());
    page.flash_language();
    page.apply(&SettingsMessage::AutosaveToggled(true), false);
    assert!(page.is_glow_active());
}

#[test]
fn language_names_and_radio() {
    assert_eq!(display_language("en"), "English");
    assert_eq!(display_language("de"), "de");
    let langs = vec!["en".to_string(), "de".to_string()];
    assert_eq!(selected_language_index(&None, &langs), 0);
    assert_eq!(selected_language_index(&Some("en".to_string()), &langs), 1);
    assert_eq!(selected_language_index(&Some("de".to_string()), &langs), 2);
    assert_eq!(selected_language_index(&Some("fr".to_string()), &langs), 0);
}

#[test]
fn config_defaults() {
    let c = Config::default();
    assert_eq!(c.last_project_path, None);
    assert!(!c.autosave);
    assert_eq!(c.autosave_interval_minutes, 5);
    assert!(c.reopen_last_project);
    assert_eq!(c.zoom_sensitivity_percent, 10);
    assert_eq!(c.preview_lines, 6);
    assert!(c.confirm_delete_nodes);
    assert!(c.confirm_delete_characters);
    assert!(!c.confirm_delete_blocks);
    assert_eq!(c.language, None);
}

#[test]
fn find_keys_move_and_select() {
    let mut panel = FindPanel::new(FindTarget::Node);
    panel.query = "q".to_string();
    assert_eq!(panel.on_key(FindKey::ArrowUp, 3), FindAction::Nothing);
    assert_eq!(panel.highlighted, 2);
    assert_eq!(panel.on_key(FindKey::ArrowDown, 3), FindAction::Nothing);
    assert_eq!(panel.highlighted, 0);
    assert_eq!(panel.on_key(FindKey::ArrowDown, 0), FindAction::Nothing);
    assert_eq!(panel.highlighted, 0);
    panel.on_key(FindKey::ArrowDown, 3);
    assert_eq!(panel.on_key(FindKey::Enter, 3), FindAction::Select(1));
    assert_eq!(panel.query, "q");
    assert_eq!(panel.target, FindTarget::Node);
}
