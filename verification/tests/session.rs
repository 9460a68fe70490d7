use dreaming_wizard::dialogs::{FindPanel, FindTarget, UnsavedChangesMessage};
use dreaming_wizard::session::{
    add_target, find_panel_after_page_update, find_target_for, open_find_panel, AddTarget, ExitAction, ExitGuard,
    Page,
};

#[test]
fn ctrl_a_adds_to_the_active_page() {
    assert_eq!(add_target(Some(Page::Canvas)), Some(AddTarget::Node));
    assert_eq!(add_target(Some(Page::Characters)), Some(AddTarget::Character));
    assert_eq!(add_target(None), None);
}

#[test]
fn find_opens_on_the_active_page_kind() {
    assert_eq!(find_target_for(Some(Page::Characters)), FindTarget::Character);
    assert_eq!(find_target_for(Some(Page::Canvas)), FindTarget::Node);
    assert_eq!(find_target_for(None), FindTarget::Node);
    let mut panel = None;
    open_find_panel(&mut panel, Some(Page::Characters));
    let p = panel.as_mut().expect("opened");
    assert_eq!(p.target, FindTarget::Character);
    p.query = "kept".to_string();
    open_find_panel(&mut panel, Some(Page::Canvas));
    assert_eq!(panel.as_ref().map(|p| (p.query.as_str(), p.target)), Some(("kept", FindTarget::Character)));
}

#[test]
fn opening_an_editor_closes_find() {
    assert!(find_panel_after_page_update(Some(3), Some(FindPanel::new(FindTarget::Node))).is_none());
    assert!(find_panel_after_page_update(None, Some(FindPanel::new(FindTarget::Node))).is_some());
}

#[test]
fn exit_guard_blocks_unsaved_close() {
    let mut guard = ExitGuard::new();
    assert!(!guard.on_app_exit(false));
    assert!(!guard.pending_exit_confirm);
    assert!(guard.on_app_exit(true));
    assert!(guard.pending_exit_confirm);
    assert_eq!(guard.on_unsaved_exit(UnsavedChangesMessage::Cancel), ExitAction::Stay);
    assert!(!guard.pending_exit_confirm);
    guard.on_app_exit(true);
    assert_eq!(guard.on_unsaved_exit(UnsavedChangesMessage::Discard), ExitAction::Exit);
    guard.on_app_exit(true);
    assert_eq!(guard.on_unsaved_exit(UnsavedChangesMessage::Save), ExitAction::SaveThenExit);
    assert!(!guard.pending_exit_confirm);
}
