use dreaming_wizard::canvas::{root_if_present, CanvasMessage, CanvasPage};
use dreaming_wizard::dialogs::ConfirmDialogMessage;
use dreaming_wizard::node_editor::{DropdownId, EditorEvent, EditorMessage, InsertionLine, StoryNodeEditor};
use dreaming_wizard::story_block::{BlockContent, BlockKind, ChoiceOption, StoryBlock};
use dreaming_wizard::story_node::StoryNode;

fn narration(id: u128, text: &str) -> StoryBlock {
    StoryBlock { id, content: BlockContent::Narration { text: text.to_string() } }
}

fn sample_node() -> StoryNode {
    let mut node = StoryNode::new(1, "Start".to_string());
    node.blocks.push(narration(10, "Once upon a time"));
    node.blocks.push(StoryBlock {
        id: 11,
        content: BlockContent::Choice {
            options: vec![ChoiceOption { id: 20, label: "Go".to_string(), target: None }],
        },
    });
    node.blocks.push(StoryBlock { id: 12, content: BlockContent::Note { text: "todo".to_string() } });
    node
}

fn block_ids(blocks: &[StoryBlock]) -> Vec<u128> {
    blocks.iter().map(|b| b.id).collect()
}

#[test]
fn editor_opens_with_node_state() {
    let node = sample_node();
    let editor = StoryNodeEditor::new(&node);
    assert_eq!(editor.node_id(), 1);
    assert_eq!(editor.title(), "Start");
    assert!(editor.title_draft().is_none());
    assert_eq!(block_ids(editor.blocks()), vec![10, 11, 12]);
    assert_eq!(editor.prose_draft(10).map(|s| s.as_str()), Some("Once upon a time"));
    assert_eq!(editor.prose_draft(12).map(|s| s.as_str()), Some("todo"));
    assert!(editor.prose_draft(11).is_none());
    assert!(editor.editing_block().is_none());
}

#[test]
fn title_typed_then_saved() {
    let mut editor = StoryNodeEditor::new(&sample_node());
    assert!(matches!(editor.update(EditorMessage::TitleEdit), EditorEvent::Nothing));
    assert_eq!(editor.title_draft().map(|s| s.as_str()), Some("Start"));
    editor.update(EditorMessage::TitleDraftChanged("The Bridge".to_string()));
    match editor.update(EditorMessage::TitleSave) {
        EditorEvent::TitleChanged(t) => assert_eq!(t, "The Bridge"),
        other => panic!("unexpected event {other:?}"),
    }
    assert_eq!(editor.title(), "The Bridge");
    assert!(editor.title_draft().is_none());
}

#[test]
fn title_cancel_keeps_title() {
    let mut editor = StoryNodeEditor::new(&sample_node());
    editor.update(EditorMessage::TitleEdit);
    editor.update(EditorMessage::TitleDraftChanged("Oops".to_string()));
    assert!(matches!(editor.update(EditorMessage::TitleCancel), EditorEvent::Nothing));
    assert_eq!(editor.title(), "Start");
    assert!(editor.title_draft().is_none());
}

#[test]
fn title_draft_ignored_outside_edit_mode() {
    let mut editor = StoryNodeEditor::new(&sample_node());
    editor.update(EditorMessage::TitleDraftChanged("Ignored".to_string()));
    assert!(editor.title_draft().is_none());
    assert!(matches!(editor.update(EditorMessage::TitleSave), EditorEvent::Nothing));
    assert_eq!(editor.title(), "Start");
}

#[test]
fn prose_edit_then_save_writes_block() {
    let mut editor = StoryNodeEditor::new(&sample_node());
    editor.update(EditorMessage::BlockPressed(10));
    editor.update(EditorMessage::BlockReleased(10));
    assert_eq!(editor.editing_block(), Some(10));
    editor.update(EditorMessage::ProseEdited(10, "A new beginning".to_string()));
    match editor.update(EditorMessage::ProseSave(10)) {
        EditorEvent::BlocksChanged(blocks) => {
            assert_eq!(blocks[0].prose(), Some("A new beginning"));
            assert_eq!(block_ids(&blocks), vec![10, 11, 12]);
        }
        other => panic!("unexpected event {other:?}"),
    }
    assert_eq!(editor.blocks()[0].prose(), Some("A new beginning"));
    assert!(editor.editing_block().is_none());
}

#[test]
fn prose_cancel_discards_draft() {
    let mut editor = StoryNodeEditor::new(&sample_node());
    editor.update(EditorMessage::BlockPressed(10));
    editor.update(EditorMessage::BlockReleased(10));
    editor.update(EditorMessage::ProseEdited(10, "scratch".to_string()));
    assert!(matches!(editor.update(EditorMessage::ProseCancel(10)), EditorEvent::Nothing));
    assert_eq!(editor.prose_draft(10).map(|s| s.as_str()), Some("Once upon a time"));
    assert_eq!(editor.blocks()[0].prose(), Some("Once upon a time"));
    assert!(matches!(editor.update(EditorMessage::ProseSave(10)), EditorEvent::Nothing));
}

#[test]
fn close_commits_in_flight_draft() {
    let mut editor = StoryNodeEditor::new(&sample_node());
    editor.update(EditorMessage::BlockPressed(12));
    editor.update(EditorMessage::BlockReleased(12));
    editor.update(EditorMessage::ProseEdited(12, "done".to_string()));
    match editor.update(EditorMessage::Close) {
        EditorEvent::Closed(Some(blocks)) => assert_eq!(blocks[2].prose(), Some("done")),
        other => panic!("unexpected event {other:?}"),
    }
    let mut clean = StoryNodeEditor::new(&sample_node());
    assert!(matches!(clean.update(EditorMessage::Close), EditorEvent::Closed(None)));
}

#[test]
fn remove_block_without_confirmation() {
    let mut editor = StoryNodeEditor::new(&sample_node());
    match editor.update(EditorMessage::RemoveBlock(10)) {
        EditorEvent::BlocksChanged(blocks) => assert_eq!(block_ids(&blocks), vec![11, 12]),
        other => panic!("unexpected event {other:?}"),
    }
    assert!(editor.prose_draft(10).is_none());
}

#[test]
fn remove_block_with_confirmation_and_dont_ask() {
    let mut editor = StoryNodeEditor::new(&sample_node());
    editor.set_confirm_delete_blocks(true);
    assert!(matches!(editor.update(EditorMessage::RemoveBlock(11)), EditorEvent::Nothing));
    let (id, dialog) = editor.pending_delete().expect("dialog");
    assert_eq!(*id, 11);
    assert_eq!(dialog.title, "confirm-delete-block-title");
    assert_eq!(dialog.dont_ask, Some(false));
    editor.update(EditorMessage::ConfirmDelete(ConfirmDialogMessage::DontAskToggled(true)));
    match editor.update(EditorMessage::ConfirmDelete(ConfirmDialogMessage::Confirm)) {
        EditorEvent::BlocksChanged(blocks) => assert_eq!(block_ids(&blocks), vec![10, 12]),
        other => panic!("unexpected event {other:?}"),
    }
    assert!(!editor.confirm_delete_blocks());
    assert!(editor.take_confirm_disable());
    assert!(!editor.take_confirm_disable());
}

#[test]
fn add_block_appends_fresh_block() {
    let mut editor = StoryNodeEditor::new(&sample_node());
    match editor.update(EditorMessage::AddBlock(BlockKind::Dialogue)) {
        EditorEvent::BlocksChanged(blocks) => {
            assert_eq!(blocks.len(), 4);
            assert_eq!(blocks[3].kind(), BlockKind::Dialogue);
            assert_eq!(blocks[3].prose(), Some(""));
            assert_eq!(editor.prose_draft(blocks[3].id).map(|s| s.as_str()), Some(""));
        }
        other => panic!("unexpected event {other:?}"),
    }
}

#[test]
fn choice_option_edits() {
    let mut editor = StoryNodeEditor::new(&sample_node());
    editor.update(EditorMessage::DropdownToggled(DropdownId::ChoiceTarget { block: 11, option: 20 }));
    assert_eq!(editor.open_dropdown(), Some(DropdownId::ChoiceTarget { block: 11, option: 20 }));
    editor.update(EditorMessage::ChoiceTargetPicked { block: 11, option: 20, target: Some(7) });
    assert!(editor.open_dropdown().is_none());
    editor.update(EditorMessage::ChoiceLabelChanged { block: 11, option: 20, label: "Run".to_string() });
    match editor.update(EditorMessage::AddChoiceOption(11)) {
        EditorEvent::BlocksChanged(blocks) => match &blocks[1].content {
            BlockContent::Choice { options } => {
                assert_eq!(options.len(), 2);
                assert_eq!(options[0].label, "Run");
                assert_eq!(options[0].target, Some(7));
                assert!(options[1].label.is_empty());
                assert!(options[1].target.is_none());
            }
            _ => panic!("not a choice"),
        },
        other => panic!("unexpected event {other:?}"),
    }
    match editor.update(EditorMessage::RemoveChoiceOption { block: 11, option: 20 }) {
        EditorEvent::BlocksChanged(blocks) => match &blocks[1].content {
            BlockContent::Choice { options } => assert_eq!(options.len(), 1),
            _ => panic!("not a choice"),
        },
        other => panic!("unexpected event {other:?}"),
    }
    assert!(matches!(editor.update(EditorMessage::AddChoiceOption(10)), EditorEvent::Nothing));
}

#[test]
fn drag_reorders_blocks() {
    let mut editor = StoryNodeEditor::new(&sample_node());
    editor.update(EditorMessage::DragStart(10));
    editor.update(EditorMessage::DragMoved(40));
    editor.update(EditorMessage::DragOverRow(2));
    match editor.update(EditorMessage::DragDrop) {
        EditorEvent::BlocksChanged(blocks) => assert_eq!(block_ids(&blocks), vec![11, 12, 10]),
        other => panic!("unexpected event {other:?}"),
    }
    assert!(editor.drag().is_none());
}

#[test]
fn press_becomes_drag_past_threshold() {
    let mut editor = StoryNodeEditor::new(&sample_node());
    editor.update(EditorMessage::BlockPressed(12));
    editor.update(EditorMessage::DragMoved(100));
    editor.update(EditorMessage::DragMoved(106));
    assert!(editor.drag().is_none());
    editor.update(EditorMessage::DragMoved(107));
    let drag = editor.drag().expect("drag started");
    assert_eq!(drag.block, 12);
    assert_eq!(drag.cursor_y, Some(107));
    editor.update(EditorMessage::DragCancel);
    assert!(editor.drag().is_none());
    assert_eq!(block_ids(editor.blocks()), vec![10, 11, 12]);
}

#[test]
fn dialogue_speaker_and_directive_fields() {
    let mut node = StoryNode::new(2, "Talk".to_string());
    node.blocks.push(StoryBlock {
        id: 30,
        content: BlockContent::Dialogue { speaker: None, text: "Hi".to_string() },
    });
    node.blocks.push(StoryBlock {
        id: 31,
        content: BlockContent::Directive { command: String::new(), argument: String::new() },
    });
    let mut editor = StoryNodeEditor::new(&node);
    editor.update(EditorMessage::SpeakerPicked(30, Some(500)));
    editor.update(EditorMessage::DirectiveCommandChanged(31, "play_music".to_string()));
    editor.update(EditorMessage::DirectiveArgumentChanged(31, "tavern_theme".to_string()));
    match &editor.blocks()[0].content {
        BlockContent::Dialogue { speaker, text } => {
            assert_eq!(*speaker, Some(500));
            assert_eq!(text, "Hi");
        }
        _ => panic!("not dialogue"),
    }
    match &editor.blocks()[1].content {
        BlockContent::Directive { command, argument } => {
            assert_eq!(command, "play_music");
            assert_eq!(argument, "tavern_theme");
        }
        _ => panic!("not directive"),
    }
}

#[test]
fn canvas_add_click_edit_and_delete() {
    let mut canvas = CanvasPage::default();
    assert_eq!(canvas.update(CanvasMessage::AddNode("Untitled".to_string())), None);
    assert_eq!(canvas.nodes().len(), 1);
    assert_eq!(canvas.nodes()[0].title, "Untitled");
    assert!(canvas.take_content_dirty());
    assert!(!canvas.take_content_dirty());
    let id = canvas.nodes()[0].id;

    canvas.update(CanvasMessage::NodeHoverChanged(Some(id)));
    assert_eq!(canvas.hovered_node(), Some(id));
    assert_eq!(canvas.update(CanvasMessage::NodeClicked(id)), Some(id));
    assert!(canvas.editor().is_some());
    assert_eq!(canvas.hovered_node(), None);

    canvas.update(CanvasMessage::Editor(EditorMessage::TitleEdit));
    canvas.update(CanvasMessage::Editor(EditorMessage::TitleDraftChanged("Bridge".to_string())));
    canvas.update(CanvasMessage::Editor(EditorMessage::TitleSave));
    assert_eq!(canvas.nodes()[0].title, "Bridge");
    assert!(canvas.take_content_dirty());

    canvas.update(CanvasMessage::NodeDeleteRequested(id));
    let (pending, dialog) = canvas.pending_delete().expect("dialog");
    assert_eq!(*pending, id);
    assert_eq!(dialog.title, "confirm-delete-node-title");
    assert_eq!(dialog.argument.as_deref(), Some("Bridge"));
    canvas.update(CanvasMessage::ConfirmDelete(ConfirmDialogMessage::Confirm));
    assert!(canvas.nodes().is_empty());
    assert!(canvas.editor().is_none());
    assert!(canvas.pending_delete().is_none());
}

#[test]
fn canvas_click_on_missing_node_opens_nothing() {
    let mut canvas = CanvasPage::default();
    assert_eq!(canvas.update(CanvasMessage::NodeClicked(42)), None);
    assert!(canvas.editor().is_none());
}

#[test]
fn canvas_cancel_keeps_node_and_editor_close() {
    let node = sample_node();
    let mut canvas = CanvasPage::loaded(vec![node], Some(1));
    canvas.update(CanvasMessage::NodeDeleteRequested(1));
    canvas.update(CanvasMessage::ConfirmDelete(ConfirmDialogMessage::Cancel));
    assert_eq!(canvas.nodes().len(), 1);
    canvas.update(CanvasMessage::NodeClicked(1));
    canvas.update(CanvasMessage::Editor(EditorMessage::RemoveBlock(10)));
    assert_eq!(block_ids(&canvas.nodes()[0].blocks), vec![11, 12]);
    canvas.update(CanvasMessage::Editor(EditorMessage::Close));
    assert!(canvas.editor().is_none());
    assert_eq!(canvas.root_node(), Some(1));
    assert_eq!(canvas.node_index(1), Some(0));
    assert_eq!(canvas.node_index(2), None);
}

#[test]
fn canvas_moves_mark_dirty_only_for_known_nodes() {
    let mut canvas = CanvasPage::loaded(vec![sample_node()], None);
    canvas.update(CanvasMessage::NodeMoved(99));
    assert!(!canvas.take_content_dirty());
    canvas.update(CanvasMessage::NodeMoved(1));
    assert!(canvas.take_content_dirty());
}

#[test]
fn root_kept_only_when_present() {
    let nodes = vec![sample_node()];
    assert_eq!(root_if_present(Some(1), &nodes), Some(1));
    assert_eq!(root_if_present(Some(2), &nodes), None);
    assert_eq!(root_if_present(None, &nodes), None);
}

#[test]
fn canvas_focus_starts_glow_for_known_nodes() {
    let mut canvas = CanvasPage::loaded(vec![sample_node()], None);
    assert_eq!(canvas.focus_node(9), None);
    assert_eq!(canvas.glow_node(), None);
    assert!(!canvas.is_glow_active());
    assert_eq!(canvas.focus_node(1), Some(0));
    assert_eq!(canvas.glow_node(), Some(1));
    assert!(canvas.is_glow_active());
    canvas.update(CanvasMessage::AnimationTick);
    assert_eq!(canvas.glow_node(), Some(1));
    canvas.tick_glow(false);
    assert_eq!(canvas.glow_node(), None);
}

#[test]
fn drop_hint_matches_landing_row() {
    let mut editor = StoryNodeEditor::new(&sample_node());
    editor.update(EditorMessage::DragStart(12));
    assert_eq!(editor.insertion_line(), None);
    editor.update(EditorMessage::DragOverRow(2));
    assert_eq!(editor.insertion_line(), None);
    editor.update(EditorMessage::DragOverRow(0));
    assert_eq!(editor.insertion_line(), Some(InsertionLine::Before(0)));
    editor.update(EditorMessage::DragOverRow(7));
    assert_eq!(editor.insertion_line(), None);
    editor.update(EditorMessage::DragOverRow(0));
    match editor.update(EditorMessage::DragDrop) {
        EditorEvent::BlocksChanged(blocks) => assert_eq!(block_ids(&blocks), vec![12, 10, 11]),
        other => panic!("unexpected event {other:?}"),
    }
    editor.update(EditorMessage::DragStart(12));
    editor.update(EditorMessage::DragOverRow(1));
    assert_eq!(editor.insertion_line(), Some(InsertionLine::After(1)));
}

#[test]
fn canvas_getters_mirror_fields() {
    let mut canvas = CanvasPage::loaded(vec![sample_node()], Some(1));
    assert_eq!(canvas.nodes().len(), 1);
    assert_eq!(canvas.root_node(), Some(1));
    assert!(!canvas.confirm_delete_blocks());
    canvas.update(CanvasMessage::NodeClicked(1));
    let editor = canvas.editor().expect("editor open");
    assert_eq!(editor.title(), "Start");
    assert!(!editor.confirm_delete_blocks());
}

#[test]
fn content_flag_tracks_only_content_changes() {
    let mut canvas = CanvasPage::loaded(vec![sample_node()], None);
    canvas.update(CanvasMessage::NodeHoverChanged(Some(1)));
    canvas.update(CanvasMessage::NodeDeleteRequested(1));
    canvas.update(CanvasMessage::ConfirmDelete(ConfirmDialogMessage::Cancel));
    canvas.update(CanvasMessage::NodeClicked(1));
    canvas.update(CanvasMessage::Editor(EditorMessage::TitleEdit));
    canvas.update(CanvasMessage::AnimationTick);
    assert!(!canvas.take_content_dirty());
    canvas.update(CanvasMessage::Editor(EditorMessage::TitleSave));
    assert!(canvas.take_content_dirty());
    canvas.update(CanvasMessage::NodeDeleteRequested(1));
    canvas.update(CanvasMessage::ConfirmDelete(ConfirmDialogMessage::Confirm));
    assert!(canvas.take_content_dirty());
    assert!(!canvas.take_content_dirty());
}

#[test]
fn canvas_load_and_preference_mirror() {
    let mut canvas = CanvasPage::default();
    canvas.load(vec![sample_node()], Some(1));
    assert_eq!(canvas.nodes().len(), 1);
    assert_eq!(canvas.root_node(), Some(1));
    canvas.set_confirm_delete_blocks(true);
    assert!(canvas.confirm_delete_blocks());
    canvas.update(CanvasMessage::NodeClicked(1));
    assert!(canvas.editor().expect("open").confirm_delete_blocks());
}
