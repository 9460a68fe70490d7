use dreaming_wizard::story_block::{BlockContent, BlockKind, ChoiceOption, StoryBlock};
use dreaming_wizard::story_node::StoryNode;

fn narration(id: u128, text: &str) -> StoryBlock {
    StoryBlock { id, content: BlockContent::Narration { text: text.to_string() } }
}

fn choice(id: u128, options: Vec<(u128, &str, Option<u128>)>) -> StoryBlock {
    StoryBlock {
        id,
        content: BlockContent::Choice {
            options: options
                .into_iter()
                .map(|(oid, label, target)| ChoiceOption { id: oid, label: label.to_string(), target })
                .collect(),
        },
    }
}

#[test]
fn block_kind_labels_and_icons() {
    assert_eq!(BlockKind::Narration.label(), "block-narration");
    assert_eq!(BlockKind::Dialogue.label(), "block-dialogue");
    assert_eq!(BlockKind::Choice.label(), "block-choice");
    assert_eq!(BlockKind::Directive.label(), "block-directive");
    assert_eq!(BlockKind::Note.label(), "block-note");
    assert_eq!(BlockKind::Narration.icon_name(), "media-view-subtitles-symbolic");
    assert_eq!(BlockKind::Dialogue.icon_name(), "avatar-default-symbolic");
    assert_eq!(BlockKind::Choice.icon_name(), "object-select-symbolic");
    assert_eq!(BlockKind::Directive.icon_name(), "utilities-terminal-symbolic");
    assert_eq!(BlockKind::Note.icon_name(), "text-x-generic-symbolic");
    assert_eq!(BlockKind::ALL.len(), 5);
}

#[test]
fn new_blocks_have_their_kind_and_are_empty() {
    for kind in BlockKind::ALL {
        let b = StoryBlock::new(kind);
        assert_eq!(b.kind(), kind);
        match &b.content {
            BlockContent::Narration { text } | BlockContent::Note { text } => assert!(text.is_empty()),
            BlockContent::Dialogue { speaker, text } => {
                assert!(speaker.is_none());
                assert!(text.is_empty());
            }
            BlockContent::Choice { options } => {
                assert_eq!(options.len(), 1);
                assert!(options[0].label.is_empty());
                assert!(options[0].target.is_none());
            }
            BlockContent::Directive { command, argument } => {
                assert!(command.is_empty());
                assert!(argument.is_empty());
            }
        }
    }
}

#[test]
fn prose_read_after_write() {
    let mut b = narration(1, "old");
    assert_eq!(b.prose(), Some("old"));
    b.set_prose("new text".to_string());
    assert_eq!(b.prose(), Some("new text"));
    assert_eq!(b.id, 1);
    let mut c = choice(2, vec![(3, "Go", None)]);
    assert_eq!(c.prose(), None);
    c.set_prose("ignored".to_string());
    assert_eq!(c.prose(), None);
}

#[test]
fn matches_query_searches_every_text() {
    assert!(narration(1, "The Tavern door").matches_query("tavern"));
    assert!(!narration(1, "The Tavern door").matches_query("castle"));
    let dialogue = StoryBlock {
        id: 2,
        content: BlockContent::Dialogue { speaker: None, text: "Hello THERE".to_string() },
    };
    assert!(dialogue.matches_query("there"));
    assert!(choice(3, vec![(4, "Open the Bridge", None)]).matches_query("bridge"));
    assert!(!choice(3, vec![(4, "Open the Bridge", None)]).matches_query("door"));
    let directive = StoryBlock {
        id: 5,
        content: BlockContent::Directive { command: "play_music".to_string(), argument: "Tavern_Theme".to_string() },
    };
    assert!(directive.matches_query("tavern_theme"));
    assert!(directive.matches_query("play"));
    let note = StoryBlock { id: 6, content: BlockContent::Note { text: "TODO rewrite".to_string() } };
    assert!(note.matches_query("todo"));
}

#[test]
fn outgoing_targets_in_order_skipping_unlinked() {
    let mut node = StoryNode::new(1, "Start".to_string());
    node.blocks.push(narration(10, "intro"));
    node.blocks.push(choice(11, vec![(20, "Left", Some(2)), (21, "Stay", None), (22, "Right", Some(3))]));
    node.blocks.push(choice(12, vec![(23, "Back", Some(99))]));
    assert_eq!(node.outgoing_targets(), vec![2, 3, 99]);
}

#[test]
fn new_nodes_are_empty_and_distinct() {
    let a = StoryNode::fresh("Untitled".to_string());
    let b = StoryNode::fresh("Untitled".to_string());
    assert_eq!(a.title, "Untitled");
    assert!(a.blocks.is_empty());
    assert_ne!(a.id, b.id);
}
