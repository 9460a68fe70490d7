//! The side-panel editor for a single story node: its title plus the
//! ordered list of content blocks, laid out like a messaging thread.
//! Prose blocks read as plain text and switch into a Save/Cancel edit mode
//! when clicked; blocks reorder by dragging; a block deletes via a
//! hover-only button (after a confirmation when that preference is on).
//! Structural edits (add/remove/reorder, choice/directive fields) write
//! straight through to the node; prose and the title only commit on their
//! explicit Save.
//!
//! This module holds the editor's whole state and its message handling;
//! the text-editing widgets themselves live in the view, which reports the
//! edited prose back as `EditorMessage::ProseEdited`.

use std::collections::HashMap;

use vstd::prelude::*;

use crate::dialogs::{ConfirmDialog, ConfirmDialogMessage, DialogView};
use crate::story_block::{
    blocks_view, copy_blocks, copy_options, has_prose, is_fresh_content, options_view,
    prose_of, with_prose, BlockContent, BlockKind, BlockView, ChoiceOption, ContentView,
    OptionView, StoryBlock,
};
use crate::story_node::StoryNode;
use crate::text::str_eq;

verus! {

broadcast use vstd::std_specs::hash::group_hash_axioms;

/// How far (vertically, in pixels) a press must travel before it stops
/// being a click-to-edit and becomes a drag-to-reorder.
pub const DRAG_START_THRESHOLD: i64 = 6;

/// Which inline dropdown a given toggle press refers to.
#[derive(Debug, Clone, Copy, PartialEq, Eq, Structural)]
pub enum DropdownId {
    /// A dialogue block's speaker selector, by block id.
    Speaker(u128),
    /// A choice option's target selector.
    ChoiceTarget { block: u128, option: u128 },
}

/// An in-flight drag-to-reorder gesture.
#[derive(Debug, Clone, Copy)]
pub struct DragState {
    /// The block being dragged.
    pub block: u128,
    /// The cursor's Y (in pixels) within the block-list area, where the
    /// floating ghost is pinned; `None` until the first move arrives.
    pub cursor_y: Option<i32>,
    /// The row index the cursor last hovered, i.e. where the block will land
    /// on drop; `None` until some row is crossed.
    pub over_index: Option<usize>,
}

/// Where the drop-position hint shows while a block is dragged: a line
/// just above or just below the row the dragged block will take.
#[derive(Debug, Clone, Copy, PartialEq, Eq, Structural)]
pub enum InsertionLine {
    Before(usize),
    After(usize),
}

/// The side panel's state for one node.
#[derive(Debug)]
pub struct StoryNodeEditor {
    /// Which node this editor session is for.
    node_id: u128,
    /// The node's current (committed) title.
    title: String,
    /// `Some(draft)` while the header is in title-editing mode.
    title_draft: Option<String>,
    /// The live block list.
    blocks: Vec<StoryBlock>,
    /// The prose draft of each prose block, keyed by block id. While a block
    /// is being edited this holds the draft; it only reaches `blocks` when
    /// committed.
    prose_drafts: HashMap<u128, String>,
    /// The block row currently under the cursor, if any.
    hovered_block: Option<u128>,
    /// The prose block currently in edit mode, if any.
    editing_block: Option<u128>,
    /// The inline dropdown currently expanded, if any.
    open_dropdown: Option<DropdownId>,
    /// A press on a read-mode prose bubble that hasn't decided yet whether
    /// it's a click or a drag: `(block, first tracked cursor Y)`.
    pending_drag: Option<(u128, Option<i32>)>,
    /// Some while a drag-to-reorder is in flight.
    drag: Option<DragState>,
    /// Preferences mirror: whether removing a block asks first.
    confirm_delete_blocks: bool,
    /// Some while a block delete confirmation is pending for this block.
    pending_delete: Option<(u128, ConfirmDialog)>,
    /// Set when the delete dialog's "Don't ask again" was accepted.
    confirm_disable: bool,
}

/// The mathematical value of a `StoryNodeEditor`.
pub struct EditorView {
    pub node_id: u128,
    pub title: Seq<char>,
    pub title_draft: Option<Seq<char>>,
    pub blocks: Seq<BlockView>,
    pub drafts: Map<u128, Seq<char>>,
    pub hovered_block: Option<u128>,
    pub editing_block: Option<u128>,
    pub open_dropdown: Option<DropdownId>,
    pub pending_drag: Option<(u128, Option<i32>)>,
    pub drag: Option<DragState>,
    pub confirm_delete_blocks: bool,
    pub pending_delete: Option<(u128, DialogView)>,
    pub confirm_disable: bool,
}

/// The views of the prose drafts.
pub open spec fn drafts_view(m: Map<u128, String>) -> Map<u128, Seq<char>> {
    m.map_values(|s: String| s@)
}

impl View for StoryNodeEditor {
    type V = EditorView;

    closed spec fn view(&self) -> EditorView {
        EditorView {
            node_id: self.node_id,
            title: self.title@,
            title_draft: match self.title_draft {
                Some(d) => Some(d@),
                None => None,
            },
            blocks: blocks_view(self.blocks@),
            drafts: drafts_view(self.prose_drafts@),
            hovered_block: self.hovered_block,
            editing_block: self.editing_block,
            open_dropdown: self.open_dropdown,
            pending_drag: self.pending_drag,
            drag: self.drag,
            confirm_delete_blocks: self.confirm_delete_blocks,
            pending_delete: match self.pending_delete {
                Some((id, d)) => Some((id, d@)),
                None => None,
            },
            confirm_disable: self.confirm_disable,
        }
    }
}

/// What the editor reports back to its caller after handling a message.
#[derive(Debug)]
pub enum EditorEvent {
    /// Nothing for the caller to do.
    Nothing,
    /// A title edit was saved and should be written through to the node.
    TitleChanged(String),
    /// The block list changed; the caller should write the whole list
    /// through to the node.
    BlocksChanged(Vec<StoryBlock>),
    /// The editor was closed and should be dropped. Carries a final block
    /// write-through when closing auto-committed an in-flight prose draft.
    Closed(Option<Vec<StoryBlock>>),
}

/// The mathematical value of an `EditorEvent`.
pub enum EventView {
    Nothing,
    TitleChanged(Seq<char>),
    BlocksChanged(Seq<BlockView>),
    Closed(Option<Seq<BlockView>>),
}

impl View for EditorEvent {
    type V = EventView;

    open spec fn view(&self) -> EventView {
        match self {
            EditorEvent::Nothing => EventView::Nothing,
            EditorEvent::TitleChanged(t) => EventView::TitleChanged(t@),
            EditorEvent::BlocksChanged(b) => EventView::BlocksChanged(blocks_view(b@)),
            EditorEvent::Closed(Some(b)) => EventView::Closed(Some(blocks_view(b@))),
            EditorEvent::Closed(None) => EventView::Closed(None),
        }
    }
}

/// Widget-level messages from the editor's view.
#[derive(Debug)]
pub enum EditorMessage {
    /// Enter title-editing mode.
    TitleEdit,
    /// The title input changed while in title-editing mode.
    TitleDraftChanged(String),
    /// Commit the title draft.
    TitleSave,
    /// Drop the title draft.
    TitleCancel,
    /// Append a fresh block of this kind.
    AddBlock(BlockKind),
    /// Remove the block — after a confirmation when that preference is on.
    RemoveBlock(u128),
    /// Forwarded from the block delete-confirmation dialog.
    ConfirmDelete(ConfirmDialogMessage),
    /// The cursor entered/left a block row.
    BlockHoverEnter(u128),
    BlockHoverExit,
    /// A read-mode prose bubble was pressed — a click or the start of a drag.
    BlockPressed(u128),
    /// That press was released without turning into a drag.
    BlockReleased(u128),
    /// The text widget of a prose block now holds this draft.
    ProseEdited(u128, String),
    /// The editing bubble's Save/Cancel.
    ProseSave(u128),
    ProseCancel(u128),
    /// A block row's drag pill was pressed; start dragging it.
    DragStart(u128),
    /// The cursor moved to this Y (pixels) within the list area.
    DragMoved(i32),
    /// The cursor crossed this row while dragging.
    DragOverRow(usize),
    /// The button was released over the list; drop the dragged block.
    DragDrop,
    /// The cursor left the list mid-drag; abandon the gesture.
    DragCancel,
    /// An inline dropdown's face was pressed; expand or collapse it.
    DropdownToggled(DropdownId),
    /// A dialogue block's speaker selector picked a character.
    SpeakerPicked(u128, Option<u128>),
    /// A directive block's command/argument changed.
    DirectiveCommandChanged(u128, String),
    DirectiveArgumentChanged(u128, String),
    /// A choice option's label changed.
    ChoiceLabelChanged { block: u128, option: u128, label: String },
    /// A choice option's target selector picked a node.
    ChoiceTargetPicked { block: u128, option: u128, target: Option<u128> },
    /// Add an option to a choice block.
    AddChoiceOption(u128),
    /// Remove an option from a choice block.
    RemoveChoiceOption { block: u128, option: u128 },
    /// Close the editor.
    Close,
}

// ---------------------------------------------------------------------------
// Searching and editing block lists
// ---------------------------------------------------------------------------

/// `i` is the position of the first block with id `id`.
pub open spec fn is_first_block(blocks: Seq<BlockView>, id: u128, i: int) -> bool {
    &&& 0 <= i < blocks.len()
    &&& blocks[i].id == id
    &&& forall|k: int| 0 <= k < i ==> (#[trigger] blocks[k]).id != id
}

/// The position of the first block with id `id`, if any.
pub open spec fn first_block(blocks: Seq<BlockView>, id: u128) -> Option<int> {
    if exists|i: int| is_first_block(blocks, id, i) {
        Some(choose|i: int| is_first_block(blocks, id, i))
    } else {
        None
    }
}

/// `i` is the position of the first option with id `id`.
pub open spec fn is_first_option(options: Seq<OptionView>, id: u128, i: int) -> bool {
    &&& 0 <= i < options.len()
    &&& options[i].id == id
    &&& forall|k: int| 0 <= k < i ==> (#[trigger] options[k]).id != id
}

/// The position of the first option with id `id`, if any.
pub open spec fn first_option(options: Seq<OptionView>, id: u128) -> Option<int> {
    if exists|i: int| is_first_option(options, id, i) {
        Some(choose|i: int| is_first_option(options, id, i))
    } else {
        None
    }
}

/// `blocks` without every block whose id is `id`, order kept.
pub open spec fn without_block(blocks: Seq<BlockView>, id: u128) -> Seq<BlockView>
    decreases blocks.len(),
{
    if blocks.len() == 0 {
        blocks
    } else {
        let rest = without_block(blocks.drop_last(), id);
        if blocks.last().id == id {
            rest
        } else {
            rest.push(blocks.last())
        }
    }
}

/// `options` without every option whose id is `id`, order kept.
pub open spec fn without_option(options: Seq<OptionView>, id: u128) -> Seq<OptionView>
    decreases options.len(),
{
    if options.len() == 0 {
        options
    } else {
        let rest = without_option(options.drop_last(), id);
        if options.last().id == id {
            rest
        } else {
            rest.push(options.last())
        }
    }
}

proof fn lemma_first_block_unique(blocks: Seq<BlockView>, id: u128, i: int)
    requires
        is_first_block(blocks, id, i),
    ensures
        first_block(blocks, id) == Some(i),
{
    let j = choose|j: int| is_first_block(blocks, id, j);
    if j < i {
        assert(blocks[j].id != id);
    }
    if i < j {
        assert(blocks[i].id != id);
    }
}

proof fn lemma_first_option_unique(options: Seq<OptionView>, id: u128, i: int)
    requires
        is_first_option(options, id, i),
    ensures
        first_option(options, id) == Some(i),
{
    let j = choose|j: int| is_first_option(options, id, j);
    if j < i {
        assert(options[j].id != id);
    }
    if i < j {
        assert(options[i].id != id);
    }
}

/// The position of the first block with id `id`.
fn find_block(blocks: &Vec<StoryBlock>, id: u128) -> (r: Option<usize>)
    ensures
        match r {
            Some(i) => first_block(blocks_view(blocks@), id) == Some(i as int),
            None => first_block(blocks_view(blocks@), id) is None,
        },
{
    let ghost bv = blocks_view(blocks@);
    let n = blocks.len();
    for i in 0..n
        invariant
            n == blocks@.len(),
            bv == blocks_view(blocks@),
            forall|k: int| 0 <= k < i ==> (#[trigger] bv[k]).id != id,
    {
        if blocks[i].id == id {
            proof {
                assert(is_first_block(bv, id, i as int));
                lemma_first_block_unique(bv, id, i as int);
            }
            return Some(i);
        }
    }
    proof {
        assert(!exists|i: int| is_first_block(bv, id, i));
    }
    None
}

/// The position of the first option with id `id`.
fn find_option(options: &Vec<ChoiceOption>, id: u128) -> (r: Option<usize>)
    ensures
        match r {
            Some(i) => first_option(options_view(options@), id) == Some(i as int),
            None => first_option(options_view(options@), id) is None,
        },
{
    let ghost ov = options_view(options@);
    let n = options.len();
    for i in 0..n
        invariant
            n == options@.len(),
            ov == options_view(options@),
            forall|k: int| 0 <= k < i ==> (#[trigger] ov[k]).id != id,
    {
        if options[i].id == id {
            proof {
                assert(is_first_option(ov, id, i as int));
                lemma_first_option_unique(ov, id, i as int);
            }
            return Some(i);
        }
    }
    proof {
        assert(!exists|i: int| is_first_option(ov, id, i));
    }
    None
}

/// A copy of `blocks` without the blocks whose id is `id`.
fn blocks_without(blocks: &Vec<StoryBlock>, id: u128) -> (r: Vec<StoryBlock>)
    ensures
        blocks_view(r@) == without_block(blocks_view(blocks@), id),
{
    let ghost bv = blocks_view(blocks@);
    let mut r: Vec<StoryBlock> = Vec::new();
    let n = blocks.len();
    for i in 0..n
        invariant
            n == blocks@.len(),
            bv == blocks_view(blocks@),
            blocks_view(r@) == without_block(bv.take(i as int), id),
    {
        assert(bv.take(i + 1).drop_last() == bv.take(i as int));
        assert(bv.take(i + 1).last() == bv[i as int]);
        if blocks[i].id != id {
            let ghost before = r@;
            r.push(blocks[i].clone());
            assert(blocks_view(r@) =~= blocks_view(before).push(bv[i as int]));
        }
    }
    assert(bv.take(n as int) == bv);
    r
}

/// A copy of `options` without the options whose id is `id`.
fn options_without(options: &Vec<ChoiceOption>, id: u128) -> (r: Vec<ChoiceOption>)
    ensures
        options_view(r@) == without_option(options_view(options@), id),
{
    let ghost ov = options_view(options@);
    let mut r: Vec<ChoiceOption> = Vec::new();
    let n = options.len();
    for i in 0..n
        invariant
            n == options@.len(),
            ov == options_view(options@),
            options_view(r@) == without_option(ov.take(i as int), id),
    {
        assert(ov.take(i + 1).drop_last() == ov.take(i as int));
        assert(ov.take(i + 1).last() == ov[i as int]);
        if options[i].id != id {
            let ghost before = r@;
            r.push(options[i].clone());
            assert(options_view(r@) =~= options_view(before).push(ov[i as int]));
        }
    }
    assert(ov.take(n as int) == ov);
    r
}


// ---------------------------------------------------------------------------
// The editor as a state machine
// ---------------------------------------------------------------------------

/// The block list changed: the new state, reported whole to the caller.
pub open spec fn changed(s: EditorView) -> (EditorView, EventView) {
    (s, EventView::BlocksChanged(s.blocks))
}

/// Nothing for the caller to do.
pub open spec fn quiet(s: EditorView) -> (EditorView, EventView) {
    (s, EventView::Nothing)
}

/// The editor after removing block `id` and clearing any state pointing at
/// it (its draft, edit mode, hover, and an open dropdown of it).
pub open spec fn removed(s: EditorView, id: u128) -> EditorView {
    EditorView {
        blocks: without_block(s.blocks, id),
        drafts: s.drafts.remove(id),
        editing_block: if s.editing_block == Some(id) {
            None
        } else {
            s.editing_block
        },
        hovered_block: if s.hovered_block == Some(id) {
            None
        } else {
            s.hovered_block
        },
        open_dropdown: match s.open_dropdown {
            Some(DropdownId::Speaker(b)) => if b == id {
                None
            } else {
                s.open_dropdown
            },
            Some(DropdownId::ChoiceTarget { block, .. }) => if block == id {
                None
            } else {
                s.open_dropdown
            },
            None => None,
        },
        ..s
    }
}

/// Writes block `id`'s draft into the block. Nothing changes when there is
/// no draft or no such block, or when the draft equals the committed text.
pub open spec fn commit(s: EditorView, id: u128) -> (EditorView, EventView) {
    if !s.drafts.contains_key(id) {
        quiet(s)
    } else {
        match first_block(s.blocks, id) {
            None => quiet(s),
            Some(i) => {
                let text = s.drafts[id];
                let b = s.blocks[i];
                if prose_of(b.content) == Some(text) {
                    quiet(s)
                } else {
                    changed(
                        EditorView {
                            blocks: s.blocks.update(
                                i,
                                BlockView { id: b.id, content: with_prose(b.content, text) },
                            ),
                            ..s
                        },
                    )
                }
            },
        }
    }
}

/// Enters block `id`'s prose edit mode; switching from another block's edit
/// commits that one first.
pub open spec fn begin_edit(s: EditorView, id: u128) -> (EditorView, EventView) {
    if s.editing_block == Some(id) {
        quiet(s)
    } else {
        let (s1, ev) = match s.editing_block {
            Some(p) => commit(EditorView { editing_block: None, ..s }, p),
            None => quiet(s),
        };
        (EditorView { editing_block: Some(id), ..s1 }, ev)
    }
}

/// Replaces block `i`'s content (keeping its id) and reports the change.
pub open spec fn with_content(s: EditorView, i: int, c: ContentView) -> (EditorView, EventView) {
    changed(
        EditorView { blocks: s.blocks.update(i, BlockView { id: s.blocks[i].id, content: c }), ..s },
    )
}

/// Applies `f` to option `option` of choice block `block` (the first of
/// each with that id).
pub open spec fn edit_option(
    s: EditorView,
    block: u128,
    option: u128,
    f: spec_fn(OptionView) -> OptionView,
) -> (EditorView, EventView) {
    match first_block(s.blocks, block) {
        Some(i) => match s.blocks[i].content {
            ContentView::Choice { options } => match first_option(options, option) {
                Some(j) => with_content(
                    s,
                    i,
                    ContentView::Choice { options: options.update(j, f(options[j])) },
                ),
                None => quiet(s),
            },
            _ => quiet(s),
        },
        None => quiet(s),
    }
}

/// Drops the dragged block at the row it was last over: it leaves its
/// position and is inserted at that row.
pub open spec fn dropped(s: EditorView) -> (EditorView, EventView) {
    let s1 = EditorView { pending_drag: None, drag: None, ..s };
    match s.drag {
        None => quiet(s1),
        Some(d) => match first_block(s.blocks, d.block) {
            None => quiet(s1),
            Some(from) => match d.over_index {
                None => quiet(s1),
                Some(to) => if from == to || to >= s.blocks.len() {
                    quiet(s1)
                } else {
                    changed(
                        EditorView {
                            blocks: s.blocks.remove(from).insert(to as int, s.blocks[from]),
                            ..s1
                        },
                    )
                },
            },
        },
    }
}

/// The cursor moved to `y` within the list: moves the drag ghost, or
/// anchors a pending press and promotes it to a drag once it has travelled
/// more than `DRAG_START_THRESHOLD` pixels.
pub open spec fn moved(s: EditorView, y: i32) -> (EditorView, EventView) {
    match s.drag {
        Some(d) => quiet(EditorView { drag: Some(DragState { cursor_y: Some(y), ..d }), ..s }),
        None => match s.pending_drag {
            Some((b, None)) => quiet(EditorView { pending_drag: Some((b, Some(y))), ..s }),
            Some((b, Some(o))) => if y - o > DRAG_START_THRESHOLD || o - y > DRAG_START_THRESHOLD {
                quiet(
                    EditorView {
                        pending_drag: None,
                        hovered_block: None,
                        drag: Some(DragState { block: b, cursor_y: Some(y), over_index: None }),
                        ..s
                    },
                )
            } else {
                quiet(s)
            },
            None => quiet(s),
        },
    }
}

/// The drop-position hint for state `s`: above the row the cursor is over
/// when that row is above the dragged block's own, below it when it is
/// below; no hint over the block's own row or outside the list.
pub open spec fn insertion_hint(s: EditorView) -> Option<InsertionLine> {
    match s.drag {
        Some(d) => match first_block(s.blocks, d.block) {
            Some(from) => match d.over_index {
                Some(over) => if over < from {
                    Some(InsertionLine::Before(over))
                } else if from < over && over < s.blocks.len() {
                    Some(InsertionLine::After(over))
                } else {
                    None
                },
                None => None,
            },
            None => None,
        },
        None => None,
    }
}

/// The dialog that asks before a block is removed.
pub open spec fn block_delete_dialog() -> DialogView {
    DialogView {
        title: "confirm-delete-block-title"@,
        message: "confirm-delete-block-message"@,
        dont_ask: Some(false),
        argument: None,
    }
}

/// What every message other than adding a block or a choice option does:
/// the next state and the event reported.
pub open spec fn step(s: EditorView, msg: EditorMessage) -> (EditorView, EventView) {
    match msg {
        EditorMessage::TitleEdit => quiet(EditorView { title_draft: Some(s.title), ..s }),
        EditorMessage::TitleDraftChanged(v) => quiet(
            EditorView {
                title_draft: if s.title_draft is Some {
                    Some(v@)
                } else {
                    None
                },
                ..s
            },
        ),
        EditorMessage::TitleSave => match s.title_draft {
            Some(d) => (
                EditorView { title: d, title_draft: None, ..s },
                EventView::TitleChanged(d),
            ),
            None => quiet(s),
        },
        EditorMessage::TitleCancel => quiet(EditorView { title_draft: None, ..s }),
        EditorMessage::RemoveBlock(id) => if s.confirm_delete_blocks {
            quiet(EditorView { pending_delete: Some((id, block_delete_dialog())), ..s })
        } else {
            changed(removed(s, id))
        },
        EditorMessage::ConfirmDelete(m) => match m {
            ConfirmDialogMessage::Cancel => quiet(EditorView { pending_delete: None, ..s }),
            ConfirmDialogMessage::DontAskToggled(c) => match s.pending_delete {
                Some((id, d)) => quiet(
                    EditorView {
                        pending_delete: Some((id, DialogView { dont_ask: Some(c), ..d })),
                        ..s
                    },
                ),
                None => quiet(s),
            },
            ConfirmDialogMessage::Confirm => match s.pending_delete {
                Some((id, d)) => {
                    let s1 = EditorView { pending_delete: None, ..s };
                    let s2 = if d.dont_ask == Some(true) {
                        EditorView { confirm_delete_blocks: false, confirm_disable: true, ..s1 }
                    } else {
                        s1
                    };
                    changed(removed(s2, id))
                },
                None => quiet(s),
            },
        },
        EditorMessage::BlockHoverEnter(id) => quiet(
            EditorView { hovered_block: Some(id), ..s },
        ),
        EditorMessage::BlockHoverExit => quiet(EditorView { hovered_block: None, ..s }),
        EditorMessage::BlockPressed(id) => quiet(
            EditorView { pending_drag: Some((id, None)), ..s },
        ),
        EditorMessage::BlockReleased(id) => {
            let was_pending = match s.pending_drag {
                Some((b, _)) => b == id,
                None => false,
            };
            let s1 = EditorView { pending_drag: None, ..s };
            if was_pending && s.drag is None {
                begin_edit(s1, id)
            } else {
                quiet(s1)
            }
        },
        EditorMessage::ProseEdited(id, t) => if s.drafts.contains_key(id) {
            quiet(EditorView { drafts: s.drafts.insert(id, t@), ..s })
        } else {
            quiet(s)
        },
        EditorMessage::ProseSave(id) => {
            let s1 = if s.editing_block == Some(id) {
                EditorView { editing_block: None, ..s }
            } else {
                s
            };
            commit(s1, id)
        },
        EditorMessage::ProseCancel(id) => {
            let s1 = if s.editing_block == Some(id) {
                EditorView { editing_block: None, ..s }
            } else {
                s
            };
            match first_block(s1.blocks, id) {
                Some(i) => match prose_of(s1.blocks[i].content) {
                    Some(t) => quiet(EditorView { drafts: s1.drafts.insert(id, t), ..s1 }),
                    None => quiet(s1),
                },
                None => quiet(s1),
            }
        },
        EditorMessage::DragStart(id) => quiet(
            EditorView {
                pending_drag: None,
                hovered_block: None,
                drag: Some(DragState { block: id, cursor_y: None, over_index: None }),
                ..s
            },
        ),
        EditorMessage::DragMoved(y) => moved(s, y),
        EditorMessage::DragOverRow(i) => match s.drag {
            Some(d) => quiet(EditorView { drag: Some(DragState { over_index: Some(i), ..d }), ..s }),
            None => quiet(s),
        },
        EditorMessage::DragDrop => dropped(s),
        EditorMessage::DragCancel => quiet(EditorView { pending_drag: None, drag: None, ..s }),
        EditorMessage::DropdownToggled(d) => quiet(
            EditorView {
                open_dropdown: if s.open_dropdown == Some(d) {
                    None
                } else {
                    Some(d)
                },
                ..s
            },
        ),
        EditorMessage::SpeakerPicked(id, speaker) => {
            let s1 = EditorView { open_dropdown: None, ..s };
            match first_block(s1.blocks, id) {
                Some(i) => match s1.blocks[i].content {
                    ContentView::Dialogue { text, .. } => with_content(
                        s1,
                        i,
                        ContentView::Dialogue { speaker, text },
                    ),
                    _ => quiet(s1),
                },
                None => quiet(s1),
            }
        },
        EditorMessage::DirectiveCommandChanged(id, v) => match first_block(s.blocks, id) {
            Some(i) => match s.blocks[i].content {
                ContentView::Directive { argument, .. } => with_content(
                    s,
                    i,
                    ContentView::Directive { command: v@, argument },
                ),
                _ => quiet(s),
            },
            None => quiet(s),
        },
        EditorMessage::DirectiveArgumentChanged(id, v) => match first_block(s.blocks, id) {
            Some(i) => match s.blocks[i].content {
                ContentView::Directive { command, .. } => with_content(
                    s,
                    i,
                    ContentView::Directive { command, argument: v@ },
                ),
                _ => quiet(s),
            },
            None => quiet(s),
        },
        EditorMessage::ChoiceLabelChanged { block, option, label } => edit_option(
            s,
            block,
            option,
            |o: OptionView| OptionView { label: label@, ..o },
        ),
        EditorMessage::ChoiceTargetPicked { block, option, target } => edit_option(
            EditorView { open_dropdown: None, ..s },
            block,
            option,
            |o: OptionView| OptionView { target, ..o },
        ),
        EditorMessage::RemoveChoiceOption { block, option } => {
            let s1 = if s.open_dropdown == Some(DropdownId::ChoiceTarget { block, option }) {
                EditorView { open_dropdown: None, ..s }
            } else {
                s
            };
            match first_block(s1.blocks, block) {
                Some(i) => match s1.blocks[i].content {
                    ContentView::Choice { options } => with_content(
                        s1,
                        i,
                        ContentView::Choice { options: without_option(options, option) },
                    ),
                    _ => quiet(s1),
                },
                None => quiet(s1),
            }
        },
        EditorMessage::Close => match s.editing_block {
            Some(id) => {
                let (s2, ev) = commit(EditorView { editing_block: None, ..s }, id);
                (
                    s2,
                    EventView::Closed(
                        match ev {
                            EventView::BlocksChanged(b) => Some(b),
                            _ => None,
                        },
                    ),
                )
            },
            None => (s, EventView::Closed(None)),
        },
        _ => quiet(s),
    }
}

/// `new` is `old` with one more, empty and unlinked, option at the end.
pub open spec fn appended_option(old: Seq<OptionView>, new: Seq<OptionView>) -> bool {
    &&& new.len() == old.len() + 1
    &&& new.drop_last() == old
    &&& new.last().label.len() == 0
    &&& new.last().target is None
}

/// Adding a block of `kind`: a fresh block of that kind is appended (with an
/// empty draft when it has prose) and the new list is reported.
pub open spec fn added_block(s: EditorView, kind: BlockKind, post: EditorView, ev: EventView) -> bool {
    let b = post.blocks.last();
    &&& post.blocks.len() == s.blocks.len() + 1
    &&& post.blocks.drop_last() == s.blocks
    &&& is_fresh_content(b.content, kind)
    &&& post == EditorView {
        blocks: post.blocks,
        drafts: if has_prose(kind) {
            s.drafts.insert(b.id, Seq::empty())
        } else {
            s.drafts
        },
        ..s
    }
    &&& ev == EventView::BlocksChanged(post.blocks)
}

/// Adding an option to choice block `id`: the first block with that id, if
/// it is a choice, gets one more empty, unlinked option and the new list is
/// reported; otherwise nothing changes.
pub open spec fn added_option(s: EditorView, id: u128, post: EditorView, ev: EventView) -> bool {
    match first_block(s.blocks, id) {
        Some(i) => match s.blocks[i].content {
            ContentView::Choice { options } => {
                let nb = post.blocks[i];
                &&& nb.id == s.blocks[i].id
                &&& nb.content is Choice
                &&& appended_option(options, nb.content->Choice_options)
                &&& post == EditorView { blocks: s.blocks.update(i, nb), ..s }
                &&& ev == EventView::BlocksChanged(post.blocks)
            },
            _ => post == s && ev == EventView::Nothing,
        },
        None => post == s && ev == EventView::Nothing,
    }
}

/// The editor's whole contract: how handling `msg` in state `s` leads to
/// state `post` and event `ev`.
pub open spec fn update_spec(s: EditorView, msg: EditorMessage, post: EditorView, ev: EventView) -> bool {
    match msg {
        EditorMessage::AddBlock(kind) => added_block(s, kind, post, ev),
        EditorMessage::AddChoiceOption(id) => added_option(s, id, post, ev),
        _ => (post, ev) == step(s, msg),
    }
}


/// The prose drafts a freshly opened editor starts from: each prose block's
/// committed text, keyed by its id (a later block wins a repeated id).
pub open spec fn initial_drafts(blocks: Seq<BlockView>) -> Map<u128, Seq<char>>
    decreases blocks.len(),
{
    if blocks.len() == 0 {
        Map::empty()
    } else {
        let rest = initial_drafts(blocks.drop_last());
        match prose_of(blocks.last().content) {
            Some(t) => rest.insert(blocks.last().id, t),
            None => rest,
        }
    }
}

/// The state of an editor just opened on `node`.
pub open spec fn opened_on(node_id: u128, title: Seq<char>, blocks: Seq<BlockView>) -> EditorView {
    EditorView {
        node_id,
        title,
        title_draft: None,
        blocks,
        drafts: initial_drafts(blocks),
        hovered_block: None,
        editing_block: None,
        open_dropdown: None,
        pending_drag: None,
        drag: None,
        confirm_delete_blocks: false,
        pending_delete: None,
        confirm_disable: false,
    }
}

impl StoryNodeEditor {
    /// An editor session on `node`, seeded from its title and blocks.
    pub fn new(node: &StoryNode) -> (r: Self)
        ensures
            r@ == opened_on(node.id, node.title@, node@.blocks),
    {
        let blocks = copy_blocks(&node.blocks);
        let ghost bv = blocks_view(blocks@);
        let mut drafts: HashMap<u128, String> = HashMap::new();
        let n = blocks.len();
        for i in 0..n
            invariant
                n == blocks@.len(),
                bv == blocks_view(blocks@),
                drafts_view(drafts@) == initial_drafts(bv.take(i as int)),
        {
            assert(bv.take(i + 1).drop_last() == bv.take(i as int));
            assert(bv.take(i + 1).last() == bv[i as int]);
            match blocks[i].prose() {
                Some(text) => {
                    let ghost before = drafts@;
                    drafts.insert(blocks[i].id, text.to_string());
                    assert(drafts_view(drafts@) =~= drafts_view(before).insert(
                        bv[i as int].id,
                        text@,
                    ));
                },
                None => {},
            }
        }
        assert(bv.take(n as int) == bv);
        StoryNodeEditor {
            node_id: node.id,
            title: node.title.clone(),
            title_draft: None,
            blocks,
            prose_drafts: drafts,
            hovered_block: None,
            editing_block: None,
            open_dropdown: None,
            pending_drag: None,
            drag: None,
            confirm_delete_blocks: false,
            pending_delete: None,
            confirm_disable: false,
        }
    }

    /// Takes whether the block delete dialog's "Don't ask again" was
    /// accepted since last polled.
    pub fn take_confirm_disable(&mut self) -> (r: bool)
        ensures
            r == old(self)@.confirm_disable,
            final(self)@ == (EditorView { confirm_disable: false, ..old(self)@ }),
    {
        let r = self.confirm_disable;
        self.confirm_disable = false;
        r
    }

    /// The node this editor session is for.
    pub fn node_id(&self) -> (r: u128)
        ensures
            r == self@.node_id,
    {
        self.node_id
    }

    /// The title draft, while the header is in title-editing mode.
    pub fn title_draft(&self) -> (r: Option<&String>)
        ensures
            match r {
                Some(d) => self@.title_draft == Some(d@),
                None => self@.title_draft is None,
            },
    {
        self.title_draft.as_ref()
    }

    /// The live block list.
    pub fn blocks(&self) -> (r: &Vec<StoryBlock>)
        ensures
            blocks_view(r@) == self@.blocks,
    {
        &self.blocks
    }

    /// The prose draft of block `id`, if it has one.
    pub fn prose_draft(&self, id: u128) -> (r: Option<&String>)
        ensures
            match r {
                Some(d) => self@.drafts.contains_key(id) && self@.drafts[id] == d@,
                None => !self@.drafts.contains_key(id),
            },
    {
        let r = self.prose_drafts.get(&id);
        proof {
            match r {
                Some(d) => {
                    assert(self.prose_drafts@.contains_key(id));
                    assert(drafts_view(self.prose_drafts@)[id] == d@);
                },
                None => {},
            }
        }
        r
    }

    /// The block row under the cursor, if any.
    pub fn hovered_block(&self) -> (r: Option<u128>)
        ensures
            r == self@.hovered_block,
    {
        self.hovered_block
    }

    /// The prose block in edit mode, if any.
    pub fn editing_block(&self) -> (r: Option<u128>)
        ensures
            r == self@.editing_block,
    {
        self.editing_block
    }

    /// The inline dropdown currently expanded, if any.
    pub fn open_dropdown(&self) -> (r: Option<DropdownId>)
        ensures
            r == self@.open_dropdown,
    {
        self.open_dropdown
    }

    /// The drag-to-reorder gesture in flight, if any.
    pub fn drag(&self) -> (r: Option<DragState>)
        ensures
            r == self@.drag,
    {
        self.drag
    }

    /// Where the drop-position hint shows, if a drag is over another row.
    pub fn insertion_line(&self) -> (r: Option<InsertionLine>)
        ensures
            r == insertion_hint(self@),
    {
        match self.drag {
            Some(d) => match find_block(&self.blocks, d.block) {
                Some(from) => match d.over_index {
                    Some(over) => if over < from {
                        Some(InsertionLine::Before(over))
                    } else if from < over && over < self.blocks.len() {
                        Some(InsertionLine::After(over))
                    } else {
                        None
                    },
                    None => None,
                },
                None => None,
            },
            None => None,
        }
    }

    /// The pending block delete confirmation, if any.
    pub fn pending_delete(&self) -> (r: Option<&(u128, ConfirmDialog)>)
        ensures
            match r {
                Some(p) => self@.pending_delete == Some((p.0, p.1@)),
                None => self@.pending_delete is None,
            },
    {
        self.pending_delete.as_ref()
    }

    /// The node's committed title.
    pub fn title(&self) -> (r: &String)
        ensures
            r@ == self@.title,
    {
        &self.title
    }

    /// Whether removing a block asks first.
    pub fn confirm_delete_blocks(&self) -> (r: bool)
        ensures
            r == self@.confirm_delete_blocks,
    {
        self.confirm_delete_blocks
    }

    /// Sets the preferences mirror: whether removing a block asks first.
    pub fn set_confirm_delete_blocks(&mut self, confirm: bool)
        ensures
            final(self)@ == (EditorView { confirm_delete_blocks: confirm, ..old(self)@ }),
    {
        self.confirm_delete_blocks = confirm;
    }

    fn blocks_changed(&self) -> (r: EditorEvent)
        ensures
            r@ == EventView::BlocksChanged(self@.blocks),
    {
        EditorEvent::BlocksChanged(copy_blocks(&self.blocks))
    }

    /// Removes block `id` and clears any state pointing at it.
    fn remove_block(&mut self, id: u128) -> (r: EditorEvent)
        ensures
            (final(self)@, r@) == changed(removed(old(self)@, id)),
    {
        let ghost pre = self@;
        self.blocks = blocks_without(&self.blocks, id);
        let ghost before = self.prose_drafts@;
        self.prose_drafts.remove(&id);
        assert(drafts_view(self.prose_drafts@) =~= drafts_view(before).remove(id));
        if self.editing_block == Some(id) {
            self.editing_block = None;
        }
        if self.hovered_block == Some(id) {
            self.hovered_block = None;
        }
        let clear = match self.open_dropdown {
            Some(DropdownId::Speaker(b)) => b == id,
            Some(DropdownId::ChoiceTarget { block, .. }) => block == id,
            None => false,
        };
        if clear {
            self.open_dropdown = None;
        }
        assert(self@ == removed(pre, id));
        self.blocks_changed()
    }

    /// Writes block `id`'s draft into the block.
    fn commit_prose(&mut self, id: u128) -> (r: EditorEvent)
        ensures
            (final(self)@, r@) == commit(old(self)@, id),
    {
        let ghost pre = self@;
        let text = match self.prose_drafts.get(&id) {
            Some(t) => t.clone(),
            None => {
                return EditorEvent::Nothing;
            },
        };
        assert(pre.drafts.contains_key(id) && pre.drafts[id] == text@);
        let i = match find_block(&self.blocks, id) {
            Some(i) => i,
            None => {
                return EditorEvent::Nothing;
            },
        };
        let same = match self.blocks[i].prose() {
            Some(p) => str_eq(p, text.as_str()),
            None => false,
        };
        if same {
            return EditorEvent::Nothing;
        }
        let mut b = self.blocks[i].clone();
        b.set_prose(text);
        self.blocks.set(i, b);
        assert(blocks_view(self.blocks@) =~= pre.blocks.update(
            i as int,
            BlockView { id: pre.blocks[i as int].id, content: with_prose(pre.blocks[i as int].content, pre.drafts[id]) },
        ));
        self.blocks_changed()
    }

    /// Applies an `EditorMessage`, updating this editor's own live copy so
    /// the view reflects it, and reports back what the caller should write
    /// through to the actual node.
    #[verifier::rlimit(60)]
    pub fn update(&mut self, message: EditorMessage) -> (r: EditorEvent)
        ensures
            update_spec(old(self)@, message, final(self)@, r@),
    {
        let ghost pre = self@;
        match message {
            EditorMessage::TitleEdit => {
                self.title_draft = Some(self.title.clone());
                EditorEvent::Nothing
            },
            EditorMessage::TitleDraftChanged(value) => {
                if self.title_draft.is_some() {
                    self.title_draft = Some(value);
                }
                EditorEvent::Nothing
            },
            EditorMessage::TitleSave => {
                match self.title_draft.take() {
                    Some(draft) => {
                        self.title = draft.clone();
                        EditorEvent::TitleChanged(draft)
                    },
                    None => EditorEvent::Nothing,
                }
            },
            EditorMessage::TitleCancel => {
                self.title_draft = None;
                EditorEvent::Nothing
            },
            EditorMessage::AddBlock(kind) => self.add_block(kind),
            EditorMessage::RemoveBlock(id) => {
                if self.confirm_delete_blocks {
                    let dialog = ConfirmDialog::new(
                        "confirm-delete-block-title".to_string(),
                        "confirm-delete-block-message".to_string(),
                    ).with_dont_ask();
                    self.pending_delete = Some((id, dialog));
                    return EditorEvent::Nothing;
                }
                self.remove_block(id)
            },
            EditorMessage::ConfirmDelete(ConfirmDialogMessage::Cancel) => {
                self.pending_delete = None;
                EditorEvent::Nothing
            },
            EditorMessage::ConfirmDelete(ConfirmDialogMessage::DontAskToggled(checked)) => {
                match self.pending_delete.take() {
                    Some((id, dialog)) => {
                        let mut dialog = dialog;
                        dialog.dont_ask = Some(checked);
                        self.pending_delete = Some((id, dialog));
                    },
                    None => {},
                }
                EditorEvent::Nothing
            },
            EditorMessage::ConfirmDelete(ConfirmDialogMessage::Confirm) => {
                match self.pending_delete.take() {
                    Some((id, dialog)) => {
                        if dialog.dont_ask_again() {
                            self.confirm_delete_blocks = false;
                            self.confirm_disable = true;
                        }
                        self.remove_block(id)
                    },
                    None => EditorEvent::Nothing,
                }
            },
            EditorMessage::BlockHoverEnter(id) => {
                self.hovered_block = Some(id);
                EditorEvent::Nothing
            },
            EditorMessage::BlockHoverExit => {
                self.hovered_block = None;
                EditorEvent::Nothing
            },
            EditorMessage::BlockPressed(id) => {
                self.pending_drag = Some((id, None));
                EditorEvent::Nothing
            },
            EditorMessage::BlockReleased(id) => {
                let was_pending = match self.pending_drag.take() {
                    Some((block, _)) => block == id,
                    None => false,
                };
                if was_pending && self.drag.is_none() {
                    return self.begin_edit(id);
                }
                EditorEvent::Nothing
            },
            EditorMessage::ProseEdited(id, text) => {
                if self.prose_drafts.contains_key(&id) {
                    let ghost before = self.prose_drafts@;
                    let ghost t = text@;
                    self.prose_drafts.insert(id, text);
                    assert(drafts_view(self.prose_drafts@) =~= drafts_view(before).insert(id, t));
                }
                EditorEvent::Nothing
            },
            EditorMessage::ProseSave(id) => {
                if self.editing_block == Some(id) {
                    self.editing_block = None;
                }
                self.commit_prose(id)
            },
            EditorMessage::ProseCancel(id) => {
                if self.editing_block == Some(id) {
                    self.editing_block = None;
                }
                self.reset_draft(id);
                EditorEvent::Nothing
            },
            EditorMessage::DragStart(id) => {
                self.pending_drag = None;
                self.hovered_block = None;
                self.drag = Some(DragState { block: id, cursor_y: None, over_index: None });
                EditorEvent::Nothing
            },
            EditorMessage::DragMoved(y) => {
                self.drag_moved(y);
                EditorEvent::Nothing
            },
            EditorMessage::DragOverRow(index) => {
                match self.drag {
                    Some(d) => {
                        self.drag = Some(DragState { over_index: Some(index), ..d });
                    },
                    None => {},
                }
                EditorEvent::Nothing
            },
            EditorMessage::DragCancel => {
                self.pending_drag = None;
                self.drag = None;
                EditorEvent::Nothing
            },
            EditorMessage::DragDrop => self.drop_dragged(),
            EditorMessage::DropdownToggled(id) => {
                self.open_dropdown = if self.open_dropdown == Some(id) {
                    None
                } else {
                    Some(id)
                };
                EditorEvent::Nothing
            },
            EditorMessage::SpeakerPicked(id, new_speaker) => {
                self.open_dropdown = None;
                self.pick_speaker(id, new_speaker)
            },
            EditorMessage::DirectiveCommandChanged(id, value) => self.set_directive(id, Some(value), None),
            EditorMessage::DirectiveArgumentChanged(id, value) => self.set_directive(id, None, Some(value)),
            EditorMessage::ChoiceLabelChanged { block, option, label } => {
                self.edit_option(block, option, Some(label), None)
            },
            EditorMessage::ChoiceTargetPicked { block, option, target } => {
                self.open_dropdown = None;
                self.edit_option(block, option, None, Some(target))
            },
            EditorMessage::AddChoiceOption(id) => self.add_choice_option(id),
            EditorMessage::RemoveChoiceOption { block, option } => {
                if self.open_dropdown == Some(DropdownId::ChoiceTarget { block, option }) {
                    self.open_dropdown = None;
                }
                self.remove_choice_option(block, option)
            },
            EditorMessage::Close => {
                match self.editing_block.take() {
                    Some(id) => {
                        match self.commit_prose(id) {
                            EditorEvent::BlocksChanged(blocks) => EditorEvent::Closed(Some(blocks)),
                            _ => EditorEvent::Closed(None),
                        }
                    },
                    None => EditorEvent::Closed(None),
                }
            },
        }
    }

    /// Appends a fresh block of `kind` (with an empty draft when it has
    /// prose).
    fn add_block(&mut self, kind: BlockKind) -> (r: EditorEvent)
        ensures
            added_block(old(self)@, kind, final(self)@, r@),
    {
        let ghost pre = self@;
        let block = StoryBlock::new(kind);
        match block.prose() {
            Some(text) => {
                let ghost before = self.prose_drafts@;
                assert(text@.len() == 0);
                assert(text@ =~= Seq::<char>::empty());
                self.prose_drafts.insert(block.id, text.to_string());
                assert(drafts_view(self.prose_drafts@) =~= drafts_view(before).insert(
                    block.id,
                    Seq::empty(),
                ));
            },
            None => {},
        }
        let ghost b = block@;
        self.blocks.push(block);
        assert(blocks_view(self.blocks@) =~= pre.blocks.push(b));
        assert(self@.blocks.drop_last() =~= pre.blocks);
        self.blocks_changed()
    }

    /// Resets block `id`'s draft to its committed text.
    fn reset_draft(&mut self, id: u128)
        ensures
            final(self)@ == match first_block(old(self)@.blocks, id) {
                Some(i) => match prose_of(old(self)@.blocks[i].content) {
                    Some(t) => EditorView { drafts: old(self)@.drafts.insert(id, t), ..old(self)@ },
                    None => old(self)@,
                },
                None => old(self)@,
            },
    {
        match find_block(&self.blocks, id) {
            Some(i) => {
                let text = match self.blocks[i].prose() {
                    Some(t) => Some(t.to_string()),
                    None => None,
                };
                match text {
                    Some(t) => {
                        let ghost before = self.prose_drafts@;
                        let ghost tv = t@;
                        self.prose_drafts.insert(id, t);
                        assert(drafts_view(self.prose_drafts@) =~= drafts_view(before).insert(id, tv));
                    },
                    None => {},
                }
            },
            None => {},
        }
    }

    /// Tracks the cursor for the drag ghost, or promotes a pending press to
    /// a drag past the threshold.
    fn drag_moved(&mut self, y: i32)
        ensures
            final(self)@ == moved(old(self)@, y).0,
    {
        match self.drag {
            Some(d) => {
                self.drag = Some(DragState { cursor_y: Some(y), ..d });
            },
            None => {
                match self.pending_drag {
                    Some((block, None)) => {
                        self.pending_drag = Some((block, Some(y)));
                    },
                    Some((block, Some(origin))) => {
                        let travel = (y as i64) - (origin as i64);
                        if travel > DRAG_START_THRESHOLD || -travel > DRAG_START_THRESHOLD {
                            self.pending_drag = None;
                            self.hovered_block = None;
                            self.drag = Some(
                                DragState { block, cursor_y: Some(y), over_index: None },
                            );
                        }
                    },
                    None => {},
                }
            },
        }
    }

    /// Drops the dragged block at the row it was last over.
    fn drop_dragged(&mut self) -> (r: EditorEvent)
        ensures
            (final(self)@, r@) == dropped(old(self)@),
    {
        let ghost pre = self@;
        self.pending_drag = None;
        let drag = match self.drag.take() {
            Some(d) => d,
            None => {
                return EditorEvent::Nothing;
            },
        };
        let from = match find_block(&self.blocks, drag.block) {
            Some(f) => f,
            None => {
                return EditorEvent::Nothing;
            },
        };
        let to = match drag.over_index {
            Some(t) => t,
            None => {
                return EditorEvent::Nothing;
            },
        };
        if from == to || to >= self.blocks.len() {
            return EditorEvent::Nothing;
        }
        let block = self.blocks.remove(from);
        self.blocks.insert(to, block);
        assert(blocks_view(self.blocks@) =~= pre.blocks.remove(from as int).insert(
            to as int,
            pre.blocks[from as int],
        ));
        self.blocks_changed()
    }

    /// Sets the speaker of dialogue block `id`.
    fn pick_speaker(&mut self, id: u128, speaker: Option<u128>) -> (r: EditorEvent)
        ensures
            (final(self)@, r@) == match first_block(old(self)@.blocks, id) {
                Some(i) => match old(self)@.blocks[i].content {
                    ContentView::Dialogue { text, .. } => with_content(
                        old(self)@,
                        i,
                        ContentView::Dialogue { speaker, text },
                    ),
                    _ => quiet(old(self)@),
                },
                None => quiet(old(self)@),
            },
    {
        let ghost pre = self@;
        let i = match find_block(&self.blocks, id) {
            Some(i) => i,
            None => {
                return EditorEvent::Nothing;
            },
        };
        let updated = match &self.blocks[i].content {
            BlockContent::Dialogue { text, .. } => Some(
                StoryBlock {
                    id: self.blocks[i].id,
                    content: BlockContent::Dialogue { speaker, text: text.clone() },
                },
            ),
            _ => None,
        };
        match updated {
            Some(b) => {
                let ghost bv = b@;
                self.blocks.set(i, b);
                assert(blocks_view(self.blocks@) =~= pre.blocks.update(i as int, bv));
                self.blocks_changed()
            },
            None => EditorEvent::Nothing,
        }
    }

    /// Sets the command and/or argument of directive block `id`.
    fn set_directive(&mut self, id: u128, command: Option<String>, argument: Option<String>) -> (r:
        EditorEvent)
        requires
            command is Some != argument is Some,
        ensures
            (final(self)@, r@) == match first_block(old(self)@.blocks, id) {
                Some(i) => match old(self)@.blocks[i].content {
                    ContentView::Directive { command: c, argument: a } => with_content(
                        old(self)@,
                        i,
                        ContentView::Directive {
                            command: match command {
                                Some(v) => v@,
                                None => c,
                            },
                            argument: match argument {
                                Some(v) => v@,
                                None => a,
                            },
                        },
                    ),
                    _ => quiet(old(self)@),
                },
                None => quiet(old(self)@),
            },
    {
        let ghost pre = self@;
        let i = match find_block(&self.blocks, id) {
            Some(i) => i,
            None => {
                return EditorEvent::Nothing;
            },
        };
        let updated = match &self.blocks[i].content {
            BlockContent::Directive { command: c, argument: a } => {
                let new_command = match command {
                    Some(v) => v,
                    None => c.clone(),
                };
                let new_argument = match argument {
                    Some(v) => v,
                    None => a.clone(),
                };
                Some(
                    StoryBlock {
                        id: self.blocks[i].id,
                        content: BlockContent::Directive {
                            command: new_command,
                            argument: new_argument,
                        },
                    },
                )
            },
            _ => None,
        };
        match updated {
            Some(b) => {
                let ghost bv = b@;
                self.blocks.set(i, b);
                assert(blocks_view(self.blocks@) =~= pre.blocks.update(i as int, bv));
                self.blocks_changed()
            },
            None => EditorEvent::Nothing,
        }
    }

    /// Sets the label and/or target of option `option` of choice block
    /// `block`.
    fn edit_option(
        &mut self,
        block: u128,
        option: u128,
        label: Option<String>,
        target: Option<Option<u128>>,
    ) -> (r: EditorEvent)
        ensures
            (final(self)@, r@) == edit_option(
                old(self)@,
                block,
                option,
                |o: OptionView|
                    OptionView {
                        label: match label {
                            Some(l) => l@,
                            None => o.label,
                        },
                        target: match target {
                            Some(t) => t,
                            None => o.target,
                        },
                        ..o
                    },
            ),
    {
        let ghost pre = self@;
        let ghost f = |o: OptionView|
            OptionView {
                label: match label {
                    Some(l) => l@,
                    None => o.label,
                },
                target: match target {
                    Some(t) => t,
                    None => o.target,
                },
                ..o
            };
        let i = match find_block(&self.blocks, block) {
            Some(i) => i,
            None => {
                return EditorEvent::Nothing;
            },
        };
        let updated = match &self.blocks[i].content {
            BlockContent::Choice { options } => {
                match find_option(options, option) {
                    Some(j) => {
                        let old_option = &options[j];
                        let new_option = ChoiceOption {
                            id: old_option.id,
                            label: match label {
                                Some(l) => l,
                                None => old_option.label.clone(),
                            },
                            target: match target {
                                Some(t) => t,
                                None => old_option.target,
                            },
                        };
                        let mut new_options = copy_options(options);
                        let ghost ov = options_view(options@);
                        let ghost nv = new_option@;
                        new_options.set(j, new_option);
                        assert(nv == f(ov[j as int]));
                        assert(options_view(new_options@) =~= ov.update(j as int, nv));
                        Some(
                            StoryBlock {
                                id: self.blocks[i].id,
                                content: BlockContent::Choice { options: new_options },
                            },
                        )
                    },
                    None => None,
                }
            },
            _ => None,
        };
        match updated {
            Some(b) => {
                let ghost bv = b@;
                self.blocks.set(i, b);
                assert(blocks_view(self.blocks@) =~= pre.blocks.update(i as int, bv));
                self.blocks_changed()
            },
            None => EditorEvent::Nothing,
        }
    }

    /// Appends an empty, unlinked option to choice block `id`.
    fn add_choice_option(&mut self, id: u128) -> (r: EditorEvent)
        ensures
            added_option(old(self)@, id, final(self)@, r@),
    {
        let ghost pre = self@;
        let i = match find_block(&self.blocks, id) {
            Some(i) => i,
            None => {
                return EditorEvent::Nothing;
            },
        };
        let updated = match &self.blocks[i].content {
            BlockContent::Choice { options } => {
                let mut new_options = copy_options(options);
                let ghost ov = options_view(options@);
                new_options.push(ChoiceOption::default());
                assert(options_view(new_options@).drop_last() =~= ov);
                Some(
                    StoryBlock {
                        id: self.blocks[i].id,
                        content: BlockContent::Choice { options: new_options },
                    },
                )
            },
            _ => None,
        };
        match updated {
            Some(b) => {
                let ghost bv = b@;
                self.blocks.set(i, b);
                assert(blocks_view(self.blocks@) =~= pre.blocks.update(i as int, bv));
                self.blocks_changed()
            },
            None => EditorEvent::Nothing,
        }
    }

    /// Removes option `option` from choice block `block`.
    fn remove_choice_option(&mut self, block: u128, option: u128) -> (r: EditorEvent)
        ensures
            (final(self)@, r@) == match first_block(old(self)@.blocks, block) {
                Some(i) => match old(self)@.blocks[i].content {
                    ContentView::Choice { options } => with_content(
                        old(self)@,
                        i,
                        ContentView::Choice { options: without_option(options, option) },
                    ),
                    _ => quiet(old(self)@),
                },
                None => quiet(old(self)@),
            },
    {
        let ghost pre = self@;
        let i = match find_block(&self.blocks, block) {
            Some(i) => i,
            None => {
                return EditorEvent::Nothing;
            },
        };
        let updated = match &self.blocks[i].content {
            BlockContent::Choice { options } => Some(
                StoryBlock {
                    id: self.blocks[i].id,
                    content: BlockContent::Choice { options: options_without(options, option) },
                },
            ),
            _ => None,
        };
        match updated {
            Some(b) => {
                let ghost bv = b@;
                self.blocks.set(i, b);
                assert(blocks_view(self.blocks@) =~= pre.blocks.update(i as int, bv));
                self.blocks_changed()
            },
            None => EditorEvent::Nothing,
        }
    }

    /// Enters block `id`'s prose edit mode.
    fn begin_edit(&mut self, id: u128) -> (r: EditorEvent)
        ensures
            (final(self)@, r@) == begin_edit(old(self)@, id),
    {
        if self.editing_block == Some(id) {
            return EditorEvent::Nothing;
        }
        let event = match self.editing_block {
            Some(previous) => {
                self.editing_block = None;
                self.commit_prose(previous)
            },
            None => EditorEvent::Nothing,
        };
        self.editing_block = Some(id);
        event
    }
}


// ---------------------------------------------------------------------------
// Laws
// ---------------------------------------------------------------------------

/// Law: dropping a dragged block only reorders the list — the same blocks,
/// each as often as before.
pub proof fn lemma_drop_keeps_blocks(s: EditorView)
    ensures
        dropped(s).0.blocks.to_multiset() == s.blocks.to_multiset(),
{
    broadcast use vstd::seq_lib::group_to_multiset_ensures;
    match s.drag {
        Some(d) => match first_block(s.blocks, d.block) {
            Some(from) => match d.over_index {
                Some(to) => if !(from == to || to >= s.blocks.len()) {
                    let b = s.blocks[from];
                    let r = s.blocks.remove(from);
                    vstd::seq_lib::to_multiset_remove(s.blocks, from);
                    vstd::seq_lib::to_multiset_insert(r, to as int, b);
                    assert(s.blocks.to_multiset().remove(b).insert(b) =~= s.blocks.to_multiset());
                },
                None => {},
            },
            None => {},
        },
        None => {},
    }
}

/// Law: the drop-position hint tells the truth — when it shows at row `i`,
/// dropping puts the dragged block at position `i`, and the list keeps its
/// length.
pub proof fn lemma_drop_lands_at_hint(s: EditorView)
    requires
        insertion_hint(s) is Some,
    ensures
        ({
            let i = match insertion_hint(s) {
                Some(InsertionLine::Before(i)) => i,
                Some(InsertionLine::After(i)) => i,
                None => 0,
            };
            let from = first_block(s.blocks, s.drag->0.block)->0;
            let (post, ev) = dropped(s);
            &&& post.blocks.len() == s.blocks.len()
            &&& post.blocks[i as int] == s.blocks[from]
            &&& ev == EventView::BlocksChanged(post.blocks)
        }),
{
}

/// Law: a title edit saved without typing reports the unchanged title, and
/// leaves the title as it was.
pub proof fn lemma_title_edit_then_save(s: EditorView)
    ensures
        ({
            let s1 = step(s, EditorMessage::TitleEdit).0;
            let (s2, ev) = step(s1, EditorMessage::TitleSave);
            s2.title == s.title && s2.title_draft is None && ev == EventView::TitleChanged(s.title)
        }),
{
}

/// Law: what is typed into the title and saved is what the title becomes,
/// and what the caller is told to write through.
pub proof fn lemma_title_typed_then_saved(s: EditorView, typed: String)
    ensures
        ({
            let s1 = step(s, EditorMessage::TitleEdit).0;
            let s2 = step(s1, EditorMessage::TitleDraftChanged(typed)).0;
            let (s3, ev) = step(s2, EditorMessage::TitleSave);
            s3.title == typed@ && ev == EventView::TitleChanged(typed@)
        }),
{
}

/// Law: cancelling a title edit leaves the title as it was.
pub proof fn lemma_title_cancel_keeps_title(s: EditorView, typed: String)
    ensures
        ({
            let s1 = step(s, EditorMessage::TitleEdit).0;
            let s2 = step(s1, EditorMessage::TitleDraftChanged(typed)).0;
            let (s3, ev) = step(s2, EditorMessage::TitleCancel);
            s3.title == s.title && s3.title_draft is None && ev == EventView::Nothing
        }),
{
}

/// No block of `without_block(blocks, id)` has id `id`, and every block of
/// `blocks` with another id is still there.
pub proof fn lemma_without_block(blocks: Seq<BlockView>, id: u128)
    ensures
        forall|k: int|
            0 <= k < without_block(blocks, id).len() ==> (#[trigger] without_block(
                blocks,
                id,
            )[k]).id != id,
        forall|k: int|
            0 <= k < blocks.len() && (#[trigger] blocks[k]).id != id ==> without_block(
                blocks,
                id,
            ).contains(blocks[k]),
    decreases blocks.len(),
{
    if blocks.len() > 0 {
        let init = blocks.drop_last();
        lemma_without_block(init, id);
        let rest = without_block(init, id);
        assert forall|k: int| 0 <= k < blocks.len() && (#[trigger] blocks[k]).id != id implies without_block(
            blocks,
            id,
        ).contains(blocks[k]) by {
            if k < blocks.len() - 1 {
                assert(init[k] == blocks[k]);
                let j = choose|j: int| 0 <= j < rest.len() && rest[j] == init[k];
                if blocks.last().id != id {
                    assert(rest.push(blocks.last())[j] == blocks[k]);
                }
            } else {
                assert(rest.push(blocks.last())[rest.len() as int] == blocks[k]);
            }
        }
    }
}

/// Law: removing a block (without a confirmation, or once confirmed) leaves
/// no block with its id, keeps every other block, and forgets its draft.
pub proof fn lemma_remove_block(s: EditorView, id: u128)
    requires
        !s.confirm_delete_blocks,
    ensures
        ({
            let (post, ev) = step(s, EditorMessage::RemoveBlock(id));
            &&& forall|k: int| 0 <= k < post.blocks.len() ==> (#[trigger] post.blocks[k]).id != id
            &&& forall|k: int|
                0 <= k < s.blocks.len() && (#[trigger] s.blocks[k]).id != id
                    ==> post.blocks.contains(s.blocks[k])
            &&& !post.drafts.contains_key(id)
            &&& post.editing_block != Some(id)
            &&& ev == EventView::BlocksChanged(post.blocks)
        }),
{
    lemma_without_block(s.blocks, id);
}

/// Law: a prose draft that is saved becomes the block's prose — a read of
/// the block after the write gives back what was written.
pub proof fn lemma_prose_edit_then_save(s: EditorView, id: u128, text: String)
    requires
        s.drafts.contains_key(id),
        first_block(s.blocks, id) is Some,
        has_prose(crate::story_block::kind_of(s.blocks[first_block(s.blocks, id)->0].content)),
    ensures
        ({
            let s1 = step(s, EditorMessage::ProseEdited(id, text)).0;
            let (s2, ev) = step(s1, EditorMessage::ProseSave(id));
            let i = first_block(s.blocks, id)->0;
            &&& prose_of(s2.blocks[i].content) == Some(text@)
            &&& s2.blocks[i].id == id
            &&& s2.blocks.len() == s.blocks.len()
            &&& s2.editing_block != Some(id)
        }),
{
    let i = first_block(s.blocks, id)->0;
    crate::story_block::lemma_set_prose_then_prose(s.blocks[i].content, text@);
}

/// Law: cancelling a prose edit throws the draft away — the draft is the
/// committed text again, so nothing is left to commit.
pub proof fn lemma_prose_cancel_discards(s: EditorView, id: u128, text: String)
    requires
        first_block(s.blocks, id) is Some,
        has_prose(crate::story_block::kind_of(s.blocks[first_block(s.blocks, id)->0].content)),
    ensures
        ({
            let s1 = step(s, EditorMessage::ProseEdited(id, text)).0;
            let s2 = step(s1, EditorMessage::ProseCancel(id)).0;
            let (s3, ev) = commit(s2, id);
            &&& s2.blocks == s.blocks
            &&& s3 == s2
            &&& ev == EventView::Nothing
        }),
{
}




/// Removing option `id` keeps exactly the options with another id, in
/// order.
proof fn lemma_without_option_filters(options: Seq<OptionView>, id: u128)
    ensures
        without_option(options, id) == options.filter(|o: OptionView| o.id != id),
    decreases options.len(),
{
    reveal(Seq::filter);
    if options.len() > 0 {
        lemma_without_option_filters(options.drop_last(), id);
    }
}

/// Law: removing option `option` from choice block `block` leaves that
/// block's options filtered by `id != option` — the clicked option is gone,
/// every other option stays, in its order — and no other block changes.
pub proof fn lemma_remove_option_keeps_the_others(
    s: EditorView,
    block: u128,
    option: u128,
    i: int,
    options: Seq<OptionView>,
    post: EditorView,
    ev: EventView,
)
    requires
        0 <= i < s.blocks.len(),
        s.blocks[i].id == block,
        forall|k: int| 0 <= k < i ==> (#[trigger] s.blocks[k]).id != block,
        s.blocks[i].content == (ContentView::Choice { options }),
        update_spec(s, EditorMessage::RemoveChoiceOption { block, option }, post, ev),
    ensures
        post.blocks.len() == s.blocks.len(),
        post.blocks[i].id == block,
        post.blocks[i].content == (ContentView::Choice {
            options: options.filter(|o: OptionView| o.id != option),
        }),
        forall|k: int| 0 <= k < s.blocks.len() && k != i ==> post.blocks[k] == s.blocks[k],
        ev == EventView::BlocksChanged(post.blocks),
{
    lemma_first_block_unique(s.blocks, block, i);
    lemma_without_option_filters(options, option);
}

/// Law: a press on a block's bubble turns into a drag of that block as soon
/// as the cursor has travelled more than `DRAG_START_THRESHOLD` pixels from
/// where it was first tracked — upward as well as downward — and stays a
/// press (nothing else changing) while it hasn't.
pub proof fn lemma_press_becomes_drag_either_way(
    s: EditorView,
    b: u128,
    o: i32,
    y: i32,
    post: EditorView,
    ev: EventView,
)
    requires
        s.drag is None,
        s.pending_drag == Some((b, Some(o))),
        update_spec(s, EditorMessage::DragMoved(y), post, ev),
    ensures
        ev == EventView::Nothing,
        post.blocks == s.blocks,
        (y as int - o as int > DRAG_START_THRESHOLD || o as int - y as int > DRAG_START_THRESHOLD)
            ==> post.drag == Some(DragState { block: b, cursor_y: Some(y), over_index: None })
            && post.pending_drag is None,
        !(y as int - o as int > DRAG_START_THRESHOLD || o as int - y as int > DRAG_START_THRESHOLD)
            ==> post == s,
{
}

} // verus!
