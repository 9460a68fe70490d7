//! The story canvas's model: every node's content, the story's root node,
//! the node whose editor is open, the node under the cursor, the pending
//! delete confirmation, and whether anything changed since last polled.
//! The camera, node placement and animations belong to the view, which
//! reports hover, clicks and moves here.

use std::time::Instant;

use vstd::prelude::*;

use crate::clock::{instant_now, pulse_running};
use crate::dialogs::{ConfirmDialog, ConfirmDialogMessage, DialogView};
use crate::node_editor::{
    update_spec, EditorEvent, EditorMessage, EditorView, EventView, StoryNodeEditor, opened_on,
};
use crate::story_block::{blocks_view, BlockView, StoryBlock};
use crate::story_node::{nodes_view, NodeView, StoryNode};

verus! {

/// The canvas's story model.
#[derive(Debug)]
pub struct CanvasPage {
    /// Every node on the canvas.
    nodes: Vec<StoryNode>,
    /// The story's entry point, by node id.
    root_node: Option<u128>,
    /// Some while a node's editor is open.
    editor: Option<StoryNodeEditor>,
    /// Preferences mirror handed to every editor this page opens: whether
    /// removing a block asks first.
    confirm_delete_blocks: bool,
    /// The node currently under the cursor, if any.
    hovered_node: Option<u128>,
    /// Some while a delete confirmation is pending for this node.
    pending_delete: Option<(u128, ConfirmDialog)>,
    /// Set whenever a node was added, moved, edited, or deleted since the
    /// last time this was taken.
    content_dirty: bool,
    /// `Some((node, started))` while a Find-triggered "found it" glow ring
    /// is fading in, holding or fading out.
    glow: Option<(u128, Instant)>,
}

/// The mathematical value of a `CanvasPage`.
pub struct CanvasView {
    pub nodes: Seq<NodeView>,
    pub root_node: Option<u128>,
    pub editor: Option<EditorView>,
    pub confirm_delete_blocks: bool,
    pub hovered_node: Option<u128>,
    pub pending_delete: Option<(u128, DialogView)>,
    pub content_dirty: bool,
    /// The node whose glow ring is showing, if any.
    pub glow: Option<u128>,
}

impl View for CanvasPage {
    type V = CanvasView;

    closed spec fn view(&self) -> CanvasView {
        CanvasView {
            nodes: nodes_view(self.nodes@),
            root_node: self.root_node,
            editor: match self.editor {
                Some(e) => Some(e@),
                None => None,
            },
            confirm_delete_blocks: self.confirm_delete_blocks,
            hovered_node: self.hovered_node,
            pending_delete: match self.pending_delete {
                Some((id, d)) => Some((id, d@)),
                None => None,
            },
            content_dirty: self.content_dirty,
            glow: match self.glow {
                Some((id, _)) => Some(id),
                None => None,
            },
        }
    }
}

/// Messages the canvas's model handles.
#[derive(Debug)]
pub enum CanvasMessage {
    /// Adds a new node with this (localized default) title.
    AddNode(String),
    /// The view moved node `id` (by dragging it).
    NodeMoved(u128),
    /// A node was clicked — opens (or re-targets) the editor for it.
    NodeClicked(u128),
    /// The node under the cursor changed (or the cursor left every node).
    NodeHoverChanged(Option<u128>),
    /// The hover-delete button on a node was clicked.
    NodeDeleteRequested(u128),
    /// Forwarded from the open confirmation dialog.
    ConfirmDelete(ConfirmDialogMessage),
    /// Forwarded from the open node editor.
    Editor(EditorMessage),
    /// One frame of an in-flight animation; drops the glow ring once it has
    /// run out.
    AnimationTick,
}

/// `i` is the position of the first node with id `id`.
pub open spec fn is_first_node(nodes: Seq<NodeView>, id: u128, i: int) -> bool {
    &&& 0 <= i < nodes.len()
    &&& nodes[i].id == id
    &&& forall|k: int| 0 <= k < i ==> (#[trigger] nodes[k]).id != id
}

/// The position of the first node with id `id`, if any.
pub open spec fn first_node(nodes: Seq<NodeView>, id: u128) -> Option<int> {
    if exists|i: int| is_first_node(nodes, id, i) {
        Some(choose|i: int| is_first_node(nodes, id, i))
    } else {
        None
    }
}

/// `nodes` without the nodes whose id is `id`, order kept.
pub open spec fn without_node(nodes: Seq<NodeView>, id: u128) -> Seq<NodeView>
    decreases nodes.len(),
{
    if nodes.len() == 0 {
        nodes
    } else {
        let rest = without_node(nodes.drop_last(), id);
        if nodes.last().id == id {
            rest
        } else {
            rest.push(nodes.last())
        }
    }
}

/// The nodes with the first node of id `id` given title `title`.
pub open spec fn retitled(nodes: Seq<NodeView>, id: u128, title: Seq<char>) -> Seq<NodeView> {
    match first_node(nodes, id) {
        Some(i) => nodes.update(i, NodeView { title, ..nodes[i] }),
        None => nodes,
    }
}

/// The nodes with the first node of id `id` given blocks `blocks`.
pub open spec fn reblocked(nodes: Seq<NodeView>, id: u128, blocks: Seq<BlockView>) -> Seq<NodeView> {
    match first_node(nodes, id) {
        Some(i) => nodes.update(i, NodeView { blocks, ..nodes[i] }),
        None => nodes,
    }
}

/// The title of the first node with id `id`, or empty when there is none.
pub open spec fn node_title_or_empty(nodes: Seq<NodeView>, id: u128) -> Seq<char> {
    match first_node(nodes, id) {
        Some(i) => nodes[i].title,
        None => Seq::empty(),
    }
}

/// The dialog that asks before a node titled `title` is deleted.
pub open spec fn node_delete_dialog(title: Seq<char>) -> DialogView {
    DialogView {
        title: "confirm-delete-node-title"@,
        message: "confirm-delete-node-message"@,
        dont_ask: None,
        argument: Some(title),
    }
}

/// How the canvas writes an editor event for node `id` through to the
/// nodes (with the editor already in state `e`).
pub open spec fn canvas_applied(s: CanvasView, id: u128, ev: EventView) -> CanvasView {
    match ev {
        EventView::Nothing => s,
        EventView::TitleChanged(t) => CanvasView {
            nodes: retitled(s.nodes, id, t),
            content_dirty: true,
            ..s
        },
        EventView::BlocksChanged(b) => CanvasView {
            nodes: reblocked(s.nodes, id, b),
            content_dirty: true,
            ..s
        },
        EventView::Closed(Some(b)) => CanvasView {
            nodes: reblocked(s.nodes, id, b),
            content_dirty: true,
            editor: None,
            ..s
        },
        EventView::Closed(None) => CanvasView { editor: None, ..s },
    }
}

/// The canvas after deleting node `id` (closing its editor if open).
pub open spec fn node_deleted(s: CanvasView, id: u128) -> CanvasView {
    CanvasView {
        nodes: without_node(s.nodes, id),
        pending_delete: None,
        hovered_node: None,
        content_dirty: true,
        editor: match s.editor {
            Some(e) => if e.node_id == id {
                None
            } else {
                s.editor
            },
            None => None,
        },
        ..s
    }
}

/// The canvas's whole contract: how handling `msg` in state `s` leads to
/// state `post`, returning `r` (the node whose editor was just opened).
pub open spec fn canvas_update_spec(
    s: CanvasView,
    msg: CanvasMessage,
    post: CanvasView,
    r: Option<u128>,
) -> bool {
    match msg {
        CanvasMessage::AddNode(title) => {
            let n = post.nodes.last();
            &&& post.nodes.len() == s.nodes.len() + 1
            &&& post.nodes.drop_last() == s.nodes
            &&& n.title == title@
            &&& n.blocks.len() == 0
            &&& post == CanvasView { nodes: post.nodes, content_dirty: true, ..s }
            &&& r is None
        },
        CanvasMessage::NodeMoved(id) => {
            &&& r is None
            &&& post == if first_node(s.nodes, id) is Some {
                CanvasView { content_dirty: true, ..s }
            } else {
                s
            }
        },
        CanvasMessage::NodeClicked(id) => {
            &&& r == (if first_node(s.nodes, id) is Some {
                Some(id)
            } else {
                None
            })
            &&& post == match first_node(s.nodes, id) {
                Some(i) => CanvasView {
                    editor: Some(
                        EditorView {
                            confirm_delete_blocks: s.confirm_delete_blocks,
                            ..opened_on(s.nodes[i].id, s.nodes[i].title, s.nodes[i].blocks)
                        },
                    ),
                    hovered_node: None,
                    ..s
                },
                None => s,
            }
        },
        CanvasMessage::NodeHoverChanged(h) => post == CanvasView { hovered_node: h, ..s }
            && r is None,
        CanvasMessage::NodeDeleteRequested(id) => post == CanvasView {
            pending_delete: Some((id, node_delete_dialog(node_title_or_empty(s.nodes, id)))),
            ..s
        } && r is None,
        CanvasMessage::ConfirmDelete(m) => {
            &&& r is None
            &&& post == match m {
                ConfirmDialogMessage::Cancel => CanvasView { pending_delete: None, ..s },
                ConfirmDialogMessage::DontAskToggled(c) => match s.pending_delete {
                    Some((id, d)) => CanvasView {
                        pending_delete: Some((id, DialogView { dont_ask: Some(c), ..d })),
                        ..s
                    },
                    None => s,
                },
                ConfirmDialogMessage::Confirm => match s.pending_delete {
                    Some((id, _)) => node_deleted(s, id),
                    None => s,
                },
            }
        },
        CanvasMessage::AnimationTick => {
            &&& r is None
            &&& (post == s || post == CanvasView { glow: None, ..s })
        },
        CanvasMessage::Editor(m) => {
            &&& r is None
            &&& match s.editor {
                None => post == s,
                Some(e) => exists|e2: EditorView, ev: EventView|
                    update_spec(e, m, e2, ev) && post == canvas_applied(
                        CanvasView { editor: Some(e2), ..s },
                        e.node_id,
                        ev,
                    ),
            }
        },
    }
}

/// No node of `without_node(nodes, id)` has id `id`, and every node of
/// `nodes` with another id is still there.
pub proof fn lemma_without_node(nodes: Seq<NodeView>, id: u128)
    ensures
        forall|k: int|
            0 <= k < without_node(nodes, id).len() ==> (#[trigger] without_node(nodes, id)[k]).id
                != id,
        forall|k: int|
            0 <= k < nodes.len() && (#[trigger] nodes[k]).id != id ==> without_node(
                nodes,
                id,
            ).contains(nodes[k]),
    decreases nodes.len(),
{
    if nodes.len() > 0 {
        let init = nodes.drop_last();
        lemma_without_node(init, id);
        let rest = without_node(init, id);
        assert forall|k: int| 0 <= k < nodes.len() && (#[trigger] nodes[k]).id != id implies without_node(
            nodes,
            id,
        ).contains(nodes[k]) by {
            if k < nodes.len() - 1 {
                assert(init[k] == nodes[k]);
                let j = choose|j: int| 0 <= j < rest.len() && rest[j] == init[k];
                if nodes.last().id != id {
                    assert(rest.push(nodes.last())[j] == nodes[k]);
                }
            } else {
                assert(rest.push(nodes.last())[rest.len() as int] == nodes[k]);
            }
        }
    }
}

/// Law: confirming a node's deletion leaves no node with its id, keeps
/// every other node, closes an editor open on it, and marks the content
/// changed.
pub proof fn lemma_confirmed_delete_removes_node(
    s: CanvasView,
    id: u128,
    d: DialogView,
    post: CanvasView,
    r: Option<u128>,
)
    requires
        s.pending_delete == Some((id, d)),
        canvas_update_spec(s, CanvasMessage::ConfirmDelete(ConfirmDialogMessage::Confirm), post, r),
    ensures
        ({
            &&& forall|k: int| 0 <= k < post.nodes.len() ==> (#[trigger] post.nodes[k]).id != id
            &&& forall|k: int|
                0 <= k < s.nodes.len() && (#[trigger] s.nodes[k]).id != id
                    ==> post.nodes.contains(s.nodes[k])
            &&& match post.editor {
                Some(e) => e.node_id != id,
                None => true,
            }
            &&& post.pending_delete is None
            &&& post.content_dirty
        }),
{
    lemma_without_node(s.nodes, id);
}

proof fn lemma_first_node_unique(nodes: Seq<NodeView>, id: u128, i: int)
    requires
        is_first_node(nodes, id, i),
    ensures
        first_node(nodes, id) == Some(i),
{
    let j = choose|j: int| is_first_node(nodes, id, j);
    if j < i {
        assert(nodes[j].id != id);
    }
    if i < j {
        assert(nodes[i].id != id);
    }
}

/// The position of the first node with id `id`.
fn find_node(nodes: &Vec<StoryNode>, id: u128) -> (r: Option<usize>)
    ensures
        match r {
            Some(i) => first_node(nodes_view(nodes@), id) == Some(i as int),
            None => first_node(nodes_view(nodes@), id) is None,
        },
{
    let ghost nv = nodes_view(nodes@);
    let n = nodes.len();
    for i in 0..n
        invariant
            n == nodes@.len(),
            nv == nodes_view(nodes@),
            forall|k: int| 0 <= k < i ==> (#[trigger] nv[k]).id != id,
    {
        if nodes[i].id == id {
            proof {
                assert(is_first_node(nv, id, i as int));
                lemma_first_node_unique(nv, id, i as int);
            }
            return Some(i);
        }
    }
    proof {
        assert(!exists|i: int| is_first_node(nv, id, i));
    }
    None
}

/// The root node to keep for a loaded project: the manifest's root when a
/// loaded node has that id, otherwise none (a root edited away externally
/// is treated as unset).
pub fn root_if_present(root: Option<u128>, nodes: &Vec<StoryNode>) -> (r: Option<u128>)
    ensures
        r == match root {
            Some(id) => if first_node(nodes_view(nodes@), id) is Some {
                Some(id)
            } else {
                None
            },
            None => None,
        },
{
    match root {
        Some(id) => match find_node(nodes, id) {
            Some(_) => Some(id),
            None => None,
        },
        None => None,
    }
}

impl Default for CanvasPage {
    /// An empty canvas.
    fn default() -> (r: Self)
        ensures
            r@.nodes.len() == 0,
            r@.root_node is None,
            r@.editor is None,
            !r@.confirm_delete_blocks,
            r@.hovered_node is None,
            r@.pending_delete is None,
            !r@.content_dirty,
            r@.glow is None,
    {
        CanvasPage {
            nodes: Vec::new(),
            root_node: None,
            editor: None,
            confirm_delete_blocks: false,
            hovered_node: None,
            pending_delete: None,
            content_dirty: false,
            glow: None,
        }
    }
}

impl CanvasPage {
    /// A canvas holding the nodes of a loaded project and its root.
    pub fn loaded(nodes: Vec<StoryNode>, root_node: Option<u128>) -> (r: Self)
        ensures
            r@.nodes == nodes_view(nodes@),
            r@.root_node == root_node,
            r@.editor is None,
            !r@.confirm_delete_blocks,
            r@.hovered_node is None,
            r@.pending_delete is None,
            !r@.content_dirty,
            r@.glow is None,
    {
        CanvasPage {
            nodes,
            root_node,
            editor: None,
            confirm_delete_blocks: false,
            hovered_node: None,
            pending_delete: None,
            content_dirty: false,
            glow: None,
        }
    }

    /// Every node on the canvas.
    pub fn nodes(&self) -> (r: &Vec<StoryNode>)
        ensures
            nodes_view(r@) == self@.nodes,
    {
        &self.nodes
    }

    /// The story's root node, by id.
    pub fn root_node(&self) -> (r: Option<u128>)
        ensures
            r == self@.root_node,
    {
        self.root_node
    }

    /// The open node editor, if any.
    pub fn editor(&self) -> (r: Option<&StoryNodeEditor>)
        ensures
            match r {
                Some(e) => self@.editor == Some(e@),
                None => self@.editor is None,
            },
    {
        self.editor.as_ref()
    }

    /// Whether removing a block asks first, as handed to the editors.
    pub fn confirm_delete_blocks(&self) -> (r: bool)
        ensures
            r == self@.confirm_delete_blocks,
    {
        self.confirm_delete_blocks
    }

    /// Sets the preferences mirror handed to every editor this page opens.
    pub fn set_confirm_delete_blocks(&mut self, confirm: bool)
        ensures
            final(self)@ == (CanvasView { confirm_delete_blocks: confirm, ..old(self)@ }),
    {
        self.confirm_delete_blocks = confirm;
    }

    /// Replaces the nodes and the root with those of a loaded project.
    pub fn load(&mut self, nodes: Vec<StoryNode>, root_node: Option<u128>)
        ensures
            final(self)@ == (CanvasView {
                nodes: nodes_view(nodes@),
                root_node,
                ..old(self)@
            }),
    {
        self.nodes = nodes;
        self.root_node = root_node;
    }

    /// The node under the cursor, if any.
    pub fn hovered_node(&self) -> (r: Option<u128>)
        ensures
            r == self@.hovered_node,
    {
        self.hovered_node
    }

    /// The pending delete confirmation, if any.
    pub fn pending_delete(&self) -> (r: Option<&(u128, ConfirmDialog)>)
        ensures
            match r {
                Some(p) => self@.pending_delete == Some((p.0, p.1@)),
                None => self@.pending_delete is None,
            },
    {
        self.pending_delete.as_ref()
    }

    /// The position of node `id`, if it is on the canvas.
    pub fn node_index(&self, id: u128) -> (r: Option<usize>)
        ensures
            match r {
                Some(i) => first_node(self@.nodes, id) == Some(i as int),
                None => first_node(self@.nodes, id) is None,
            },
    {
        find_node(&self.nodes, id)
    }

    /// Starts node `id`'s "found it" glow ring, if it is on the canvas, and
    /// returns its position so the caller can pan the camera to it; a stale
    /// id changes nothing.
    pub fn focus_node(&mut self, id: u128) -> (r: Option<usize>)
        ensures
            match r {
                Some(i) => first_node(old(self)@.nodes, id) == Some(i as int) && final(self)@ == (
                CanvasView { glow: Some(id), ..old(self)@ }),
                None => first_node(old(self)@.nodes, id) is None && final(self)@ == old(self)@,
            },
    {
        let r = find_node(&self.nodes, id);
        if r.is_some() {
            self.glow = Some((id, instant_now()));
        }
        r
    }

    /// The node whose glow ring is showing, if any.
    pub fn glow_node(&self) -> (r: Option<u128>)
        ensures
            r == self@.glow,
    {
        match &self.glow {
            Some((id, _)) => Some(*id),
            None => None,
        }
    }

    /// Whether the glow ring is still fading in, holding or fading out.
    /// Only a started glow can be; how far it has run depends on the clock.
    pub fn is_glow_active(&self) -> (r: bool)
        ensures
            r ==> self@.glow is Some,
    {
        match &self.glow {
            Some((_, started)) => pulse_running(started),
            None => false,
        }
    }

    /// An animation frame once the glow's state is known: the glow ring is
    /// dropped when it has run out.
    pub fn tick_glow(&mut self, glow_active: bool)
        ensures
            final(self)@ == if glow_active {
                old(self)@
            } else {
                CanvasView { glow: None, ..old(self)@ }
            },
    {
        if !glow_active {
            self.glow = None;
        }
    }

    /// Takes whatever `content_dirty` has accumulated since the last time
    /// this was called.
    pub fn take_content_dirty(&mut self) -> (r: bool)
        ensures
            r == old(self)@.content_dirty,
            final(self)@ == (CanvasView { content_dirty: false, ..old(self)@ }),
    {
        let r = self.content_dirty;
        self.content_dirty = false;
        r
    }

    /// Takes whether the open editor's block delete dialog had "Don't ask
    /// again" accepted since last polled.
    pub fn take_confirm_disables(&mut self) -> (r: bool)
        ensures
            r == match old(self)@.editor {
                Some(e) => e.confirm_disable,
                None => false,
            },
            final(self)@ == (CanvasView {
                editor: match old(self)@.editor {
                    Some(e) => Some(EditorView { confirm_disable: false, ..e }),
                    None => None,
                },
                ..old(self)@
            }),
    {
        match &mut self.editor {
            Some(editor) => editor.take_confirm_disable(),
            None => false,
        }
    }

    /// Sets the title of the first node with id `id`.
    fn set_title(&mut self, id: u128, title: String)
        ensures
            final(self)@ == (CanvasView {
                nodes: retitled(old(self)@.nodes, id, title@),
                ..old(self)@
            }),
    {
        let ghost pre = self@;
        match find_node(&self.nodes, id) {
            Some(i) => {
                let mut n = self.nodes[i].clone();
                n.title = title;
                let ghost nv = n@;
                self.nodes.set(i, n);
                assert(nodes_view(self.nodes@) =~= pre.nodes.update(i as int, nv));
            },
            None => {},
        }
    }

    /// Sets the blocks of the first node with id `id`.
    fn set_blocks(&mut self, id: u128, blocks: Vec<StoryBlock>)
        ensures
            final(self)@ == (CanvasView {
                nodes: reblocked(old(self)@.nodes, id, blocks_view(blocks@)),
                ..old(self)@
            }),
    {
        let ghost pre = self@;
        match find_node(&self.nodes, id) {
            Some(i) => {
                let mut n = self.nodes[i].clone();
                n.blocks = blocks;
                let ghost nv = n@;
                self.nodes.set(i, n);
                assert(nodes_view(self.nodes@) =~= pre.nodes.update(i as int, nv));
            },
            None => {},
        }
    }

    /// Deletes node `id`, closing its editor if open.
    fn delete_node(&mut self, id: u128)
        ensures
            final(self)@ == node_deleted(old(self)@, id),
    {
        let ghost pre = self@;
        let ghost nv = pre.nodes;
        let mut kept: Vec<StoryNode> = Vec::new();
        let n = self.nodes.len();
        for i in 0..n
            invariant
                n == self.nodes@.len(),
                nv == nodes_view(self.nodes@),
                nodes_view(kept@) == without_node(nv.take(i as int), id),
        {
            assert(nv.take(i + 1).drop_last() == nv.take(i as int));
            assert(nv.take(i + 1).last() == nv[i as int]);
            if self.nodes[i].id != id {
                let ghost before = kept@;
                kept.push(self.nodes[i].clone());
                assert(nodes_view(kept@) =~= nodes_view(before).push(nv[i as int]));
            }
        }
        assert(nv.take(n as int) == nv);
        self.nodes = kept;
        self.pending_delete = None;
        self.hovered_node = None;
        self.content_dirty = true;
        let close = match &self.editor {
            Some(e) => e.node_id() == id,
            None => false,
        };
        if close {
            self.editor = None;
        }
    }

    /// Applies a message. Returns `Some(id)` exactly when a click on node
    /// `id` opened its editor (a click on an id no node has opens nothing).
    pub fn update(&mut self, message: CanvasMessage) -> (r: Option<u128>)
        ensures
            canvas_update_spec(old(self)@, message, final(self)@, r),
    {
        let ghost pre = self@;
        match message {
            CanvasMessage::AddNode(title) => {
                let node = StoryNode::fresh(title);
                let ghost nv = node@;
                self.nodes.push(node);
                self.content_dirty = true;
                assert(nodes_view(self.nodes@) =~= pre.nodes.push(nv));
                assert(self@.nodes.drop_last() =~= pre.nodes);
                None
            },
            CanvasMessage::NodeMoved(id) => {
                if find_node(&self.nodes, id).is_some() {
                    self.content_dirty = true;
                }
                None
            },
            CanvasMessage::NodeClicked(id) => {
                match find_node(&self.nodes, id) {
                    Some(i) => {
                        let mut editor = StoryNodeEditor::new(&self.nodes[i]);
                        editor.set_confirm_delete_blocks(self.confirm_delete_blocks);
                        self.editor = Some(editor);
                        self.hovered_node = None;
                        Some(id)
                    },
                    None => None,
                }
            },
            CanvasMessage::NodeHoverChanged(h) => {
                self.hovered_node = h;
                None
            },
            CanvasMessage::NodeDeleteRequested(id) => {
                let title = match find_node(&self.nodes, id) {
                    Some(i) => self.nodes[i].title.clone(),
                    None => String::new(),
                };
                let dialog = ConfirmDialog::new(
                    "confirm-delete-node-title".to_string(),
                    "confirm-delete-node-message".to_string(),
                ).with_argument(title);
                self.pending_delete = Some((id, dialog));
                None
            },
            CanvasMessage::ConfirmDelete(ConfirmDialogMessage::Cancel) => {
                self.pending_delete = None;
                None
            },
            CanvasMessage::ConfirmDelete(ConfirmDialogMessage::DontAskToggled(checked)) => {
                match self.pending_delete.take() {
                    Some((id, dialog)) => {
                        let mut dialog = dialog;
                        dialog.dont_ask = Some(checked);
                        self.pending_delete = Some((id, dialog));
                    },
                    None => {},
                }
                None
            },
            CanvasMessage::ConfirmDelete(ConfirmDialogMessage::Confirm) => {
                match &self.pending_delete {
                    Some((id, _)) => {
                        let id = *id;
                        self.delete_node(id);
                    },
                    None => {},
                }
                None
            },
            CanvasMessage::AnimationTick => {
                let active = self.is_glow_active();
                self.tick_glow(active);
                None
            },
            CanvasMessage::Editor(message) => {
                let mut editor = match self.editor.take() {
                    Some(e) => e,
                    None => {
                        return None;
                    },
                };
                let ghost e0 = editor@;
                let ghost m = message;
                let event = editor.update(message);
                let node_id = editor.node_id();
                let ghost e2 = editor@;
                let ghost ev = event@;
                self.editor = Some(editor);
                let ghost mid = self@;
                assert(mid == CanvasView { editor: Some(e2), ..pre });
                match event {
                    EditorEvent::Nothing => {},
                    EditorEvent::TitleChanged(t) => {
                        self.set_title(node_id, t);
                        self.content_dirty = true;
                    },
                    EditorEvent::BlocksChanged(b) => {
                        self.set_blocks(node_id, b);
                        self.content_dirty = true;
                    },
                    EditorEvent::Closed(pending) => {
                        match pending {
                            Some(b) => {
                                self.set_blocks(node_id, b);
                                self.content_dirty = true;
                            },
                            None => {},
                        }
                        self.editor = None;
                    },
                }
                assert(update_spec(e0, m, e2, ev));
                assert(self@ == canvas_applied(mid, e0.node_id, ev));
                None
            },
        }
    }
}

/// Law: saving a title edit in the open node editor renames its node on
/// the canvas — and only that node — and marks the content changed.
pub proof fn lemma_title_save_renames_node(
    s: CanvasView,
    post: CanvasView,
    r: Option<u128>,
)
    requires
        s.editor is Some,
        s.editor->0.title_draft is Some,
        first_node(s.nodes, s.editor->0.node_id) is Some,
        canvas_update_spec(s, CanvasMessage::Editor(EditorMessage::TitleSave), post, r),
    ensures
        ({
            let i = first_node(s.nodes, s.editor->0.node_id)->0;
            let d = s.editor->0.title_draft->0;
            &&& post.nodes.len() == s.nodes.len()
            &&& post.nodes[i].title == d
            &&& post.nodes[i].id == s.nodes[i].id
            &&& post.nodes[i].blocks == s.nodes[i].blocks
            &&& forall|k: int| 0 <= k < s.nodes.len() && k != i ==> post.nodes[k] == s.nodes[k]
            &&& post.content_dirty
            &&& post.editor is Some && post.editor->0.title == d
        }),
{
    let e = s.editor->0;
    let (e2, ev) = choose|e2: EditorView, ev: EventView|
        update_spec(e, EditorMessage::TitleSave, e2, ev) && post == canvas_applied(
            CanvasView { editor: Some(e2), ..s },
            e.node_id,
            ev,
        );
    assert(ev == EventView::TitleChanged(e.title_draft->0));
}




/// Whether an editor event writes content through to the node.
pub open spec fn writes_content(ev: EventView) -> bool {
    match ev {
        EventView::TitleChanged(_) => true,
        EventView::BlocksChanged(_) => true,
        EventView::Closed(Some(_)) => true,
        _ => false,
    }
}

/// Whether handling `msg` in state `s` (reaching `post`) changed the
/// story's content: adding a node, moving a node that is on the canvas,
/// confirming a pending delete, or an editor event that writes a title or
/// blocks through. Camera, hover and dialog traffic are not content.
pub open spec fn changes_content(s: CanvasView, msg: CanvasMessage, post: CanvasView) -> bool {
    match msg {
        CanvasMessage::AddNode(_) => true,
        CanvasMessage::NodeMoved(id) => first_node(s.nodes, id) is Some,
        CanvasMessage::ConfirmDelete(ConfirmDialogMessage::Confirm) => s.pending_delete is Some,
        CanvasMessage::Editor(m) => match s.editor {
            Some(e) => exists|e2: EditorView, ev: EventView|
                update_spec(e, m, e2, ev) && post == canvas_applied(
                    CanvasView { editor: Some(e2), ..s },
                    e.node_id,
                    ev,
                ) && writes_content(ev),
            None => false,
        },
        _ => false,
    }
}

/// Law: one message sets the content-changed flag exactly when it changed
/// the content, and never clears it.
pub proof fn lemma_dirty_step(s: CanvasView, msg: CanvasMessage, post: CanvasView, r: Option<u128>)
    requires
        canvas_update_spec(s, msg, post, r),
    ensures
        post.content_dirty == (s.content_dirty || changes_content(s, msg, post)),
{
    match msg {
        CanvasMessage::Editor(m) => match s.editor {
            Some(e) => {
                let (e2, ev) = choose|e2: EditorView, ev: EventView|
                    update_spec(e, m, e2, ev) && post == canvas_applied(
                        CanvasView { editor: Some(e2), ..s },
                        e.node_id,
                        ev,
                    );
                if changes_content(s, msg, post) {
                    let (e3, ev3) = choose|e3: EditorView, ev3: EventView|
                        update_spec(e, m, e3, ev3) && post == canvas_applied(
                            CanvasView { editor: Some(e3), ..s },
                            e.node_id,
                            ev3,
                        ) && writes_content(ev3);
                    assert(post.content_dirty);
                } else {
                    if writes_content(ev) {
                        assert(changes_content(s, msg, post));
                    }
                }
            },
            None => {},
        },
        CanvasMessage::ConfirmDelete(ConfirmDialogMessage::Confirm) => {},
        _ => {},
    }
}

/// A run of the canvas: `states[k + 1]` is what handling `msgs[k]` in
/// `states[k]` led to, answering `rs[k]`.
pub open spec fn is_run(
    states: Seq<CanvasView>,
    msgs: Seq<CanvasMessage>,
    rs: Seq<Option<u128>>,
) -> bool {
    &&& states.len() == msgs.len() + 1
    &&& rs.len() == msgs.len()
    &&& forall|k: int|
        0 <= k < msgs.len() ==> canvas_update_spec(
            #[trigger] states[k],
            msgs[k],
            states[k + 1],
            rs[k],
        )
}

/// Law: starting from a clean flag (right after `take_content_dirty`), the
/// flag is set at the end of a run exactly when some message of the run
/// changed the content; panning, zooming, hovering and dialog traffic alone
/// leave it clear.
pub proof fn lemma_dirty_history(
    states: Seq<CanvasView>,
    msgs: Seq<CanvasMessage>,
    rs: Seq<Option<u128>>,
)
    requires
        is_run(states, msgs, rs),
        !states[0].content_dirty,
    ensures
        states.last().content_dirty <==> exists|k: int|
            0 <= k < msgs.len() && changes_content(#[trigger] states[k], msgs[k], states[k + 1]),
    decreases msgs.len(),
{
    if msgs.len() > 0 {
        let n = msgs.len() - 1;
        let s0 = states.drop_last();
        let m0 = msgs.drop_last();
        let r0 = rs.drop_last();
        assert forall|k: int| 0 <= k < m0.len() implies canvas_update_spec(
            #[trigger] s0[k],
            m0[k],
            s0[k + 1],
            r0[k],
        ) by {
            assert(canvas_update_spec(states[k], msgs[k], states[k + 1], rs[k]));
        }
        lemma_dirty_history(s0, m0, r0);
        assert(canvas_update_spec(states[n], msgs[n], states[n + 1], rs[n]));
        lemma_dirty_step(states[n], msgs[n], states[n + 1], rs[n]);
        assert(s0.last() == states[n]);
        if states.last().content_dirty {
            if !changes_content(states[n], msgs[n], states[n + 1]) {
                let k = choose|k: int|
                    0 <= k < m0.len() && changes_content(#[trigger] s0[k], m0[k], s0[k + 1]);
                assert(s0[k] == states[k] && s0[k + 1] == states[k + 1] && m0[k] == msgs[k]);
            }
        } else {
            assert forall|k: int| 0 <= k < msgs.len() implies !changes_content(
                #[trigger] states[k],
                msgs[k],
                states[k + 1],
            ) by {
                if k < n {
                    assert(s0[k] == states[k] && s0[k + 1] == states[k + 1] && m0[k] == msgs[k]);
                }
            }
        }
    }
}

} // verus!
