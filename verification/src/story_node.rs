//! A story node's content model: its identity, title and ordered blocks.
//! Where the node sits on the canvas is editor state kept beside it by the
//! canvas view (world-space coordinates), not part of the story itself.

use vstd::prelude::*;

use crate::ids::fresh_id;
use crate::story_block::{
    blocks_view, copy_blocks, options_view, BlockContent, BlockView, ContentView, OptionView,
    StoryBlock,
};

verus! {

/// A single passage of the story.
#[derive(Debug)]
pub struct StoryNode {
    pub id: u128,
    pub title: String,
    /// The passage's actual content, in reading order.
    pub blocks: Vec<StoryBlock>,
}

/// The mathematical value of a `StoryNode`.
pub struct NodeView {
    pub id: u128,
    pub title: Seq<char>,
    pub blocks: Seq<BlockView>,
}

impl View for StoryNode {
    type V = NodeView;

    open spec fn view(&self) -> NodeView {
        NodeView { id: self.id, title: self.title@, blocks: blocks_view(self.blocks@) }
    }
}

impl Clone for StoryNode {
    fn clone(&self) -> (r: Self)
        ensures
            r@ == self@,
    {
        StoryNode { id: self.id, title: self.title.clone(), blocks: copy_blocks(&self.blocks) }
    }
}

/// The views of a sequence of nodes.
pub open spec fn nodes_view(nodes: Seq<StoryNode>) -> Seq<NodeView> {
    nodes.map_values(|n: StoryNode| n@)
}

/// The assigned targets of `options`, in order (unassigned options skipped).
pub open spec fn option_targets(options: Seq<OptionView>) -> Seq<u128>
    decreases options.len(),
{
    if options.len() == 0 {
        Seq::empty()
    } else {
        let rest = option_targets(options.drop_last());
        match options.last().target {
            Some(t) => rest.push(t),
            None => rest,
        }
    }
}

/// The assigned targets of one block: those of its options when it is a
/// choice, none otherwise.
pub open spec fn block_targets(block: BlockView) -> Seq<u128> {
    match block.content {
        ContentView::Choice { options } => option_targets(options),
        _ => Seq::empty(),
    }
}

/// Every assigned choice target of `blocks`, block by block and option by
/// option, in reading order.
pub open spec fn outgoing(blocks: Seq<BlockView>) -> Seq<u128>
    decreases blocks.len(),
{
    if blocks.len() == 0 {
        Seq::empty()
    } else {
        outgoing(blocks.drop_last()) + block_targets(blocks.last())
    }
}

/// Whether `block` is a choice with some option linked to `t`.
pub open spec fn block_links_to(block: BlockView, t: u128) -> bool {
    match block.content {
        ContentView::Choice { options } => exists|j: int|
            0 <= j < options.len() && (#[trigger] options[j]).target == Some(t),
        _ => false,
    }
}

/// Whether some option of some choice block in `blocks` is linked to `t`.
pub open spec fn links_to(blocks: Seq<BlockView>, t: u128) -> bool {
    exists|i: int| 0 <= i < blocks.len() && block_links_to(#[trigger] blocks[i], t)
}

impl StoryNode {
    /// A fresh node (new random id) with the given title — the localized
    /// default title for "Add Node" — and no content.
    pub fn fresh(title: String) -> (r: Self)
        ensures
            r.title@ == title@,
            r.blocks@.len() == 0,
    {
        StoryNode { id: fresh_id(), title, blocks: Vec::new() }
    }

    /// A node with the given identity and title and no content.
    pub fn new(id: u128, title: String) -> (r: Self)
        ensures
            r.id == id,
            r.title@ == title@,
            r.blocks@.len() == 0,
    {
        StoryNode { id, title, blocks: Vec::new() }
    }

    /// Every node id this node's choice options link out to (unassigned
    /// options skipped, dangling ids included — the caller decides what a
    /// missing target means). This is what the canvas draws edges from.
    pub fn outgoing_targets(&self) -> (r: Vec<u128>)
        ensures
            r@ == outgoing(self@.blocks),
    {
        let ghost bv = self@.blocks;
        let mut r: Vec<u128> = Vec::new();
        let n = self.blocks.len();
        for i in 0..n
            invariant
                n == self.blocks@.len(),
                bv == blocks_view(self.blocks@),
                r@ == outgoing(bv.take(i as int)),
        {
            assert(bv.take(i + 1).drop_last() == bv.take(i as int));
            assert(bv.take(i + 1).last() == bv[i as int]);
            match &self.blocks[i].content {
                BlockContent::Choice { options } => {
                    let ghost ov = options_view(options@);
                    let ghost base = r@;
                    let m = options.len();
                    for j in 0..m
                        invariant
                            m == options@.len(),
                            ov == options_view(options@),
                            r@ == base + option_targets(ov.take(j as int)),
                    {
                        assert(ov.take(j + 1).drop_last() == ov.take(j as int));
                        assert(ov.take(j + 1).last() == ov[j as int]);
                        match options[j].target {
                            Some(t) => {
                                r.push(t);
                                assert(r@ =~= base + option_targets(ov.take(j + 1)));
                            },
                            None => {},
                        }
                    }
                    assert(ov.take(m as int) == ov);
                    assert(bv[i as int].content == ContentView::Choice { options: ov });
                },
                _ => {
                    assert(block_targets(bv[i as int]) == Seq::<u128>::empty());
                    assert(r@ =~= outgoing(bv.take(i as int)) + block_targets(bv[i as int]));
                },
            }
        }
        assert(bv.take(n as int) == bv);
        r
    }
}

/// `t` is among `option_targets(options)` exactly when some option of
/// `options` is linked to `t`.
proof fn lemma_option_targets(options: Seq<OptionView>, t: u128)
    ensures
        option_targets(options).contains(t) <==> exists|j: int|
            0 <= j < options.len() && (#[trigger] options[j]).target == Some(t),
    decreases options.len(),
{
    if options.len() > 0 {
        let init = options.drop_last();
        lemma_option_targets(init, t);
        if option_targets(options).contains(t) {
            if option_targets(init).contains(t) {
                let j = choose|j: int| 0 <= j < init.len() && (#[trigger] init[j]).target == Some(t);
                assert(options[j] == init[j]);
            } else {
                let k = choose|k: int|
                    0 <= k < option_targets(options).len() && option_targets(options)[k] == t;
                assert(options[options.len() - 1].target == Some(t));
            }
        }
        if exists|j: int| 0 <= j < options.len() && (#[trigger] options[j]).target == Some(t) {
            let j = choose|j: int| 0 <= j < options.len() && (#[trigger] options[j]).target == Some(t);
            if j < options.len() - 1 {
                assert(init[j] == options[j]);
                let k = choose|k: int|
                    0 <= k < option_targets(init).len() && option_targets(init)[k] == t;
                match options.last().target {
                    Some(x) => {
                        assert(option_targets(options)[k] == t);
                    },
                    None => {},
                }
            } else {
                assert(option_targets(options) == option_targets(init).push(t));
                assert(option_targets(options)[option_targets(init).len() as int] == t);
            }
        }
    }
}

/// Law: the outgoing targets of a node are exactly the ids that some option
/// of one of its choice blocks is linked to — nothing invented, nothing
/// dropped.
pub proof fn lemma_outgoing_targets_are_links(blocks: Seq<BlockView>, t: u128)
    ensures
        outgoing(blocks).contains(t) <==> links_to(blocks, t),
    decreases blocks.len(),
{
    if blocks.len() > 0 {
        let init = blocks.drop_last();
        let last = blocks.last();
        lemma_outgoing_targets_are_links(init, t);
        let a = outgoing(init);
        let b = block_targets(last);
        assert(outgoing(blocks) == a + b);
        match last.content {
            ContentView::Choice { options } => {
                lemma_option_targets(options, t);
            },
            _ => {},
        }
        if outgoing(blocks).contains(t) {
            let k = choose|k: int| 0 <= k < (a + b).len() && (a + b)[k] == t;
            if k < a.len() {
                assert(a[k] == t);
                assert(a.contains(t));
                let i = choose|i: int| 0 <= i < init.len() && block_links_to(#[trigger] init[i], t);
                assert(blocks[i] == init[i]);
            } else {
                assert(b[k - a.len()] == t);
                assert(b.contains(t));
                assert(block_links_to(blocks[blocks.len() - 1], t));
            }
        }
        if links_to(blocks, t) {
            let i = choose|i: int| 0 <= i < blocks.len() && block_links_to(#[trigger] blocks[i], t);
            if i < blocks.len() - 1 {
                assert(init[i] == blocks[i]);
                assert(a.contains(t));
                let k = choose|k: int| 0 <= k < a.len() && a[k] == t;
                assert((a + b)[k] == t);
            } else {
                assert(block_links_to(last, t));
                assert(b.contains(t));
                let k = choose|k: int| 0 <= k < b.len() && b[k] == t;
                assert((a + b)[a.len() + k] == t);
            }
        }
    }
}

} // verus!
