//! The Find panel's searching: the result list for the current query and
//! target (nodes by title or content, characters by name), and how the
//! panel's own state reacts to its messages and to the arrow keys.

use vstd::prelude::*;

use crate::dialogs::{FindMessage, FindPanel, FindTarget};
use crate::project_data::Character;
use crate::story_block::{content_matches, lower_contains, ContentView};
use crate::story_node::{nodes_view, NodeView, StoryNode};
use crate::text::{contains_sub, lowercase_of, str_contains, to_lowercase};

verus! {

/// One matching result row, already resolved to a display name.
#[derive(Debug)]
pub struct FindResult {
    pub id: u128,
    pub label: String,
}

/// The views of a list of results: `(id, label)` pairs.
pub open spec fn results_view(results: Seq<FindResult>) -> Seq<(u128, Seq<char>)> {
    results.map_values(|r: FindResult| (r.id, r.label@))
}

/// Whether node `n` matches the lowercased query `q`: an empty query
/// matches everything; otherwise the title or any block's text must
/// contain it (a content match is still labelled by the title).
pub open spec fn node_matches(n: NodeView, q: Seq<char>) -> bool {
    ||| q.len() == 0
    ||| lower_contains(n.title, q)
    ||| exists|i: int| 0 <= i < n.blocks.len() && content_matches(#[trigger] n.blocks[i].content, q)
}

/// Whether character `c` matches the lowercased query `q`, by name.
pub open spec fn character_matches(c: Character, q: Seq<char>) -> bool {
    q.len() == 0 || lower_contains(c.name@, q)
}

/// The matching nodes, in canvas order, as `(id, title)`.
pub open spec fn node_results(nodes: Seq<NodeView>, q: Seq<char>) -> Seq<(u128, Seq<char>)>
    decreases nodes.len(),
{
    if nodes.len() == 0 {
        Seq::empty()
    } else {
        let rest = node_results(nodes.drop_last(), q);
        if node_matches(nodes.last(), q) {
            rest.push((nodes.last().id, nodes.last().title))
        } else {
            rest
        }
    }
}

/// The matching characters, in page order, as `(id, name)`.
pub open spec fn character_results(chars: Seq<Character>, q: Seq<char>) -> Seq<(u128, Seq<char>)>
    decreases chars.len(),
{
    if chars.len() == 0 {
        Seq::empty()
    } else {
        let rest = character_results(chars.drop_last(), q);
        if character_matches(chars.last(), q) {
            rest.push((chars.last().id, chars.last().name@))
        } else {
            rest
        }
    }
}

/// The result list for `query` (lowercased before matching) over the
/// target's collection.
pub open spec fn search(
    target: FindTarget,
    query: Seq<char>,
    nodes: Seq<NodeView>,
    chars: Seq<Character>,
) -> Seq<(u128, Seq<char>)> {
    match target {
        FindTarget::Node => node_results(nodes, lowercase_of(query)),
        FindTarget::Character => character_results(chars, lowercase_of(query)),
    }
}

/// Whether `node` matches the already lowercased `query`.
fn node_is_match(node: &StoryNode, query: &str) -> (r: bool)
    ensures
        r == node_matches(node@, query@),
{
    if query.is_empty() {
        return true;
    }
    if str_contains(&to_lowercase(&node.title), query) {
        return true;
    }
    let ghost nv = node@;
    let n = node.blocks.len();
    for i in 0..n
        invariant
            n == node.blocks@.len(),
            nv == node@,
            forall|k: int| 0 <= k < i ==> !content_matches(#[trigger] nv.blocks[k].content, query@),
    {
        if node.blocks[i].matches_query(query) {
            assert(content_matches(nv.blocks[i as int].content, query@));
            return true;
        }
    }
    false
}

/// The current results for `panel`'s query and target, built from the
/// canvas's nodes or the characters page's characters.
pub fn find_results(panel: &FindPanel, nodes: &Vec<StoryNode>, characters: &Vec<Character>) -> (r:
    Vec<FindResult>)
    ensures
        results_view(r@) == search(panel.target, panel.query@, nodes_view(nodes@), characters@),
{
    let query = to_lowercase(&panel.query);
    let mut out: Vec<FindResult> = Vec::new();
    match panel.target {
        FindTarget::Node => {
            let ghost nv = nodes_view(nodes@);
            let n = nodes.len();
            for i in 0..n
                invariant
                    n == nodes@.len(),
                    nv == nodes_view(nodes@),
                    results_view(out@) == node_results(nv.take(i as int), query@),
            {
                assert(nv.take(i + 1).drop_last() == nv.take(i as int));
                assert(nv.take(i + 1).last() == nv[i as int]);
                if node_is_match(&nodes[i], query.as_str()) {
                    let ghost before = out@;
                    out.push(FindResult { id: nodes[i].id, label: nodes[i].title.clone() });
                    assert(results_view(out@) =~= results_view(before).push(
                        (nv[i as int].id, nv[i as int].title),
                    ));
                }
            }
            assert(nv.take(n as int) == nv);
        },
        FindTarget::Character => {
            let ghost cv = characters@;
            let n = characters.len();
            for i in 0..n
                invariant
                    n == characters@.len(),
                    cv == characters@,
                    results_view(out@) == character_results(cv.take(i as int), query@),
            {
                assert(cv.take(i + 1).drop_last() == cv.take(i as int));
                assert(cv.take(i + 1).last() == cv[i as int]);
                let c = &characters[i];
                if query.as_str().is_empty() || str_contains(&to_lowercase(&c.name), query.as_str()) {
                    let ghost before = out@;
                    out.push(FindResult { id: c.id, label: c.name.clone() });
                    assert(results_view(out@) =~= results_view(before).push((c.id, c.name@)));
                }
            }
            assert(cv.take(n as int) == cv);
        },
    }
    out
}

/// The id behind result row `index`, if there is such a row.
pub fn result_at(results: &Vec<FindResult>, index: usize) -> (r: Option<u128>)
    ensures
        r == if index < results@.len() {
            Some(results@[index as int].id)
        } else {
            None
        },
{
    if index < results.len() {
        Some(results[index].id)
    } else {
        None
    }
}

/// What the caller does after the panel handled a message.
#[derive(Debug, Clone, Copy, PartialEq, Eq, Structural)]
pub enum FindAction {
    /// Nothing beyond the panel's own state change.
    Nothing,
    /// Act on result row `index`: switch to its page and focus it.
    Select(usize),
    /// Close the panel.
    Close,
}

/// A panel's state as `(query, target, highlighted)`.
pub open spec fn panel_view(p: FindPanel) -> (Seq<char>, FindTarget, usize) {
    (p.query@, p.target, p.highlighted)
}

/// `(h + 1) mod len`: the row below `h`, wrapping to the top.
pub open spec fn row_below(h: usize, len: usize) -> int {
    (h + 1) % (len as int)
}

/// `(h + len - 1) mod len`: the row above `h`, wrapping to the bottom.
pub open spec fn row_above(h: usize, len: usize) -> int {
    (h + len - 1) % (len as int)
}

impl FindPanel {
    /// Handles one of the panel's messages: editing the query or switching
    /// the target resets the highlight to the first row; hovering a row
    /// highlights it; a click selects that row and Enter selects the
    /// highlighted one.
    pub fn update(&mut self, message: FindMessage) -> (r: FindAction)
        ensures
            match message {
                FindMessage::QueryChanged(q) => {
                    &&& panel_view(*final(self)) == (q@, old(self).target, 0usize)
                    &&& r == FindAction::Nothing
                },
                FindMessage::TargetChanged(i) => {
                    &&& final(self).query@ == old(self).query@
                    &&& final(self).target == (if i == 1 {
                        FindTarget::Character
                    } else {
                        FindTarget::Node
                    })
                    &&& final(self).highlighted == 0
                    &&& r == FindAction::Nothing
                },
                FindMessage::ResultHovered(i) => {
                    &&& panel_view(*final(self)) == (old(self).query@, old(self).target, i)
                    &&& r == FindAction::Nothing
                },
                FindMessage::ResultClicked(i) => {
                    &&& panel_view(*final(self)) == panel_view(*old(self))
                    &&& r == FindAction::Select(i)
                },
                FindMessage::Confirm => {
                    &&& panel_view(*final(self)) == panel_view(*old(self))
                    &&& r == FindAction::Select(old(self).highlighted)
                },
                FindMessage::Close => {
                    &&& panel_view(*final(self)) == panel_view(*old(self))
                    &&& r == FindAction::Close
                },
            },
    {
        match message {
            FindMessage::QueryChanged(q) => {
                self.query = q;
                self.highlighted = 0;
                FindAction::Nothing
            },
            FindMessage::TargetChanged(i) => {
                self.target = FindTarget::from_index(i);
                self.highlighted = 0;
                FindAction::Nothing
            },
            FindMessage::ResultHovered(i) => {
                self.highlighted = i;
                FindAction::Nothing
            },
            FindMessage::ResultClicked(i) => FindAction::Select(i),
            FindMessage::Confirm => FindAction::Select(self.highlighted),
            FindMessage::Close => FindAction::Close,
        }
    }

    /// Arrow Down over `len` results: the next row, wrapping to the first;
    /// nothing moves when there are no results.
    pub fn move_down(&mut self, len: usize)
        ensures
            final(self).query@ == old(self).query@,
            final(self).target == old(self).target,
            final(self).highlighted == if len > 0 {
                row_below(old(self).highlighted, len)
            } else {
                old(self).highlighted as int
            },
    {
        if len > 0 {
            let h = self.highlighted % len;
            let next = if h + 1 == len {
                0
            } else {
                h + 1
            };
            proof {
                let l = len as int;
                vstd::arithmetic::div_mod::lemma_add_mod_noop_right(1, self.highlighted as int, l);
                if h + 1 == len {
                    vstd::arithmetic::div_mod::lemma_mod_self_0(l);
                } else {
                    vstd::arithmetic::div_mod::lemma_small_mod((h + 1) as nat, len as nat);
                }
            }
            self.highlighted = next;
        }
    }

    /// Arrow Up over `len` results: the previous row, wrapping to the last;
    /// nothing moves when there are no results.
    pub fn move_up(&mut self, len: usize)
        ensures
            final(self).query@ == old(self).query@,
            final(self).target == old(self).target,
            final(self).highlighted == if len > 0 {
                row_above(old(self).highlighted, len)
            } else {
                old(self).highlighted as int
            },
    {
        if len > 0 {
            let h = self.highlighted % len;
            let prev = if h == 0 {
                len - 1
            } else {
                h - 1
            };
            proof {
                let l = len as int;
                vstd::arithmetic::div_mod::lemma_add_mod_noop_right(l - 1, self.highlighted as int, l);
                if h == 0 {
                    vstd::arithmetic::div_mod::lemma_small_mod((len - 1) as nat, len as nat);
                } else {
                    vstd::arithmetic::div_mod::lemma_mod_add_multiples_vanish(h - 1, l);
                    vstd::arithmetic::div_mod::lemma_small_mod((h - 1) as nat, len as nat);
                    assert(h + (l - 1) == l + (h - 1));
                }
            }
            self.highlighted = prev;
        }
    }
}

/// The keys the Find panel reacts to while it is open.
#[derive(Debug, Clone, Copy, PartialEq, Eq, Structural)]
pub enum FindKey {
    ArrowDown,
    ArrowUp,
    Enter,
}

impl FindPanel {
    /// A key press while the panel is open, with `len` results showing:
    /// Down and Up move the highlight (wrapping; nothing moves without
    /// results), Enter selects the highlighted row. The query and target
    /// never change.
    pub fn on_key(&mut self, key: FindKey, len: usize) -> (r: FindAction)
        ensures
            final(self).query@ == old(self).query@,
            final(self).target == old(self).target,
            match key {
                FindKey::ArrowDown => {
                    &&& r == FindAction::Nothing
                    &&& final(self).highlighted == if len > 0 {
                        row_below(old(self).highlighted, len)
                    } else {
                        old(self).highlighted as int
                    }
                },
                FindKey::ArrowUp => {
                    &&& r == FindAction::Nothing
                    &&& final(self).highlighted == if len > 0 {
                        row_above(old(self).highlighted, len)
                    } else {
                        old(self).highlighted as int
                    }
                },
                FindKey::Enter => {
                    &&& r == FindAction::Select(old(self).highlighted)
                    &&& final(self).highlighted == old(self).highlighted
                },
            },
    {
        match key {
            FindKey::ArrowDown => {
                self.move_down(len);
                FindAction::Nothing
            },
            FindKey::ArrowUp => {
                self.move_up(len);
                FindAction::Nothing
            },
            FindKey::Enter => FindAction::Select(self.highlighted),
        }
    }
}

/// Law: with an empty query every item of the target's collection is a
/// result, in order.
pub proof fn lemma_empty_query_lists_all(nodes: Seq<NodeView>, q: Seq<char>)
    requires
        q.len() == 0,
    ensures
        node_results(nodes, q) == nodes.map_values(|n: NodeView| (n.id, n.title)),
    decreases nodes.len(),
{
    if nodes.len() > 0 {
        lemma_empty_query_lists_all(nodes.drop_last(), q);
        assert(nodes.map_values(|n: NodeView| (n.id, n.title)).drop_last() =~= nodes.drop_last().map_values(
            |n: NodeView| (n.id, n.title),
        ));
    }
}

/// Law: every result names a node of the canvas that matches the query.
pub proof fn lemma_node_results_match(nodes: Seq<NodeView>, q: Seq<char>)
    ensures
        forall|k: int|
            0 <= k < node_results(nodes, q).len() ==> exists|j: int|
                0 <= j < nodes.len() && node_matches(#[trigger] nodes[j], q) && (
                #[trigger] node_results(nodes, q)[k]) == (nodes[j].id, nodes[j].title),
    decreases nodes.len(),
{
    if nodes.len() > 0 {
        let init = nodes.drop_last();
        lemma_node_results_match(init, q);
        let rest = node_results(init, q);
        assert forall|k: int| 0 <= k < node_results(nodes, q).len() implies exists|j: int|
            0 <= j < nodes.len() && node_matches(#[trigger] nodes[j], q) && (
            #[trigger] node_results(nodes, q)[k]) == (nodes[j].id, nodes[j].title) by {
            if k < rest.len() {
                let j = choose|j: int|
                    0 <= j < init.len() && node_matches(#[trigger] init[j], q) && (#[trigger] rest[k])
                        == (init[j].id, init[j].title);
                assert(nodes[j] == init[j]);
            } else {
                assert(nodes[nodes.len() - 1] == nodes.last());
            }
        }
    }
}

/// Law: the arrow keys undo each other — Down then Up over the same
/// results lands on the row the highlight started from (taken modulo the
/// number of results).
pub proof fn lemma_down_then_up(h: usize, len: usize)
    requires
        len > 0,
        h < len,
    ensures
        row_above(row_below(h, len) as usize, len) == h,
{
    let d = row_below(h, len);
    if h + 1 < len {
        vstd::arithmetic::div_mod::lemma_small_mod((h + 1) as nat, len as nat);
        vstd::arithmetic::div_mod::lemma_mod_add_multiples_vanish(h as int, len as int);
        vstd::arithmetic::div_mod::lemma_small_mod(h as nat, len as nat);
    } else {
        vstd::arithmetic::div_mod::lemma_mod_self_0(len as int);
        vstd::arithmetic::div_mod::lemma_small_mod((len - 1) as nat, len as nat);
    }
}


/// `q` occurs in `t` starting at position `at`.
pub open spec fn occurs_at(t: Seq<char>, q: Seq<char>, at: int) -> bool {
    0 <= at && at + q.len() <= t.len() && t.subrange(at, at + q.len()) == q
}

/// Every node that matches is among the node results, as `(id, title)`.
proof fn lemma_matching_node_listed(nodes: Seq<NodeView>, q: Seq<char>, j: int)
    requires
        0 <= j < nodes.len(),
        node_matches(nodes[j], q),
    ensures
        node_results(nodes, q).contains((nodes[j].id, nodes[j].title)),
    decreases nodes.len(),
{
    let rest = node_results(nodes.drop_last(), q);
    if j < nodes.len() - 1 {
        assert(nodes.drop_last()[j] == nodes[j]);
        lemma_matching_node_listed(nodes.drop_last(), q, j);
        let k = choose|k: int| 0 <= k < rest.len() && rest[k] == (nodes[j].id, nodes[j].title);
        if node_matches(nodes.last(), q) {
            assert(rest.push((nodes.last().id, nodes.last().title))[k] == rest[k]);
        }
    } else {
        assert(nodes.last() == nodes[j]);
        assert(rest.push((nodes.last().id, nodes.last().title))[rest.len() as int] == (
            nodes[j].id,
            nodes[j].title,
        ));
    }
}

/// Every character that matches is among the character results, as
/// `(id, name)`.
proof fn lemma_matching_character_listed(chars: Seq<Character>, q: Seq<char>, j: int)
    requires
        0 <= j < chars.len(),
        character_matches(chars[j], q),
    ensures
        character_results(chars, q).contains((chars[j].id, chars[j].name@)),
    decreases chars.len(),
{
    let rest = character_results(chars.drop_last(), q);
    if j < chars.len() - 1 {
        assert(chars.drop_last()[j] == chars[j]);
        lemma_matching_character_listed(chars.drop_last(), q, j);
        let k = choose|k: int| 0 <= k < rest.len() && rest[k] == (chars[j].id, chars[j].name@);
        if character_matches(chars.last(), q) {
            assert(rest.push((chars.last().id, chars.last().name@))[k] == rest[k]);
        }
    } else {
        assert(chars.last() == chars[j]);
        assert(rest.push((chars.last().id, chars.last().name@))[rest.len() as int] == (
            chars[j].id,
            chars[j].name@,
        ));
    }
}

/// Law: searching nodes finds a node whose lowercased title contains the
/// lowercased query anywhere, and every node when the query is empty.
pub proof fn lemma_node_found_by_title(
    nodes: Seq<NodeView>,
    chars: Seq<Character>,
    query: Seq<char>,
    j: int,
    at: int,
)
    requires
        0 <= j < nodes.len(),
        lowercase_of(query).len() == 0 || occurs_at(lowercase_of(nodes[j].title), lowercase_of(query), at),
    ensures
        search(FindTarget::Node, query, nodes, chars).contains((nodes[j].id, nodes[j].title)),
{
    let q = lowercase_of(query);
    if q.len() != 0 {
        assert(contains_sub(lowercase_of(nodes[j].title), q));
    }
    lemma_matching_node_listed(nodes, q, j);
}

/// Law: searching nodes finds a node through the text of any of its
/// blocks, whatever the kind — narration, dialogue and note prose, every
/// choice option's label, and a directive's command and argument — when
/// that text, lowercased, contains the lowercased query anywhere. The node
/// is still listed under its title.
pub proof fn lemma_node_found_by_block_text(
    nodes: Seq<NodeView>,
    chars: Seq<Character>,
    query: Seq<char>,
    j: int,
    b: int,
    o: int,
    at: int,
)
    requires
        0 <= j < nodes.len(),
        0 <= b < nodes[j].blocks.len(),
        match nodes[j].blocks[b].content {
            ContentView::Narration { text } => occurs_at(lowercase_of(text), lowercase_of(query), at),
            ContentView::Dialogue { text, .. } => occurs_at(
                lowercase_of(text),
                lowercase_of(query),
                at,
            ),
            ContentView::Note { text } => occurs_at(lowercase_of(text), lowercase_of(query), at),
            ContentView::Choice { options } => 0 <= o < options.len() && occurs_at(
                lowercase_of(options[o].label),
                lowercase_of(query),
                at,
            ),
            ContentView::Directive { command, argument } => occurs_at(
                lowercase_of(command),
                lowercase_of(query),
                at,
            ) || occurs_at(lowercase_of(argument), lowercase_of(query), at),
        },
    ensures
        search(FindTarget::Node, query, nodes, chars).contains((nodes[j].id, nodes[j].title)),
{
    let q = lowercase_of(query);
    let c = nodes[j].blocks[b].content;
    match c {
        ContentView::Choice { options } => {
            assert(contains_sub(lowercase_of(options[o].label), q));
            assert(lower_contains(options[o].label, q));
        },
        ContentView::Directive { command, argument } => {
            if occurs_at(lowercase_of(command), q, at) {
                assert(contains_sub(lowercase_of(command), q));
            } else {
                assert(contains_sub(lowercase_of(argument), q));
            }
        },
        ContentView::Narration { text } => {
            assert(contains_sub(lowercase_of(text), q));
        },
        ContentView::Dialogue { text, .. } => {
            assert(contains_sub(lowercase_of(text), q));
        },
        ContentView::Note { text } => {
            assert(contains_sub(lowercase_of(text), q));
        },
    }
    assert(content_matches(nodes[j].blocks[b].content, q));
    assert(node_matches(nodes[j], q));
    lemma_matching_node_listed(nodes, q, j);
}

/// Law: searching characters finds a character whose lowercased name
/// contains the lowercased query anywhere — not only at its start — and
/// every character when the query is empty.
pub proof fn lemma_character_found_by_name(
    nodes: Seq<NodeView>,
    chars: Seq<Character>,
    query: Seq<char>,
    j: int,
    at: int,
)
    requires
        0 <= j < chars.len(),
        lowercase_of(query).len() == 0 || occurs_at(
            lowercase_of(chars[j].name@),
            lowercase_of(query),
            at,
        ),
    ensures
        search(FindTarget::Character, query, nodes, chars).contains((chars[j].id, chars[j].name@)),
{
    let q = lowercase_of(query);
    if q.len() != 0 {
        assert(contains_sub(lowercase_of(chars[j].name@), q));
    }
    lemma_matching_character_listed(chars, q, j);
}


/// Every character result names a character that matches.
proof fn lemma_character_results_match(chars: Seq<Character>, q: Seq<char>)
    ensures
        forall|k: int|
            0 <= k < character_results(chars, q).len() ==> exists|j: int|
                0 <= j < chars.len() && character_matches(#[trigger] chars[j], q) && (
                #[trigger] character_results(chars, q)[k]) == (chars[j].id, chars[j].name@),
    decreases chars.len(),
{
    if chars.len() > 0 {
        let init = chars.drop_last();
        lemma_character_results_match(init, q);
        let rest = character_results(init, q);
        assert forall|k: int| 0 <= k < character_results(chars, q).len() implies exists|j: int|
            0 <= j < chars.len() && character_matches(#[trigger] chars[j], q) && (
            #[trigger] character_results(chars, q)[k]) == (chars[j].id, chars[j].name@) by {
            if k < rest.len() {
                let j = choose|j: int|
                    0 <= j < init.len() && character_matches(#[trigger] init[j], q) && (
                    #[trigger] rest[k]) == (init[j].id, init[j].name@);
                assert(chars[j] == init[j]);
            } else {
                assert(chars[chars.len() - 1] == chars.last());
            }
        }
    }
}

/// Law: every node result is `(id, title)` of a node whose title or some
/// block's text contains the lowercased query (any node, for an empty
/// query) — nothing else is ever listed.
pub proof fn lemma_node_results_are_matches(
    nodes: Seq<NodeView>,
    chars: Seq<Character>,
    query: Seq<char>,
    k: int,
)
    requires
        0 <= k < search(FindTarget::Node, query, nodes, chars).len(),
    ensures
        exists|j: int|
            0 <= j < nodes.len() && search(FindTarget::Node, query, nodes, chars)[k] == (
                nodes[j].id,
                nodes[j].title,
            ) && (lowercase_of(query).len() == 0 || contains_sub(
                lowercase_of(#[trigger] nodes[j].title),
                lowercase_of(query),
            ) || exists|b: int|
                0 <= b < nodes[j].blocks.len() && content_matches(
                    #[trigger] nodes[j].blocks[b].content,
                    lowercase_of(query),
                )),
{
    lemma_node_results_match(nodes, lowercase_of(query));
}

/// Law: every character result is `(id, name)` of a character whose
/// lowercased name contains the lowercased query (any character, for an
/// empty query) — nothing else is ever listed.
pub proof fn lemma_character_results_are_matches(
    nodes: Seq<NodeView>,
    chars: Seq<Character>,
    query: Seq<char>,
    k: int,
)
    requires
        0 <= k < search(FindTarget::Character, query, nodes, chars).len(),
    ensures
        exists|j: int|
            0 <= j < chars.len() && search(FindTarget::Character, query, nodes, chars)[k] == (
                chars[j].id,
                chars[j].name@,
            ) && (lowercase_of(query).len() == 0 || contains_sub(
                lowercase_of(#[trigger] chars[j].name@),
                lowercase_of(query),
            )),
{
    let q = lowercase_of(query);
    lemma_character_results_match(chars, q);
    let r = character_results(chars, q);
    assert(search(FindTarget::Character, query, nodes, chars) == r);
    let j = choose|j: int|
        0 <= j < chars.len() && character_matches(#[trigger] chars[j], q) && (#[trigger] r[k]) == (
            chars[j].id,
            chars[j].name@,
        );
    assert(q.len() == 0 || contains_sub(lowercase_of(chars[j].name@), q));
}

} // verus!
