//! What the node editor's inline pickers offer and show: a choice option's
//! target selector (every other node on the canvas — never the node being
//! edited) and a dialogue block's speaker selector (every character). Both
//! refer to their picks by id, so a selector's face always shows the
//! current title or name.

use vstd::prelude::*;

use crate::project_data::Character;
use crate::story_node::{nodes_view, NodeView, StoryNode};

verus! {

/// One entry of a picker: the id it picks and the text it shows.
#[derive(Debug)]
pub struct PickerEntry {
    pub id: u128,
    pub label: String,
}

/// The views of picker entries: `(id, label)` pairs.
pub open spec fn entries_view(v: Seq<PickerEntry>) -> Seq<(u128, Seq<char>)> {
    v.map_values(|e: PickerEntry| (e.id, e.label@))
}

/// The nodes a choice option of node `current` may jump to, in canvas
/// order, as `(id, title)`: every node but `current` itself.
pub open spec fn target_candidates(nodes: Seq<NodeView>, current: u128) -> Seq<(u128, Seq<char>)>
    decreases nodes.len(),
{
    if nodes.len() == 0 {
        Seq::empty()
    } else {
        let rest = target_candidates(nodes.drop_last(), current);
        if nodes.last().id == current {
            rest
        } else {
            rest.push((nodes.last().id, nodes.last().title))
        }
    }
}

/// The entries of a choice option's target selector, after its "(None)"
/// entry: every node on the canvas except the one being edited.
pub fn choice_target_entries(current_node: u128, nodes: &Vec<StoryNode>) -> (r: Vec<PickerEntry>)
    ensures
        entries_view(r@) == target_candidates(nodes_view(nodes@), current_node),
{
    let ghost nv = nodes_view(nodes@);
    let mut out: Vec<PickerEntry> = Vec::new();
    let n = nodes.len();
    for i in 0..n
        invariant
            n == nodes@.len(),
            nv == nodes_view(nodes@),
            entries_view(out@) == target_candidates(nv.take(i as int), current_node),
    {
        assert(nv.take(i + 1).drop_last() == nv.take(i as int));
        assert(nv.take(i + 1).last() == nv[i as int]);
        if nodes[i].id != current_node {
            let ghost before = out@;
            out.push(PickerEntry { id: nodes[i].id, label: nodes[i].title.clone() });
            assert(entries_view(out@) =~= entries_view(before).push(
                (nv[i as int].id, nv[i as int].title),
            ));
        }
    }
    assert(nv.take(n as int) == nv);
    out
}

/// The title of the first node with id `id`, if there is one.
pub open spec fn title_of(nodes: Seq<NodeView>, id: u128) -> Option<Seq<char>>
    decreases nodes.len(),
{
    if nodes.len() == 0 {
        None
    } else if nodes[0].id == id {
        Some(nodes[0].title)
    } else {
        title_of(nodes.drop_first(), id)
    }
}

/// The face of a choice option's target selector: the target node's
/// current title, or `None` (shown as "(None)") when the option has no
/// target or its target is no longer on the canvas.
pub fn choice_target_label(target: Option<u128>, nodes: &Vec<StoryNode>) -> (r: Option<String>)
    ensures
        match r {
            Some(t) => target is Some && title_of(nodes_view(nodes@), target->0) == Some(t@),
            None => target is None || title_of(nodes_view(nodes@), target->0) is None,
        },
{
    let id = match target {
        Some(id) => id,
        None => {
            return None;
        },
    };
    let ghost nv = nodes_view(nodes@);
    assert(nv.skip(0) =~= nv);
    let n = nodes.len();
    for i in 0..n
        invariant
            n == nodes@.len(),
            nv == nodes_view(nodes@),
            target == Some(id),
            title_of(nv, id) == title_of(nv.skip(i as int), id),
    {
        assert(nv.skip(i as int).drop_first() =~= nv.skip(i + 1));
        assert(nv.skip(i as int)[0] == nv[i as int]);
        if nodes[i].id == id {
            assert(nv[i as int].title == nodes@[i as int].title@);
            assert(title_of(nv.skip(i as int), id) == Some(nv[i as int].title));
            return Some(nodes[i].title.clone());
        }
    }
    None
}

/// The entries of a dialogue block's speaker selector, after its "(None)"
/// entry: every character, in page order, as `(id, name)`.
pub open spec fn speaker_candidates(chars: Seq<Character>) -> Seq<(u128, Seq<char>)> {
    chars.map_values(|c: Character| (c.id, c.name@))
}

/// The entries of a dialogue block's speaker selector.
pub fn speaker_entries(characters: &Vec<Character>) -> (r: Vec<PickerEntry>)
    ensures
        entries_view(r@) == speaker_candidates(characters@),
{
    let mut out: Vec<PickerEntry> = Vec::new();
    let n = characters.len();
    for i in 0..n
        invariant
            n == characters@.len(),
            entries_view(out@) == speaker_candidates(characters@.take(i as int)),
    {
        let ghost before = out@;
        out.push(PickerEntry { id: characters[i].id, label: characters[i].name.clone() });
        assert(characters@.take(i + 1) =~= characters@.take(i as int).push(characters@[i as int]));
        assert(entries_view(out@) =~= entries_view(before).push(
            (characters@[i as int].id, characters@[i as int].name@),
        ));
        assert(entries_view(out@) =~= speaker_candidates(characters@.take(i + 1)));
    }
    assert(characters@.take(n as int) == characters@);
    out
}

/// The name of the first character with id `id`, if there is one.
pub open spec fn name_of(chars: Seq<Character>, id: u128) -> Option<Seq<char>>
    decreases chars.len(),
{
    if chars.len() == 0 {
        None
    } else if chars[0].id == id {
        Some(chars[0].name@)
    } else {
        name_of(chars.drop_first(), id)
    }
}

/// The face of a dialogue block's speaker selector: the speaker's current
/// name, or `None` (shown as "(None)") when there is no speaker or it is no
/// longer in the cast.
pub fn speaker_label(speaker: Option<u128>, characters: &Vec<Character>) -> (r: Option<String>)
    ensures
        match r {
            Some(t) => speaker is Some && name_of(characters@, speaker->0) == Some(t@),
            None => speaker is None || name_of(characters@, speaker->0) is None,
        },
{
    let id = match speaker {
        Some(id) => id,
        None => {
            return None;
        },
    };
    assert(characters@.skip(0) =~= characters@);
    let n = characters.len();
    for i in 0..n
        invariant
            n == characters@.len(),
            speaker == Some(id),
            name_of(characters@, id) == name_of(characters@.skip(i as int), id),
    {
        assert(characters@.skip(i as int).drop_first() =~= characters@.skip(i + 1));
        assert(characters@.skip(i as int)[0] == characters@[i as int]);
        if characters[i].id == id {
            assert(name_of(characters@.skip(i as int), id) == Some(characters@[i as int].name@));
            return Some(characters[i].name.clone());
        }
    }
    None
}

/// Law: a choice option's target selector never offers the node being
/// edited, and offers every other node on the canvas.
pub proof fn lemma_targets_exclude_current(nodes: Seq<NodeView>, current: u128)
    ensures
        forall|k: int|
            0 <= k < target_candidates(nodes, current).len() ==> (#[trigger] target_candidates(
                nodes,
                current,
            )[k]).0 != current,
        forall|j: int|
            0 <= j < nodes.len() && (#[trigger] nodes[j]).id != current ==> target_candidates(
                nodes,
                current,
            ).contains((nodes[j].id, nodes[j].title)),
    decreases nodes.len(),
{
    if nodes.len() > 0 {
        let init = nodes.drop_last();
        lemma_targets_exclude_current(init, current);
        let rest = target_candidates(init, current);
        assert forall|j: int| 0 <= j < nodes.len() && (#[trigger] nodes[j]).id != current implies target_candidates(
            nodes,
            current,
        ).contains((nodes[j].id, nodes[j].title)) by {
            if j < nodes.len() - 1 {
                assert(init[j] == nodes[j]);
                let k = choose|k: int| 0 <= k < rest.len() && rest[k] == (init[j].id, init[j].title);
                if nodes.last().id != current {
                    assert(rest.push((nodes.last().id, nodes.last().title))[k] == rest[k]);
                }
            } else {
                assert(rest.push((nodes.last().id, nodes.last().title))[rest.len() as int] == (
                    nodes[j].id,
                    nodes[j].title,
                ));
            }
        }
    }
}

/// Law: picks are by id, so a renamed character shows under its new name
/// wherever it speaks.
pub proof fn lemma_renamed_speaker_shows_new_name(chars: Seq<Character>, i: int, renamed: Character)
    requires
        0 <= i < chars.len(),
        renamed.id == chars[i].id,
        forall|k: int| 0 <= k < i ==> (#[trigger] chars[k]).id != chars[i].id,
    ensures
        name_of(chars.update(i, renamed), chars[i].id) == Some(renamed.name@),
    decreases i,
{
    if i > 0 {
        let u = chars.update(i, renamed);
        assert(u.drop_first() =~= chars.drop_first().update(i - 1, renamed));
        assert forall|k: int| 0 <= k < i - 1 implies (#[trigger] chars.drop_first()[k]).id
            != chars.drop_first()[i - 1].id by {
            assert(chars.drop_first()[k] == chars[k + 1]);
        }
        lemma_renamed_speaker_shows_new_name(chars.drop_first(), i - 1, renamed);
        assert(u[0] == chars[0]);
    }
}

} // verus!
