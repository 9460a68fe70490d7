//! The building blocks that make up a story node's content: an ordered list
//! of typed blocks — narration, character dialogue, player choices,
//! game-engine directives, and author-only notes. Dialogue refers to a
//! character and choices refer to a target node by identity rather than by
//! name, so renames propagate for free; a reference whose entity was deleted
//! is kept as-is (and shown as unassigned) instead of being cascaded away.

use vstd::prelude::*;

use crate::ids::fresh_id;
use crate::text::{contains_sub, lowercase_of, str_contains, to_lowercase};

verus! {

/// One option of a choice block. `target` is a node id; `None` means not
/// linked (yet, or the node was deleted).
#[derive(Debug)]
pub struct ChoiceOption {
    pub id: u128,
    pub label: String,
    pub target: Option<u128>,
}

/// The mathematical value of a `ChoiceOption`.
pub struct OptionView {
    pub id: u128,
    pub label: Seq<char>,
    pub target: Option<u128>,
}

impl View for ChoiceOption {
    type V = OptionView;

    open spec fn view(&self) -> OptionView {
        OptionView { id: self.id, label: self.label@, target: self.target }
    }
}

impl Clone for ChoiceOption {
    fn clone(&self) -> (r: Self)
        ensures
            r@ == self@,
    {
        ChoiceOption { id: self.id, label: self.label.clone(), target: self.target }
    }
}

impl Default for ChoiceOption {
    /// A fresh, unlinked option with an empty label.
    fn default() -> (r: Self)
        ensures
            r.label@ == Seq::<char>::empty(),
            r.target is None,
    {
        ChoiceOption { id: fresh_id(), label: String::new(), target: None }
    }
}

/// The views of a sequence of options.
pub open spec fn options_view(options: Seq<ChoiceOption>) -> Seq<OptionView> {
    options.map_values(|o: ChoiceOption| o@)
}

/// What a block actually holds, tagged by kind.
#[derive(Debug)]
pub enum BlockContent {
    /// Speaker-less prose: scene description, narrator text.
    Narration { text: String },
    /// A spoken line. `speaker` is a character id; `None` means no speaker
    /// assigned (yet, or the character was deleted).
    Dialogue { speaker: Option<u128>, text: String },
    /// Player-facing branching: each option can point at another node, which
    /// is what forms the story graph's edges.
    Choice { options: Vec<ChoiceOption> },
    /// A game-engine hook (e.g. `play_music` / `tavern_theme`).
    Directive { command: String, argument: String },
    /// Writer-only comment.
    Note { text: String },
}

/// The mathematical value of a `BlockContent`.
pub enum ContentView {
    Narration { text: Seq<char> },
    Dialogue { speaker: Option<u128>, text: Seq<char> },
    Choice { options: Seq<OptionView> },
    Directive { command: Seq<char>, argument: Seq<char> },
    Note { text: Seq<char> },
}

impl View for BlockContent {
    type V = ContentView;

    open spec fn view(&self) -> ContentView {
        match self {
            BlockContent::Narration { text } => ContentView::Narration { text: text@ },
            BlockContent::Dialogue { speaker, text } => ContentView::Dialogue {
                speaker: *speaker,
                text: text@,
            },
            BlockContent::Choice { options } => ContentView::Choice {
                options: options_view(options@),
            },
            BlockContent::Directive { command, argument } => ContentView::Directive {
                command: command@,
                argument: argument@,
            },
            BlockContent::Note { text } => ContentView::Note { text: text@ },
        }
    }
}

/// A copy of `options`, element for element.
pub fn copy_options(options: &Vec<ChoiceOption>) -> (r: Vec<ChoiceOption>)
    ensures
        options_view(r@) == options_view(options@),
{
    let mut r: Vec<ChoiceOption> = Vec::new();
    let n = options.len();
    for i in 0..n
        invariant
            n == options@.len(),
            options_view(r@) == options_view(options@.take(i as int)),
    {
        r.push(options[i].clone());
        assert(options_view(options@.take(i + 1)) =~= options_view(options@.take(i as int)).push(
            options@[i as int]@,
        ));
        assert(options_view(r@) =~= options_view(options@.take(i + 1)));
    }
    assert(options@.take(n as int) == options@);
    r
}

impl Clone for BlockContent {
    fn clone(&self) -> (r: Self)
        ensures
            r@ == self@,
    {
        match self {
            BlockContent::Narration { text } => BlockContent::Narration { text: text.clone() },
            BlockContent::Dialogue { speaker, text } => BlockContent::Dialogue {
                speaker: *speaker,
                text: text.clone(),
            },
            BlockContent::Choice { options } => BlockContent::Choice {
                options: copy_options(options),
            },
            BlockContent::Directive { command, argument } => BlockContent::Directive {
                command: command.clone(),
                argument: argument.clone(),
            },
            BlockContent::Note { text } => BlockContent::Note { text: text.clone() },
        }
    }
}

/// One entry in a node's ordered content list. The `id` is the block's
/// stable identity for reorder/remove targeting — list indices shift, ids
/// don't.
#[derive(Debug)]
pub struct StoryBlock {
    pub id: u128,
    pub content: BlockContent,
}

/// The mathematical value of a `StoryBlock`.
pub struct BlockView {
    pub id: u128,
    pub content: ContentView,
}

impl View for StoryBlock {
    type V = BlockView;

    open spec fn view(&self) -> BlockView {
        BlockView { id: self.id, content: self.content@ }
    }
}

impl Clone for StoryBlock {
    fn clone(&self) -> (r: Self)
        ensures
            r@ == self@,
    {
        StoryBlock { id: self.id, content: self.content.clone() }
    }
}

/// The views of a sequence of blocks.
pub open spec fn blocks_view(blocks: Seq<StoryBlock>) -> Seq<BlockView> {
    blocks.map_values(|b: StoryBlock| b@)
}

/// A copy of `blocks`, element for element.
pub fn copy_blocks(blocks: &Vec<StoryBlock>) -> (r: Vec<StoryBlock>)
    ensures
        blocks_view(r@) == blocks_view(blocks@),
{
    let mut r: Vec<StoryBlock> = Vec::new();
    let n = blocks.len();
    for i in 0..n
        invariant
            n == blocks@.len(),
            blocks_view(r@) == blocks_view(blocks@.take(i as int)),
    {
        r.push(blocks[i].clone());
        assert(blocks_view(blocks@.take(i + 1)) =~= blocks_view(blocks@.take(i as int)).push(
            blocks@[i as int]@,
        ));
        assert(blocks_view(r@) =~= blocks_view(blocks@.take(i + 1)));
    }
    assert(blocks@.take(n as int) == blocks@);
    r
}

/// The five block kinds, without their payloads.
#[derive(Debug, Clone, Copy, PartialEq, Eq, Structural)]
pub enum BlockKind {
    Narration,
    Dialogue,
    Choice,
    Directive,
    Note,
}

/// The kind of a block's content.
pub open spec fn kind_of(content: ContentView) -> BlockKind {
    match content {
        ContentView::Narration { .. } => BlockKind::Narration,
        ContentView::Dialogue { .. } => BlockKind::Dialogue,
        ContentView::Choice { .. } => BlockKind::Choice,
        ContentView::Directive { .. } => BlockKind::Directive,
        ContentView::Note { .. } => BlockKind::Note,
    }
}

/// The prose body of a block's content, for the kinds that have one
/// (narration, dialogue, note).
pub open spec fn prose_of(content: ContentView) -> Option<Seq<char>> {
    match content {
        ContentView::Narration { text } => Some(text),
        ContentView::Dialogue { text, .. } => Some(text),
        ContentView::Note { text } => Some(text),
        _ => None,
    }
}

/// Whether a kind carries a prose body.
pub open spec fn has_prose(kind: BlockKind) -> bool {
    kind == BlockKind::Narration || kind == BlockKind::Dialogue || kind == BlockKind::Note
}

/// Content equal to `content` except that its prose body (if its kind has
/// one) reads `text`.
pub open spec fn with_prose(content: ContentView, text: Seq<char>) -> ContentView {
    match content {
        ContentView::Narration { .. } => ContentView::Narration { text },
        ContentView::Dialogue { speaker, .. } => ContentView::Dialogue { speaker, text },
        ContentView::Note { .. } => ContentView::Note { text },
        _ => content,
    }
}

/// Whether `s`, lowercased, contains the (already lowercased) `query`.
pub open spec fn lower_contains(s: Seq<char>, query: Seq<char>) -> bool {
    contains_sub(lowercase_of(s), query)
}

/// Whether any user-visible text of `content` contains `query` once
/// lowercased.
pub open spec fn content_matches(content: ContentView, query: Seq<char>) -> bool {
    match content {
        ContentView::Narration { text } => lower_contains(text, query),
        ContentView::Dialogue { text, .. } => lower_contains(text, query),
        ContentView::Note { text } => lower_contains(text, query),
        ContentView::Choice { options } => exists|i: int|
            0 <= i < options.len() && lower_contains(#[trigger] options[i].label, query),
        ContentView::Directive { command, argument } => lower_contains(command, query)
            || lower_contains(argument, query),
    }
}

/// The content of a freshly created block of `kind`: empty text, no
/// speaker, and for a choice exactly one empty, unlinked option.
pub open spec fn is_fresh_content(content: ContentView, kind: BlockKind) -> bool {
    &&& kind_of(content) == kind
    &&& match content {
        ContentView::Narration { text } => text.len() == 0,
        ContentView::Dialogue { speaker, text } => speaker is None && text.len() == 0,
        ContentView::Choice { options } => options.len() == 1 && options[0].label.len() == 0
            && options[0].target is None,
        ContentView::Directive { command, argument } => command.len() == 0 && argument.len()
            == 0,
        ContentView::Note { text } => text.len() == 0,
    }
}

/// The Fluent message id of a kind's user-facing name.
pub open spec fn kind_label(kind: BlockKind) -> Seq<char> {
    match kind {
        BlockKind::Narration => "block-narration"@,
        BlockKind::Dialogue => "block-dialogue"@,
        BlockKind::Choice => "block-choice"@,
        BlockKind::Directive => "block-directive"@,
        BlockKind::Note => "block-note"@,
    }
}

/// The freedesktop icon name representing a kind.
pub open spec fn kind_icon(kind: BlockKind) -> Seq<char> {
    match kind {
        BlockKind::Narration => "media-view-subtitles-symbolic"@,
        BlockKind::Dialogue => "avatar-default-symbolic"@,
        BlockKind::Choice => "object-select-symbolic"@,
        BlockKind::Directive => "utilities-terminal-symbolic"@,
        BlockKind::Note => "text-x-generic-symbolic"@,
    }
}

impl BlockKind {
    /// Every kind, in the order the editor's add-block buttons show them.
    pub const ALL: [BlockKind; 5] = [
        BlockKind::Narration,
        BlockKind::Dialogue,
        BlockKind::Choice,
        BlockKind::Directive,
        BlockKind::Note,
    ];

    /// The Fluent message id of the kind's user-facing name (block gutter
    /// labels and add-block toolbar buttons); the view resolves it through
    /// the localizer.
    pub fn label(self) -> (r: String)
        ensures
            r@ == kind_label(self),
    {
        match self {
            BlockKind::Narration => "block-narration".to_string(),
            BlockKind::Dialogue => "block-dialogue".to_string(),
            BlockKind::Choice => "block-choice".to_string(),
            BlockKind::Directive => "block-directive".to_string(),
            BlockKind::Note => "block-note".to_string(),
        }
    }

    /// The freedesktop icon name representing the kind.
    pub fn icon_name(self) -> (r: &'static str)
        ensures
            r@ == kind_icon(self),
    {
        match self {
            BlockKind::Narration => "media-view-subtitles-symbolic",
            BlockKind::Dialogue => "avatar-default-symbolic",
            BlockKind::Choice => "object-select-symbolic",
            BlockKind::Directive => "utilities-terminal-symbolic",
            BlockKind::Note => "text-x-generic-symbolic",
        }
    }
}

impl StoryBlock {
    /// A fresh, empty block of the given kind. A new choice starts with one
    /// empty option so it doesn't render as a bare header.
    pub fn new(kind: BlockKind) -> (r: Self)
        ensures
            is_fresh_content(r@.content, kind),
    {
        let content = match kind {
            BlockKind::Narration => BlockContent::Narration { text: String::new() },
            BlockKind::Dialogue => BlockContent::Dialogue { speaker: None, text: String::new() },
            BlockKind::Choice => {
                let mut options: Vec<ChoiceOption> = Vec::new();
                options.push(ChoiceOption::default());
                BlockContent::Choice { options }
            },
            BlockKind::Directive => BlockContent::Directive {
                command: String::new(),
                argument: String::new(),
            },
            BlockKind::Note => BlockContent::Note { text: String::new() },
        };
        StoryBlock { id: fresh_id(), content }
    }

    pub fn kind(&self) -> (r: BlockKind)
        ensures
            r == kind_of(self@.content),
    {
        match self.content {
            BlockContent::Narration { .. } => BlockKind::Narration,
            BlockContent::Dialogue { .. } => BlockKind::Dialogue,
            BlockContent::Choice { .. } => BlockKind::Choice,
            BlockContent::Directive { .. } => BlockKind::Directive,
            BlockContent::Note { .. } => BlockKind::Note,
        }
    }

    /// The block's free-flowing prose body, if its kind has one.
    pub fn prose(&self) -> (r: Option<&str>)
        ensures
            match r {
                Some(t) => prose_of(self@.content) == Some(t@),
                None => prose_of(self@.content) is None,
            },
    {
        match &self.content {
            BlockContent::Narration { text } => Some(text.as_str()),
            BlockContent::Dialogue { text, .. } => Some(text.as_str()),
            BlockContent::Note { text } => Some(text.as_str()),
            BlockContent::Choice { .. } => None,
            BlockContent::Directive { .. } => None,
        }
    }

    /// Writes a new prose body into the block; a no-op for kinds without one.
    pub fn set_prose(&mut self, new_text: String)
        ensures
            final(self).id == old(self).id,
            final(self)@.content == with_prose(old(self)@.content, new_text@),
    {
        match &mut self.content {
            BlockContent::Narration { text } => *text = new_text,
            BlockContent::Dialogue { text, .. } => *text = new_text,
            BlockContent::Note { text } => *text = new_text,
            BlockContent::Choice { .. } => {},
            BlockContent::Directive { .. } => {},
        }
    }

    /// Whether any user-visible text in this block contains `query`, which
    /// the caller must already have lowercased.
    pub fn matches_query(&self, query: &str) -> (r: bool)
        ensures
            r == content_matches(self@.content, query@),
    {
        match &self.content {
            BlockContent::Narration { text } => str_contains(&to_lowercase(text), query),
            BlockContent::Dialogue { text, .. } => str_contains(&to_lowercase(text), query),
            BlockContent::Note { text } => str_contains(&to_lowercase(text), query),
            BlockContent::Choice { options } => {
                let n = options.len();
                for i in 0..n
                    invariant
                        n == options@.len(),
                        self@.content == (ContentView::Choice { options: options_view(options@) }),
                        forall|k: int|
                            0 <= k < i ==> !lower_contains(#[trigger] options@[k].label@, query@),
                {
                    if str_contains(&to_lowercase(&options[i].label), query) {
                        assert(options_view(options@)[i as int].label == options@[i as int].label@);
                        assert(lower_contains(options_view(options@)[i as int].label, query@));
                        return true;
                    }
                }
                assert forall|k: int| 0 <= k < options_view(options@).len() implies !lower_contains(
                    #[trigger] options_view(options@)[k].label,
                    query@,
                ) by {
                    assert(options_view(options@)[k].label == options@[k].label@);
                }
                false
            },
            BlockContent::Directive { command, argument } => {
                str_contains(&to_lowercase(command), query) || str_contains(
                    &to_lowercase(argument),
                    query,
                )
            },
        }
    }
}

/// Law: a freshly created block has the kind it was asked for.
pub proof fn lemma_new_block_kind(b: BlockView, kind: BlockKind)
    requires
        is_fresh_content(b.content, kind),
    ensures
        kind_of(b.content) == kind,
        has_prose(kind) ==> prose_of(b.content) == Some(Seq::<char>::empty()),
        !has_prose(kind) ==> prose_of(b.content) is None,
{
}

/// Law: writing a prose body and reading it back gives what was written,
/// for every kind that has one; the kind never changes, and kinds without a
/// prose body are left exactly as they were.
pub proof fn lemma_set_prose_then_prose(content: ContentView, text: Seq<char>)
    ensures
        kind_of(with_prose(content, text)) == kind_of(content),
        has_prose(kind_of(content)) ==> prose_of(with_prose(content, text)) == Some(text),
        !has_prose(kind_of(content)) ==> with_prose(content, text) == content,
{
}

} // verus!
