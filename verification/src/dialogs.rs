//! Small modal and panel models: the Yes/No confirmation, the dismiss-only
//! notice, the unsaved-changes warning's choices, and the Find panel's own
//! state. Their titles and messages are Fluent message identifiers (or, for
//! a caller-built notice, already-localized text); the views resolve them
//! through the localizer when rendering.

use vstd::prelude::*;

verus! {

/// A modal notice: a title, a message, and Cancel/Delete buttons.
#[derive(Debug)]
pub struct ConfirmDialog {
    pub title: String,
    pub message: String,
    /// `Some(checked)` renders the "Don't ask again" checkbox; on Confirm
    /// the caller reads it back to know whether to disable this
    /// confirmation kind.
    pub dont_ask: Option<bool>,
    /// The text the message interpolates (the name of what is about to be
    /// deleted), when it takes one.
    pub argument: Option<String>,
}

/// The mathematical value of a `ConfirmDialog`.
pub struct DialogView {
    pub title: Seq<char>,
    pub message: Seq<char>,
    pub dont_ask: Option<bool>,
    pub argument: Option<Seq<char>>,
}

impl View for ConfirmDialog {
    type V = DialogView;

    open spec fn view(&self) -> DialogView {
        DialogView {
            title: self.title@,
            message: self.message@,
            dont_ask: self.dont_ask,
            argument: match self.argument {
                Some(a) => Some(a@),
                None => None,
            },
        }
    }
}

/// Widget-level messages from the confirmation dialog.
#[derive(Debug, Clone, Copy, PartialEq, Eq, Structural)]
pub enum ConfirmDialogMessage {
    /// "Delete" was pressed — the caller should proceed.
    Confirm,
    /// "Cancel" was pressed, or the dialog should otherwise be dropped.
    Cancel,
    /// The "Don't ask again" checkbox was toggled.
    DontAskToggled(bool),
}

impl ConfirmDialog {
    pub fn new(title: String, message: String) -> (r: Self)
        ensures
            r.title@ == title@,
            r.message@ == message@,
            r.dont_ask is None,
            r.argument is None,
    {
        ConfirmDialog { title, message, dont_ask: None, argument: None }
    }

    /// Gives the message the text it interpolates.
    pub fn with_argument(self, argument: String) -> (r: Self)
        ensures
            r@ == (DialogView { argument: Some(argument@), ..self@ }),
    {
        let mut d = self;
        d.argument = Some(argument);
        d
    }

    /// Adds the (initially unchecked) "Don't ask again" checkbox.
    pub fn with_dont_ask(self) -> (r: Self)
        ensures
            r.title@ == self.title@,
            r.message@ == self.message@,
            r.dont_ask == Some(false),
            r@ == (DialogView { dont_ask: Some(false), ..self@ }),
    {
        let mut d = self;
        d.dont_ask = Some(false);
        d
    }

    /// Whether the user asked (via the checkbox) for this confirmation kind
    /// to stop appearing; read on Confirm.
    pub fn dont_ask_again(&self) -> (r: bool)
        ensures
            r == (self.dont_ask == Some(true)),
    {
        match self.dont_ask {
            Some(checked) => checked,
            None => false,
        }
    }
}

/// A modal notice: a title, a message, and a close button.
#[derive(Debug)]
pub struct SimplePopup {
    pub title: String,
    pub message: String,
}

/// Widget-level messages from the notice.
#[derive(Debug, Clone, Copy, PartialEq, Eq, Structural)]
pub enum PopupMessage {
    /// The close button was pressed — the only way to dismiss.
    Close,
}

impl SimplePopup {
    pub fn new(title: String, message: String) -> (r: Self)
        ensures
            r.title@ == title@,
            r.message@ == message@,
    {
        SimplePopup { title, message }
    }
}

/// The choices of the Save/Discard/Cancel warning shown whenever an editor
/// (or the whole app) would otherwise close with unsaved changes.
#[derive(Debug, Clone, Copy, PartialEq, Eq, Structural)]
pub enum UnsavedChangesMessage {
    /// Save, then proceed with closing.
    Save,
    /// Throw the changes away and proceed with closing.
    Discard,
    /// Stay open.
    Cancel,
}

/// Which kind of thing the Find panel is currently searching.
#[derive(Debug, Clone, Copy, PartialEq, Eq, Structural)]
pub enum FindTarget {
    Node,
    Character,
}

/// The position of a target in the panel's dropdown.
pub open spec fn target_index(t: FindTarget) -> nat {
    match t {
        FindTarget::Node => 0,
        FindTarget::Character => 1,
    }
}

impl FindTarget {
    /// Every target, in dropdown order.
    pub const ALL: [FindTarget; 2] = [FindTarget::Node, FindTarget::Character];

    /// The Fluent message id of the target's dropdown label.
    pub fn label(self) -> (r: String)
        ensures
            r@ == match self {
                FindTarget::Node => "find-target-node"@,
                FindTarget::Character => "find-target-character"@,
            },
    {
        match self {
            FindTarget::Node => "find-target-node".to_string(),
            FindTarget::Character => "find-target-character".to_string(),
        }
    }

    /// The target's position in the dropdown.
    pub fn index(self) -> (r: usize)
        ensures
            r == target_index(self),
    {
        match self {
            FindTarget::Node => 0,
            FindTarget::Character => 1,
        }
    }

    /// The target at dropdown position `index`; an out-of-range index falls
    /// back to searching nodes.
    pub fn from_index(index: usize) -> (r: Self)
        ensures
            index == 1 ==> r == FindTarget::Character,
            index != 1 ==> r == FindTarget::Node,
    {
        if index == 1 {
            FindTarget::Character
        } else {
            FindTarget::Node
        }
    }
}

/// Law: a target's dropdown position leads back to the same target.
pub proof fn lemma_find_target_index_roundtrip(t: FindTarget)
    ensures
        target_index(t) == 1 <==> t == FindTarget::Character,
{
}

/// Panel state: the query, which target it's searching, and which result
/// row is currently highlighted.
#[derive(Debug)]
pub struct FindPanel {
    pub query: String,
    pub target: FindTarget,
    pub highlighted: usize,
}

/// Widget-level messages from the Find panel.
#[derive(Debug, Clone)]
pub enum FindMessage {
    QueryChanged(String),
    TargetChanged(usize),
    ResultHovered(usize),
    ResultClicked(usize),
    /// Enter pressed in the query field — act on the highlighted result.
    Confirm,
    Close,
}

impl FindPanel {
    pub fn new(target: FindTarget) -> (r: Self)
        ensures
            r.query@.len() == 0,
            r.target == target,
            r.highlighted == 0,
    {
        FindPanel { query: String::new(), target, highlighted: 0 }
    }
}

} // verus!
