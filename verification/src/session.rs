//! The application's page-level decisions that don't belong to one page:
//! what Ctrl+A adds, which target a freshly opened Find panel searches,
//! when the Find panel gets out of the way, and the guard that keeps the
//! app from closing over unsaved editor changes. The caller performs what
//! these decide (switching pages, focusing inputs, saving, closing the
//! window).

use vstd::prelude::*;

use crate::dialogs::{FindPanel, FindTarget, UnsavedChangesMessage};

verus! {

/// The pages of the navigation bar.
#[derive(Debug, Clone, Copy, PartialEq, Eq, Structural)]
pub enum Page {
    Canvas,
    Characters,
}

/// What Ctrl+A adds.
#[derive(Debug, Clone, Copy, PartialEq, Eq, Structural)]
pub enum AddTarget {
    /// A node on the canvas.
    Node,
    /// A character on the Characters page.
    Character,
}

/// Ctrl+A is contextual: it adds to whichever page is active (a node on the
/// canvas, a character on the Characters page), and does nothing when no
/// page is active.
pub fn add_target(active: Option<Page>) -> (r: Option<AddTarget>)
    ensures
        r == match active {
            Some(Page::Canvas) => Some(AddTarget::Node),
            Some(Page::Characters) => Some(AddTarget::Character),
            None => None,
        },
{
    match active {
        Some(Page::Canvas) => Some(AddTarget::Node),
        Some(Page::Characters) => Some(AddTarget::Character),
        None => None,
    }
}

/// The target a newly opened Find panel searches: characters while the
/// Characters page is active, nodes otherwise.
pub fn find_target_for(active: Option<Page>) -> (r: FindTarget)
    ensures
        r == (if active == Some(Page::Characters) {
            FindTarget::Character
        } else {
            FindTarget::Node
        }),
{
    match active {
        Some(Page::Characters) => FindTarget::Character,
        _ => FindTarget::Node,
    }
}

/// The Find action (Ctrl+F or the Action menu): opens the panel fresh,
/// searching the active page's kind, unless it is already open — then it
/// stays exactly as it is.
pub fn open_find_panel(panel: &mut Option<FindPanel>, active: Option<Page>)
    ensures
        match *old(panel) {
            Some(p) => *final(panel) == Some(p),
            None => match *final(panel) {
                Some(p) => p.query@.len() == 0 && p.target == (if active == Some(Page::Characters) {
                    FindTarget::Character
                } else {
                    FindTarget::Node
                }) && p.highlighted == 0,
                None => false,
            },
        },
{
    if panel.is_none() {
        *panel = Some(FindPanel::new(find_target_for(active)));
    }
}

/// The Find panel after a page handled a message: opening an editor (the
/// page reports the id it opened) closes the panel; anything else leaves it.
pub fn find_panel_after_page_update(opened: Option<u128>, panel: Option<FindPanel>) -> (r: Option<
    FindPanel,
>)
    ensures
        r == (if opened is Some {
            None
        } else {
            panel
        }),
{
    match opened {
        Some(_) => None,
        None => panel,
    }
}

/// What the caller does after the unsaved-changes warning shown on exit
/// was answered.
#[derive(Debug, Clone, Copy, PartialEq, Eq, Structural)]
pub enum ExitAction {
    /// Keep the app open.
    Stay,
    /// Close the app, dropping the drafts.
    Exit,
    /// Commit every open editor, save the project, then close — unless
    /// saving itself needs a dialog, in which case the app stays open.
    SaveThenExit,
}

/// Whether the unsaved-changes warning is up because the app was about to
/// close with an editor holding unsaved changes.
#[derive(Debug)]
pub struct ExitGuard {
    pub pending_exit_confirm: bool,
}

impl ExitGuard {
    /// No warning up.
    pub fn new() -> (r: Self)
        ensures
            !r.pending_exit_confirm,
    {
        ExitGuard { pending_exit_confirm: false }
    }

    /// The app is about to close. With unsaved editor changes, the warning
    /// goes up and the close is blocked (`true`); otherwise the close
    /// proceeds (`false`) and nothing changes.
    pub fn on_app_exit(&mut self, has_unsaved_editor: bool) -> (blocked: bool)
        ensures
            blocked == has_unsaved_editor,
            final(self).pending_exit_confirm == (old(self).pending_exit_confirm
                || has_unsaved_editor),
    {
        if has_unsaved_editor {
            self.pending_exit_confirm = true;
            true
        } else {
            false
        }
    }

    /// The warning was answered: it goes away, and the answer says whether
    /// the app stays open, closes, or saves first and then closes.
    pub fn on_unsaved_exit(&mut self, answer: UnsavedChangesMessage) -> (r: ExitAction)
        ensures
            !final(self).pending_exit_confirm,
            r == match answer {
                UnsavedChangesMessage::Cancel => ExitAction::Stay,
                UnsavedChangesMessage::Discard => ExitAction::Exit,
                UnsavedChangesMessage::Save => ExitAction::SaveThenExit,
            },
    {
        self.pending_exit_confirm = false;
        match answer {
            UnsavedChangesMessage::Cancel => ExitAction::Stay,
            UnsavedChangesMessage::Discard => ExitAction::Exit,
            UnsavedChangesMessage::Save => ExitAction::SaveThenExit,
        }
    }
}

} // verus!
