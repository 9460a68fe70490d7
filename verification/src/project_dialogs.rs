//! The two modal dialogs that pick where a project lives on disk: "New
//! Project" (name, location, author, comment) and "Save As" (name and
//! location). A project's directory is always the chosen parent folder
//! joined with the trimmed name. Confirming refuses an incomplete choice
//! and a target directory that already holds something; whether it does is
//! looked up by the caller, which hands the answer in with the message.
//! Error texts are Fluent message identifiers.

use vstd::prelude::*;

use crate::paths::{joined, path_join};
use crate::text::{trim, trimmed};

verus! {

/// The project directory for a parent folder and a typed name: the folder
/// joined with the trimmed name, once both are there.
pub open spec fn target_of(base: Option<Seq<char>>, name: Seq<char>) -> Option<Seq<char>> {
    match base {
        Some(b) => if trimmed(name).len() == 0 {
            None
        } else {
            Some(joined(b, trimmed(name)))
        },
        None => None,
    }
}

/// The view of an optional string.
pub open spec fn opt_view(s: Option<String>) -> Option<Seq<char>> {
    match s {
        Some(t) => Some(t@),
        None => None,
    }
}

/// The project directory for `base` and `name`, as `target_of` describes.
fn target_path_for(base: &Option<String>, name: &str) -> (r: Option<String>)
    ensures
        opt_view(r) == target_of(opt_view(*base), name@),
{
    match base {
        Some(b) => {
            let n = trim(name);
            if n.as_str().is_empty() {
                None
            } else {
                Some(path_join(b.as_str(), n.as_str()))
            }
        },
        None => None,
    }
}

/// Draft state for a brand-new project, shown as a modal until confirmed,
/// cancelled (when allowed), or replaced by opening an existing project.
#[derive(Debug)]
pub struct NewProjectDialog {
    pub draft_name: String,
    /// The parent folder chosen via "Browse"; `None` until one is picked.
    pub base_dir: Option<String>,
    pub author: String,
    pub comment: String,
    /// Set after a failed Confirm; cleared as soon as a relevant field
    /// changes again.
    pub error: Option<String>,
    /// Whether the dialog can be dismissed without resolving to a project.
    pub can_cancel: bool,
}

/// The mathematical value of a `NewProjectDialog`.
pub struct NewProjectView {
    pub draft_name: Seq<char>,
    pub base_dir: Option<Seq<char>>,
    pub author: Seq<char>,
    pub comment: Seq<char>,
    pub error: Option<Seq<char>>,
    pub can_cancel: bool,
}

impl View for NewProjectDialog {
    type V = NewProjectView;

    open spec fn view(&self) -> NewProjectView {
        NewProjectView {
            draft_name: self.draft_name@,
            base_dir: opt_view(self.base_dir),
            author: self.author@,
            comment: self.comment@,
            error: opt_view(self.error),
            can_cancel: self.can_cancel,
        }
    }
}

/// Widget-level messages from the New Project dialog.
#[derive(Debug, Clone)]
pub enum NewProjectMessage {
    NameChanged(String),
    AuthorChanged(String),
    CommentChanged(String),
    /// "Browse" was pressed; the caller opens the folder picker.
    Browse,
    /// The folder picker resolved (`None` when dismissed).
    BaseDirPicked(Option<String>),
    /// "Open existing…" was pressed.
    OpenExisting,
    Confirm,
    Cancel,
}

/// What the dialog reports back to its caller.
#[derive(Debug)]
pub enum NewProjectEvent {
    /// Nothing for the caller to do.
    Nothing,
    /// Create the project in `path` with this (trimmed) metadata.
    Confirmed { path: String, author: String, comment: String },
    /// The user wants to open an existing project instead.
    OpenExisting,
    /// The dialog was dismissed.
    Cancelled,
}

/// The mathematical value of a `NewProjectEvent`.
pub enum NewEventView {
    Nothing,
    Confirmed { path: Seq<char>, author: Seq<char>, comment: Seq<char> },
    OpenExisting,
    Cancelled,
}

impl View for NewProjectEvent {
    type V = NewEventView;

    open spec fn view(&self) -> NewEventView {
        match self {
            NewProjectEvent::Nothing => NewEventView::Nothing,
            NewProjectEvent::Confirmed { path, author, comment } => NewEventView::Confirmed {
                path: path@,
                author: author@,
                comment: comment@,
            },
            NewProjectEvent::OpenExisting => NewEventView::OpenExisting,
            NewProjectEvent::Cancelled => NewEventView::Cancelled,
        }
    }
}

/// How the New Project dialog in state `s` handles `msg`, where `occupied`
/// tells whether the target directory already holds something: the next
/// state and what is reported.
pub open spec fn new_project_step(s: NewProjectView, msg: NewProjectMessage, occupied: bool) -> (
    NewProjectView,
    NewEventView,
) {
    match msg {
        NewProjectMessage::NameChanged(v) => (
            NewProjectView { draft_name: v@, error: None, ..s },
            NewEventView::Nothing,
        ),
        NewProjectMessage::AuthorChanged(v) => (
            NewProjectView { author: v@, ..s },
            NewEventView::Nothing,
        ),
        NewProjectMessage::CommentChanged(v) => (
            NewProjectView { comment: v@, ..s },
            NewEventView::Nothing,
        ),
        NewProjectMessage::Browse => (s, NewEventView::Nothing),
        NewProjectMessage::BaseDirPicked(dir) => match dir {
            Some(d) => (
                NewProjectView { base_dir: Some(d@), error: None, ..s },
                NewEventView::Nothing,
            ),
            None => (s, NewEventView::Nothing),
        },
        NewProjectMessage::OpenExisting => (s, NewEventView::OpenExisting),
        NewProjectMessage::Confirm => match target_of(s.base_dir, s.draft_name) {
            None => (
                NewProjectView { error: Some("new-project-error-incomplete"@), ..s },
                NewEventView::Nothing,
            ),
            Some(path) => if occupied {
                (
                    NewProjectView { error: Some("new-project-error-not-empty"@), ..s },
                    NewEventView::Nothing,
                )
            } else {
                (
                    s,
                    NewEventView::Confirmed {
                        path,
                        author: trimmed(s.author),
                        comment: trimmed(s.comment),
                    },
                )
            },
        },
        NewProjectMessage::Cancel => (s, NewEventView::Cancelled),
    }
}

impl NewProjectDialog {
    /// An empty dialog; `can_cancel` is false for the startup variant, which
    /// has no project to fall back to.
    pub fn new(can_cancel: bool) -> (r: Self)
        ensures
            r@ == (NewProjectView {
                draft_name: Seq::empty(),
                base_dir: None,
                author: Seq::empty(),
                comment: Seq::empty(),
                error: None,
                can_cancel,
            }),
    {
        NewProjectDialog {
            draft_name: String::new(),
            base_dir: None,
            author: String::new(),
            comment: String::new(),
            error: None,
            can_cancel,
        }
    }

    /// The project directory this dialog would create: the chosen folder
    /// joined with the trimmed name; `None` while either is missing.
    pub fn target_path(&self) -> (r: Option<String>)
        ensures
            opt_view(r) == target_of(self@.base_dir, self@.draft_name),
    {
        target_path_for(&self.base_dir, self.draft_name.as_str())
    }

    /// Handles a message. `occupied` says whether `target_path()` names a
    /// directory that already has an entry; only Confirm reads it.
    pub fn update(&mut self, message: NewProjectMessage, occupied: bool) -> (r: NewProjectEvent)
        ensures
            (final(self)@, r@) == new_project_step(old(self)@, message, occupied),
    {
        match message {
            NewProjectMessage::NameChanged(value) => {
                self.draft_name = value;
                self.error = None;
                NewProjectEvent::Nothing
            },
            NewProjectMessage::AuthorChanged(value) => {
                self.author = value;
                NewProjectEvent::Nothing
            },
            NewProjectMessage::CommentChanged(value) => {
                self.comment = value;
                NewProjectEvent::Nothing
            },
            NewProjectMessage::Browse => NewProjectEvent::Nothing,
            NewProjectMessage::BaseDirPicked(dir) => {
                match dir {
                    Some(d) => {
                        self.base_dir = Some(d);
                        self.error = None;
                    },
                    None => {},
                }
                NewProjectEvent::Nothing
            },
            NewProjectMessage::OpenExisting => NewProjectEvent::OpenExisting,
            NewProjectMessage::Confirm => {
                match self.target_path() {
                    None => {
                        self.error = Some("new-project-error-incomplete".to_string());
                        NewProjectEvent::Nothing
                    },
                    Some(path) => {
                        if occupied {
                            self.error = Some("new-project-error-not-empty".to_string());
                            NewProjectEvent::Nothing
                        } else {
                            NewProjectEvent::Confirmed {
                                path,
                                author: trim(self.author.as_str()),
                                comment: trim(self.comment.as_str()),
                            }
                        }
                    },
                }
            },
            NewProjectMessage::Cancel => NewProjectEvent::Cancelled,
        }
    }
}

/// Draft state for "Save As": where to put the project's directory.
#[derive(Debug)]
pub struct SaveProjectDialog {
    pub draft_name: String,
    /// The parent folder chosen via "Browse"; `None` until one is picked.
    pub base_dir: Option<String>,
    /// Set after a failed Confirm; cleared as soon as a relevant field
    /// changes again.
    pub error: Option<String>,
}

/// The mathematical value of a `SaveProjectDialog`.
pub struct SaveDialogView {
    pub draft_name: Seq<char>,
    pub base_dir: Option<Seq<char>>,
    pub error: Option<Seq<char>>,
}

impl View for SaveProjectDialog {
    type V = SaveDialogView;

    open spec fn view(&self) -> SaveDialogView {
        SaveDialogView {
            draft_name: self.draft_name@,
            base_dir: opt_view(self.base_dir),
            error: opt_view(self.error),
        }
    }
}

/// Widget-level messages from the Save As dialog.
#[derive(Debug, Clone)]
pub enum SaveDialogMessage {
    NameChanged(String),
    /// "Browse" was pressed; the caller opens the folder picker.
    Browse,
    /// The folder picker resolved (`None` when dismissed).
    BaseDirPicked(Option<String>),
    Confirm,
    Cancel,
}

/// What the dialog reports back to its caller.
#[derive(Debug)]
pub enum SaveDialogEvent {
    /// Nothing for the caller to do.
    Nothing,
    /// Save the project into this directory.
    Confirmed(String),
    /// The dialog was dismissed.
    Cancelled,
}

/// The mathematical value of a `SaveDialogEvent`.
pub enum SaveEventView {
    Nothing,
    Confirmed(Seq<char>),
    Cancelled,
}

impl View for SaveDialogEvent {
    type V = SaveEventView;

    open spec fn view(&self) -> SaveEventView {
        match self {
            SaveDialogEvent::Nothing => SaveEventView::Nothing,
            SaveDialogEvent::Confirmed(p) => SaveEventView::Confirmed(p@),
            SaveDialogEvent::Cancelled => SaveEventView::Cancelled,
        }
    }
}

/// How the Save As dialog in state `s` handles `msg`, where `occupied`
/// tells whether the target directory already holds something.
pub open spec fn save_dialog_step(s: SaveDialogView, msg: SaveDialogMessage, occupied: bool) -> (
    SaveDialogView,
    SaveEventView,
) {
    match msg {
        SaveDialogMessage::NameChanged(v) => (
            SaveDialogView { draft_name: v@, error: None, ..s },
            SaveEventView::Nothing,
        ),
        SaveDialogMessage::Browse => (s, SaveEventView::Nothing),
        SaveDialogMessage::BaseDirPicked(dir) => match dir {
            Some(d) => (
                SaveDialogView { base_dir: Some(d@), error: None, ..s },
                SaveEventView::Nothing,
            ),
            None => (s, SaveEventView::Nothing),
        },
        SaveDialogMessage::Confirm => match target_of(s.base_dir, s.draft_name) {
            None => (
                SaveDialogView { error: Some("save-dialog-error-incomplete"@), ..s },
                SaveEventView::Nothing,
            ),
            Some(path) => if occupied {
                (
                    SaveDialogView { error: Some("save-dialog-error-not-empty"@), ..s },
                    SaveEventView::Nothing,
                )
            } else {
                (s, SaveEventView::Confirmed(path))
            },
        },
        SaveDialogMessage::Cancel => (s, SaveEventView::Cancelled),
    }
}

impl SaveProjectDialog {
    /// A dialog pre-filled with `default_name` and no folder yet.
    pub fn new(default_name: String) -> (r: Self)
        ensures
            r@ == (SaveDialogView { draft_name: default_name@, base_dir: None, error: None }),
    {
        SaveProjectDialog { draft_name: default_name, base_dir: None, error: None }
    }

    /// The project directory this dialog would save into: the chosen folder
    /// joined with the trimmed name; `None` while either is missing.
    pub fn target_path(&self) -> (r: Option<String>)
        ensures
            opt_view(r) == target_of(self@.base_dir, self@.draft_name),
    {
        target_path_for(&self.base_dir, self.draft_name.as_str())
    }

    /// Handles a message. `occupied` says whether `target_path()` names a
    /// directory that already has an entry; only Confirm reads it.
    pub fn update(&mut self, message: SaveDialogMessage, occupied: bool) -> (r: SaveDialogEvent)
        ensures
            (final(self)@, r@) == save_dialog_step(old(self)@, message, occupied),
    {
        match message {
            SaveDialogMessage::NameChanged(value) => {
                self.draft_name = value;
                self.error = None;
                SaveDialogEvent::Nothing
            },
            SaveDialogMessage::Browse => SaveDialogEvent::Nothing,
            SaveDialogMessage::BaseDirPicked(dir) => {
                match dir {
                    Some(d) => {
                        self.base_dir = Some(d);
                        self.error = None;
                    },
                    None => {},
                }
                SaveDialogEvent::Nothing
            },
            SaveDialogMessage::Confirm => {
                match self.target_path() {
                    None => {
                        self.error = Some("save-dialog-error-incomplete".to_string());
                        SaveDialogEvent::Nothing
                    },
                    Some(path) => {
                        if occupied {
                            self.error = Some("save-dialog-error-not-empty".to_string());
                            SaveDialogEvent::Nothing
                        } else {
                            SaveDialogEvent::Confirmed(path)
                        }
                    },
                }
            },
            SaveDialogMessage::Cancel => SaveDialogEvent::Cancelled,
        }
    }
}

/// Law: a refused Confirm is answered with an error, and the error goes
/// away as soon as the name is edited again.
pub proof fn lemma_refused_confirm_then_rename(
    s: NewProjectView,
    occupied: bool,
    name: String,
    occupied2: bool,
)
    requires
        target_of(s.base_dir, s.draft_name) is None || occupied,
    ensures
        ({
            let (s1, ev) = new_project_step(s, NewProjectMessage::Confirm, occupied);
            let (s2, ev2) = new_project_step(s1, NewProjectMessage::NameChanged(name), occupied2);
            &&& ev == NewEventView::Nothing
            &&& s1.error is Some
            &&& s2.error is None
            &&& s2.draft_name == name@
        }),
{
}

/// Law: Confirm creates the project exactly when a folder and a non-blank
/// name are chosen and the target directory is free — in the directory
/// `target_path()` names, and without changing the dialog.
pub proof fn lemma_confirm_succeeds_iff_free(s: NewProjectView, occupied: bool)
    ensures
        ({
            let (s1, ev) = new_project_step(s, NewProjectMessage::Confirm, occupied);
            &&& (ev is Confirmed) <==> (target_of(s.base_dir, s.draft_name) is Some && !occupied)
            &&& ev is Confirmed ==> s1 == s && Some(ev->path) == target_of(
                s.base_dir,
                s.draft_name,
            )
        }),
{
}

/// Law: Save As confirms exactly when a folder and a non-blank name are
/// chosen and the target directory is free, saving into `target_path()`.
pub proof fn lemma_save_confirm_succeeds_iff_free(s: SaveDialogView, occupied: bool)
    ensures
        ({
            let (s1, ev) = save_dialog_step(s, SaveDialogMessage::Confirm, occupied);
            &&& (ev is Confirmed) <==> (target_of(s.base_dir, s.draft_name) is Some && !occupied)
            &&& ev is Confirmed ==> s1 == s && Some(ev->0) == target_of(s.base_dir, s.draft_name)
        }),
{
}

} // verus!
