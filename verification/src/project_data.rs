//! The project manifest's metadata and the `Character` data model.
//!
//! A character's `avatar` is either the literal `"default"` (the built-in
//! placeholder avatar) or a path to a `.png`/`.jpg`/`.jpeg` image. In
//! memory the path is always absolute; on disk it is project-relative
//! whenever the image lives inside the project directory.
//! `avatar_for_disk`/`resolve_avatar_on_load` are the two directions of
//! that mapping, applied only at the save/load boundary.

use std::time::SystemTime;

use vstd::prelude::*;

use crate::clock::system_now;

use crate::ids::fresh_id;
use crate::paths::{
    extension_of, file_name_of, is_relative_path, joined, path_extension, path_file_name,
    path_is_relative, path_join, path_strip_prefix, stripped_of,
};
use crate::text::{ascii_lowercase, str_eq, to_ascii_lowercase};

verus! {

/// The project manifest: pure metadata — no nodes, no characters, no
/// editor state.
#[derive(Debug)]
pub struct ProjectData {
    pub name: String,
    pub author: String,
    pub comment: String,
    /// Project repository URL; purely informational.
    pub repository: String,
    /// App version that last saved the project.
    pub app_version: String,
    /// ISO 8601 timestamp of creation.
    pub created_at: String,
    /// ISO 8601 timestamp of the last save.
    pub updated_at: String,
    /// The story's entry point, by node id.
    pub root_node: Option<u128>,
}

impl Default for ProjectData {
    fn default() -> (r: Self)
        ensures
            r.name@.len() == 0,
            r.author@.len() == 0,
            r.comment@.len() == 0,
            r.repository@.len() == 0,
            r.app_version@.len() == 0,
            r.created_at@.len() == 0,
            r.updated_at@.len() == 0,
            r.root_node is None,
    {
        ProjectData {
            name: String::new(),
            author: String::new(),
            comment: String::new(),
            repository: String::new(),
            app_version: String::new(),
            created_at: String::new(),
            updated_at: String::new(),
            root_node: None,
        }
    }
}

impl Clone for ProjectData {
    fn clone(&self) -> (r: Self)
        ensures
            r == *self,
    {
        ProjectData {
            name: self.name.clone(),
            author: self.author.clone(),
            comment: self.comment.clone(),
            repository: self.repository.clone(),
            app_version: self.app_version.clone(),
            created_at: self.created_at.clone(),
            updated_at: self.updated_at.clone(),
            root_node: self.root_node,
        }
    }
}

/// `jiff::Timestamp::try_from(SystemTime)`, rendered by its `Display` impl
/// as an RFC 3339 instant such as `2005-08-07T23:19:49.123Z`; `None` when
/// the reading lies outside the years jiff supports (-9999..=9999). Which
/// instant a reading is stays opaque, so only that the text is non-empty is
/// stated.
#[verifier::external_body]
fn timestamp_of(t: SystemTime) -> (r: Option<String>)
    ensures
        match r {
            Some(s) => s@.len() > 0,
            None => true,
        },
{
    jiff::Timestamp::try_from(t).ok().map(|ts| ts.to_string())
}

/// The creation time kept by a save at `now`: the first save sets it, and
/// later saves leave it alone.
pub open spec fn kept_created_at(created_at: Seq<char>, now: Seq<char>) -> Seq<char> {
    if created_at.len() == 0 {
        now
    } else {
        created_at
    }
}

/// The directory's final component, or nothing.
pub open spec fn dir_name(dir: Seq<char>) -> Seq<char> {
    match file_name_of(dir) {
        Some(n) => n,
        None => Seq::empty(),
    }
}

impl ProjectData {
    /// Records a save at time `now` by app version `version`: sets the
    /// creation time if it was never set, the last-save time, and the
    /// version; nothing else changes.
    pub fn stamp_save(&mut self, now: String, version: String)
        ensures
            final(self).created_at@ == kept_created_at(old(self).created_at@, now@),
            final(self).updated_at@ == now@,
            final(self).app_version@ == version@,
            final(self).name == old(self).name,
            final(self).author == old(self).author,
            final(self).comment == old(self).comment,
            final(self).repository == old(self).repository,
            final(self).root_node == old(self).root_node,
    {
        if self.created_at.as_str().is_empty() {
            self.created_at = now.clone();
        }
        self.updated_at = now;
        self.app_version = version;
    }

    /// Records a save happening now by app version `version` (see
    /// `stamp_save`) and returns `true`; when the system clock cannot be
    /// read as a timestamp it returns `false` and changes nothing. Whatever
    /// the clock says, an already set creation time stays, both times end up
    /// set (equal on a first save), and nothing but the two times and the
    /// version changes.
    pub fn record_save(&mut self, version: String) -> (saved: bool)
        ensures
            saved ==> {
                &&& old(self).created_at@.len() > 0 ==> final(self).created_at@
                    == old(self).created_at@
                &&& old(self).created_at@.len() == 0 ==> final(self).created_at@
                    == final(self).updated_at@
                &&& final(self).created_at@.len() > 0
                &&& final(self).updated_at@.len() > 0
                &&& final(self).app_version@ == version@
                &&& final(self).name == old(self).name
                &&& final(self).author == old(self).author
                &&& final(self).comment == old(self).comment
                &&& final(self).repository == old(self).repository
                &&& final(self).root_node == old(self).root_node
            },
            !saved ==> *final(self) == *old(self),
    {
        match timestamp_of(system_now()) {
            Some(now) => {
                self.stamp_save(now, version);
                true
            },
            None => false,
        }
    }

    /// The metadata of a project just created in directory `dir` at time
    /// `now`: named after the directory's last component (the trimmed name
    /// the New Project dialog validated), with the dialog's author and
    /// comment, no repository, no root node, created and saved at `now`.
    pub fn for_new_project(dir: &str, author: String, comment: String, version: String, now: String) -> (r:
        Self)
        ensures
            r.name@ == dir_name(dir@),
            r.author == author,
            r.comment == comment,
            r.repository@.len() == 0,
            r.app_version == version,
            r.created_at@ == now@,
            r.updated_at@ == now@,
            r.root_node is None,
    {
        let name = match path_file_name(dir) {
            Some(n) => n,
            None => String::new(),
        };
        ProjectData {
            name,
            author,
            comment,
            repository: String::new(),
            app_version: version,
            created_at: now.clone(),
            updated_at: now,
            root_node: None,
        }
    }

    /// The metadata of a project created now in directory `dir` (see
    /// `for_new_project`); both times are the same, non-empty instant.
    /// `None` when the system clock cannot be read as a timestamp.
    pub fn created_in(dir: &str, author: String, comment: String, version: String) -> (r: Option<
        Self,
    >)
        ensures
            match r {
                Some(m) => {
                    &&& m.name@ == dir_name(dir@)
                    &&& m.author == author
                    &&& m.comment == comment
                    &&& m.repository@.len() == 0
                    &&& m.app_version == version
                    &&& m.created_at@.len() > 0
                    &&& m.created_at@ == m.updated_at@
                    &&& m.root_node is None
                },
                None => true,
            },
    {
        match timestamp_of(system_now()) {
            Some(now) => Some(ProjectData::for_new_project(dir, author, comment, version, now)),
            None => None,
        }
    }
}

/// Law: a save followed by a load gives back every avatar that is not an
/// image path (the `"default"` placeholder, empty, or another kind of file),
/// and every absolute image path that does not lie inside the project
/// directory: neither direction touches them.
pub proof fn lemma_avatar_round_trip(avatar: Seq<char>, dir: Seq<char>)
    requires
        !is_avatar_image(avatar) || (!is_relative_path(avatar) && stripped_of(avatar, dir) is None),
    ensures
        avatar_loaded(avatar_on_disk(avatar, dir), dir) == avatar,
{
}

/// Law: once a project has been saved, its creation time never changes
/// again — a second save keeps the first save's time.
pub proof fn lemma_created_at_set_once(created_at: Seq<char>, first: Seq<char>, second: Seq<char>)
    requires
        first.len() > 0,
    ensures
        kept_created_at(kept_created_at(created_at, first), second) == kept_created_at(
            created_at,
            first,
        ),
{
}

/// Whether an (already ASCII-lowercased) extension is one of the image
/// formats a character card can render.
pub open spec fn is_image_extension(ext: Seq<char>) -> bool {
    ext == "png"@ || ext == "jpg"@ || ext == "jpeg"@
}

/// Whether `avatar` names an image to load: neither empty nor the
/// `"default"` sentinel, and ending in a `.png`/`.jpg`/`.jpeg` extension
/// (in any letter case).
pub open spec fn is_avatar_image(avatar: Seq<char>) -> bool {
    &&& avatar.len() > 0
    &&& avatar != "default"@
    &&& match extension_of(avatar) {
        Some(ext) => is_image_extension(ascii_lowercase(ext)),
        None => false,
    }
}

/// Interprets the avatar sentinel/path convention: `None` for the built-in
/// placeholder avatar (`"default"`, empty, or not a `.png`/`.jpg`/`.jpeg`
/// file), otherwise the path itself, directly loadable as-is.
pub fn resolve_avatar_path(avatar: &str) -> (r: Option<&str>)
    ensures
        match r {
            Some(p) => p@ == avatar@ && is_avatar_image(avatar@),
            None => !is_avatar_image(avatar@),
        },
{
    if avatar.is_empty() || str_eq(avatar, "default") {
        return None;
    }
    let ext = match path_extension(avatar) {
        Some(e) => e,
        None => {
            return None;
        },
    };
    let lower = to_ascii_lowercase(ext.as_str());
    if str_eq(lower.as_str(), "png") || str_eq(lower.as_str(), "jpg") || str_eq(
        lower.as_str(),
        "jpeg",
    ) {
        Some(avatar)
    } else {
        None
    }
}

/// A single character entry.
#[derive(Debug)]
pub struct Character {
    /// Stable identity, independent of `name`.
    pub id: u128,
    pub name: String,
    /// Either `"default"` or a path to an image file (see the module doc).
    pub avatar: String,
    pub comment: String,
    pub description: String,
}

impl Clone for Character {
    fn clone(&self) -> (r: Self)
        ensures
            r == *self,
    {
        Character {
            id: self.id,
            name: self.name.clone(),
            avatar: self.avatar.clone(),
            comment: self.comment.clone(),
            description: self.description.clone(),
        }
    }
}

impl Default for Character {
    /// A fresh character with an empty name and the placeholder avatar.
    fn default() -> (r: Self)
        ensures
            r.name@.len() == 0,
            r.avatar@ == "default"@,
            r.comment@.len() == 0,
            r.description@.len() == 0,
    {
        Character {
            id: fresh_id(),
            name: String::new(),
            avatar: "default".to_string(),
            comment: String::new(),
            description: String::new(),
        }
    }
}

/// The `avatar` value as written to a character's file: relative to
/// `project_dir` when it is an image inside it, unchanged otherwise.
pub open spec fn avatar_on_disk(avatar: Seq<char>, project_dir: Seq<char>) -> Seq<char> {
    if !is_avatar_image(avatar) {
        avatar
    } else {
        match stripped_of(avatar, project_dir) {
            Some(rel) => rel,
            None => avatar,
        }
    }
}

/// The in-memory `avatar` value for one read from disk: a relative image
/// path rejoined with `project_dir`, anything else unchanged.
pub open spec fn avatar_loaded(avatar: Seq<char>, project_dir: Seq<char>) -> Seq<char> {
    if is_avatar_image(avatar) && is_relative_path(avatar) {
        joined(project_dir, avatar)
    } else {
        avatar
    }
}

impl Character {
    /// A fresh character with the given name and the placeholder avatar.
    pub fn named(name: String) -> (r: Self)
        ensures
            r.name == name,
            r.avatar@ == "default"@,
            r.comment@.len() == 0,
            r.description@.len() == 0,
    {
        let mut c = Character::default();
        c.name = name;
        c
    }

    /// `None` for the built-in placeholder avatar, otherwise the image path.
    pub fn avatar_path(&self) -> (r: Option<&str>)
        ensures
            match r {
                Some(p) => p@ == self.avatar@ && is_avatar_image(self.avatar@),
                None => !is_avatar_image(self.avatar@),
            },
    {
        resolve_avatar_path(self.avatar.as_str())
    }

    /// The `avatar` value as written to this character's file.
    pub fn avatar_for_disk(&self, project_dir: &str) -> (r: String)
        ensures
            r@ == avatar_on_disk(self.avatar@, project_dir@),
    {
        if resolve_avatar_path(self.avatar.as_str()).is_none() {
            return self.avatar.clone();
        }
        match path_strip_prefix(self.avatar.as_str(), project_dir) {
            Some(rel) => rel,
            None => self.avatar.clone(),
        }
    }

    /// Rejoins a project-relative on-disk `avatar` with the project
    /// directory (the inverse of `avatar_for_disk`); sentinels and absolute
    /// paths pass through.
    pub fn resolve_avatar_on_load(&mut self, project_dir: &str)
        ensures
            final(self).avatar@ == avatar_loaded(old(self).avatar@, project_dir@),
            final(self).id == old(self).id,
            final(self).name == old(self).name,
            final(self).comment == old(self).comment,
            final(self).description == old(self).description,
    {
        if resolve_avatar_path(self.avatar.as_str()).is_some() && path_is_relative(
            self.avatar.as_str(),
        ) {
            self.avatar = path_join(project_dir, self.avatar.as_str());
        }
    }
}

} // verus!
