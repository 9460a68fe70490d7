//! Naming of the files inside a project directory.
//!
//! A project is a directory: `project.toml` (metadata + root node),
//! `canvas.json` (camera + node placement), and one JSON file per node and
//! per character under `scripts/` and `characters/`. Those files are named
//! recognizably but incidentally — the entry's name plus the first segment
//! of its UUID — and identity always comes from the id inside the file.
//! Saving deletes only files whose names this app could have written.

use vstd::prelude::*;

use crate::ids::{
    hex_digits, is_ascii_hexdigit, is_hex_char, lemma_hex_digits, parses_as_uuid, simple_hex,
    str_parses_as_uuid,
};
use crate::paths::{
    extension_of, file_name_of, file_stem_of, parent_of, path_extension, path_file_name,
    path_file_stem, path_parent,
};
use crate::text::{
    chars_of, is_whitespace, is_whitespace_char, push_char, str_eq, trim, trimmed,
};

verus! {

/// The manifest at a project directory's top level.
pub const MANIFEST_FILE: &'static str = "project.toml";

/// The pre-directory-split monolithic project file, accepted on load only.
pub const LEGACY_FILE: &'static str = "project.json";

/// Editor state (camera and node placement).
pub const CANVAS_FILE: &'static str = "canvas.json";

/// One story node per JSON file inside this subdirectory.
pub const SCRIPTS_DIR: &'static str = "scripts";

/// One character per JSON file inside this subdirectory.
pub const CHARACTERS_DIR: &'static str = "characters";

/// Longest encoded name kept in a file stem before the short-id suffix.
pub const MAX_STEM_NAME: usize = 32;

/// Whether `c` belongs to the Unicode general category `Cc` (control):
/// U+0000..=U+001F and U+007F..=U+009F.
pub open spec fn is_control_char(c: char) -> bool {
    c <= '\u{1f}' || ('\u{7f}' <= c && c <= '\u{9f}')
}

/// `char::is_control`: whether `c` is a control code.
pub(crate) fn is_control(c: char) -> (r: bool)
    ensures
        r == is_control_char(c),
{
    c <= '\u{1f}' || ('\u{7f}' <= c && c <= '\u{9f}')
}

/// Characters that never appear in a file stem.
pub open spec fn is_path_hostile(c: char) -> bool {
    c == '/' || c == '\\' || c == ':' || c == '*' || c == '?' || c == '"' || c == '<' || c == '>'
        || c == '|' || c == '.'
}

/// A name character as written into a stem: whitespace becomes `_`.
pub open spec fn stem_char(c: char) -> char {
    if is_whitespace_char(c) {
        '_'
    } else {
        c
    }
}

/// Whether an (already mapped) character is kept in a stem.
pub open spec fn kept_in_stem(c: char) -> bool {
    !is_path_hostile(c) && !is_control_char(c)
}

/// Every character of `s` mapped by `stem_char`, dropping the ones not kept.
pub open spec fn encode_all(s: Seq<char>) -> Seq<char>
    decreases s.len(),
{
    if s.len() == 0 {
        s
    } else {
        let rest = encode_all(s.drop_last());
        let c = stem_char(s.last());
        if kept_in_stem(c) {
            rest.push(c)
        } else {
            rest
        }
    }
}

/// At most the first `n` elements of `s`.
pub open spec fn at_most(s: Seq<char>, n: nat) -> Seq<char> {
    if s.len() <= n {
        s
    } else {
        s.take(n as int)
    }
}

/// The encoded form of an entry's name inside its file stem.
pub open spec fn encoded_name(name: Seq<char>) -> Seq<char> {
    at_most(encode_all(trimmed(name)), MAX_STEM_NAME as nat)
}

/// The first segment (8 hex digits) of an entry's UUID.
pub open spec fn short_id(id: u128) -> Seq<char> {
    hex_digits(id as nat, 32).take(8)
}

/// A script/character file's stem: the encoded name, a `-`, and the short
/// id — or just the short id for an entry whose encoded name is empty.
pub open spec fn spec_entry_file_stem(name: Seq<char>, id: u128) -> Seq<char> {
    let e = encoded_name(name);
    if e.len() == 0 {
        short_id(id)
    } else {
        e + seq!['-'] + short_id(id)
    }
}

/// Whether every character of `s` is a hexadecimal digit.
pub open spec fn all_hex(s: Seq<char>) -> bool {
    forall|i: int| 0 <= i < s.len() ==> is_hex_char(#[trigger] s[i])
}

/// Whether a file stem looks like one this app wrote: a full UUID, a bare
/// 8-hex-digit short id, or anything ending in `-` plus 8 hex digits.
pub open spec fn spec_is_managed_stem(stem: Seq<char>) -> bool {
    ||| parses_as_uuid(stem)
    ||| stem.len() == 8 && all_hex(stem)
    ||| stem.len() > 9 && stem[stem.len() - 9] == '-' && all_hex(
        stem.subrange(stem.len() - 8, stem.len() as int),
    )
}

/// A script/character file's stem: the entry's name — whitespace as `_`,
/// path-hostile and control characters dropped, cut at `MAX_STEM_NAME` —
/// plus the first segment of its UUID for uniqueness. Recognizable, but
/// never authoritative: identity is the id inside the file.
pub fn entry_file_stem(name: &str, id: u128) -> (r: String)
    ensures
        r@ == spec_entry_file_stem(name@, id),
{
    let t = trim(name);
    let chars = chars_of(t.as_str());
    let n = chars.len();
    let mut out = String::new();
    let ghost mut full: Seq<char> = Seq::empty();
    for i in 0..n
        invariant
            n == chars@.len(),
            chars@ == trimmed(name@),
            full == encode_all(chars@.take(i as int)),
            out@ == at_most(full, MAX_STEM_NAME as nat),
    {
        assert(chars@.take(i + 1).drop_last() == chars@.take(i as int));
        assert(chars@.take(i + 1).last() == chars@[i as int]);
        let c = if is_whitespace(chars[i]) {
            '_'
        } else {
            chars[i]
        };
        let hostile = c == '/' || c == '\\' || c == ':' || c == '*' || c == '?' || c == '"' || c
            == '<' || c == '>' || c == '|' || c == '.';
        if !hostile && !is_control(c) {
            if out.unicode_len() < MAX_STEM_NAME {
                push_char(&mut out, c);
            }
            proof {
                let old_full = full;
                full = full.push(c);
                if old_full.len() >= MAX_STEM_NAME {
                    assert(full.take(MAX_STEM_NAME as int) =~= old_full.take(MAX_STEM_NAME as int));
                }
            }
        }
    }
    assert(chars@.take(n as int) == chars@);
    let hex = simple_hex(id);
    let hex_chars = chars_of(hex.as_str());
    proof {
        lemma_hex_digits(id as nat, 32);
    }
    let mut short = String::new();
    for i in 0..8
        invariant
            hex_chars@ == hex_digits(id as nat, 32),
            hex_chars@.len() == 32,
            short@ == hex_chars@.take(i as int),
    {
        push_char(&mut short, hex_chars[i]);
        assert(hex_chars@.take(i + 1) == hex_chars@.take(i as int).push(hex_chars@[i as int]));
    }
    if out.unicode_len() == 0 {
        short
    } else {
        push_char(&mut out, '-');
        let sc = chars_of(short.as_str());
        for i in 0..8
            invariant
                sc@ == short@,
                sc@.len() == 8,
                out@ == encoded_name(name@) + seq!['-'] + sc@.take(i as int),
        {
            push_char(&mut out, sc[i]);
            assert(sc@.take(i + 1) == sc@.take(i as int).push(sc@[i as int]));
        }
        assert(sc@.take(8) == sc@);
        out
    }
}

/// Whether every character of `chars[from..to]` is a hexadecimal digit.
fn all_hex_range(chars: &Vec<char>, from: usize, to: usize) -> (r: bool)
    requires
        from <= to <= chars@.len(),
    ensures
        r == all_hex(chars@.subrange(from as int, to as int)),
{
    let mut i = from;
    while i < to
        invariant
            from <= i <= to <= chars@.len(),
            forall|k: int| from <= k < i ==> is_hex_char(#[trigger] chars@[k]),
        decreases to - i,
    {
        if !is_ascii_hexdigit(chars[i]) {
            assert(chars@.subrange(from as int, to as int)[i - from] == chars@[i as int]);
            return false;
        }
        i += 1;
    }
    assert forall|k: int| 0 <= k < to - from implies is_hex_char(
        #[trigger] chars@.subrange(from as int, to as int)[k],
    ) by {
        assert(chars@.subrange(from as int, to as int)[k] == chars@[k + from]);
    }
    true
}

/// Whether a file stem looks like one this app wrote (see
/// `entry_file_stem`) — or a full-UUID name from an earlier directory
/// layout. Only such files are ever deleted when saving syncs a directory;
/// anything else there isn't ours to touch.
pub fn is_managed_stem(stem: &str) -> (r: bool)
    ensures
        r == spec_is_managed_stem(stem@),
{
    if str_parses_as_uuid(stem) {
        return true;
    }
    let chars = chars_of(stem);
    let len = chars.len();
    if len == 8 {
        assert(chars@.subrange(0, 8) =~= chars@);
        return all_hex_range(&chars, 0, 8);
    }
    if len > 9 && chars[len - 9] == '-' {
        return all_hex_range(&chars, len - 8, len);
    }
    false
}

/// Law: every stem `entry_file_stem` writes is recognized as managed — so a
/// save can always clean up the files an earlier save wrote.
pub proof fn lemma_entry_stems_are_managed(name: Seq<char>, id: u128)
    ensures
        spec_is_managed_stem(spec_entry_file_stem(name, id)),
{
    lemma_hex_digits(id as nat, 32);
    let short = short_id(id);
    assert(short.len() == 8);
    assert(all_hex(short)) by {
        assert forall|i: int| 0 <= i < short.len() implies is_hex_char(#[trigger] short[i]) by {
            assert(short[i] == hex_digits(id as nat, 32)[i]);
        }
    }
    let e = encoded_name(name);
    if e.len() > 0 {
        let stem = e + seq!['-'] + short;
        assert(stem.len() == e.len() + 9);
        assert(stem[stem.len() - 9] == '-');
        assert(stem.subrange(stem.len() - 8, stem.len() as int) =~= short);
    }
}

/// The open project's directory from a remembered path, tolerating an
/// older remembered value that pointed at the legacy `project.json` file
/// rather than the directory holding it.
pub open spec fn spec_project_dir(path: Seq<char>) -> Option<Seq<char>> {
    if file_name_of(path) == Some(LEGACY_FILE@) {
        parent_of(path)
    } else {
        Some(path)
    }
}

/// The project directory a remembered path refers to.
pub fn project_dir_from(path: &str) -> (r: Option<String>)
    ensures
        match r {
            Some(d) => spec_project_dir(path@) == Some(d@),
            None => spec_project_dir(path@) is None,
        },
{
    let is_legacy = match path_file_name(path) {
        Some(name) => str_eq(name.as_str(), LEGACY_FILE),
        None => false,
    };
    if is_legacy {
        path_parent(path)
    } else {
        Some(path.to_string())
    }
}

/// The name of an entry's file: its stem plus `.json`.
pub fn entry_file_name(name: &str, id: u128) -> (r: String)
    ensures
        r@ == spec_entry_file_stem(name@, id) + ".json"@,
{
    let mut r = entry_file_stem(name, id);
    r.append(".json");
    r
}

/// Whether `path` names a JSON file (by its extension, exactly `json`).
pub open spec fn is_json_path(path: Seq<char>) -> bool {
    extension_of(path) == Some("json"@)
}

/// `is_json_path`, computed.
pub fn is_json_file(path: &str) -> (r: bool)
    ensures
        r == is_json_path(path@),
{
    match path_extension(path) {
        Some(ext) => str_eq(ext.as_str(), "json"),
        None => false,
    }
}

/// Whether a file found in an entry directory is removed when the
/// directory is synced to the entries whose file names are `current`: a
/// JSON file that is not one of the current entries and whose stem this
/// app could have written.
pub open spec fn is_stale_entry(path: Seq<char>, current: Seq<Seq<char>>) -> bool {
    &&& is_json_path(path)
    &&& !(match file_name_of(path) {
        Some(name) => current.contains(name),
        None => false,
    })
    &&& match file_stem_of(path) {
        Some(stem) => spec_is_managed_stem(stem),
        None => false,
    }
}

/// The views of a list of strings.
pub open spec fn names_view(v: Seq<String>) -> Seq<Seq<char>> {
    v.map_values(|s: String| s@)
}

/// Whether `name` is one of `names`.
fn contains_name(names: &Vec<String>, name: &str) -> (r: bool)
    ensures
        r == names_view(names@).contains(name@),
{
    let ghost nv = names_view(names@);
    let n = names.len();
    for i in 0..n
        invariant
            n == names@.len(),
            nv == names_view(names@),
            forall|k: int| 0 <= k < i ==> nv[k] != name@,
    {
        if str_eq(names[i].as_str(), name) {
            assert(nv[i as int] == name@);
            return true;
        }
    }
    assert forall|k: int| 0 <= k < nv.len() implies nv[k] != name@ by {}
    false
}

/// `is_stale_entry`, computed.
pub fn is_stale_file(path: &str, current: &Vec<String>) -> (r: bool)
    ensures
        r == is_stale_entry(path@, names_view(current@)),
{
    if !is_json_file(path) {
        return false;
    }
    let is_current = match path_file_name(path) {
        Some(name) => contains_name(current, name.as_str()),
        None => false,
    };
    if is_current {
        return false;
    }
    match path_file_stem(path) {
        Some(stem) => is_managed_stem(stem.as_str()),
        None => false,
    }
}

/// The files of `found`, in order, that a sync to `current` removes.
pub open spec fn stale_entries(found: Seq<Seq<char>>, current: Seq<Seq<char>>) -> Seq<Seq<char>>
    decreases found.len(),
{
    if found.len() == 0 {
        found
    } else {
        let rest = stale_entries(found.drop_last(), current);
        if is_stale_entry(found.last(), current) {
            rest.push(found.last())
        } else {
            rest
        }
    }
}

/// Of the file paths `found` in an entry directory, the ones to delete
/// after the entries whose file names are `current` have been written.
pub fn stale_files(found: &Vec<String>, current: &Vec<String>) -> (r: Vec<String>)
    ensures
        names_view(r@) == stale_entries(names_view(found@), names_view(current@)),
{
    let ghost fv = names_view(found@);
    let mut out: Vec<String> = Vec::new();
    let n = found.len();
    for i in 0..n
        invariant
            n == found@.len(),
            fv == names_view(found@),
            names_view(out@) == stale_entries(fv.take(i as int), names_view(current@)),
    {
        assert(fv.take(i + 1).drop_last() == fv.take(i as int));
        assert(fv.take(i + 1).last() == fv[i as int]);
        if is_stale_file(found[i].as_str(), current) {
            let ghost before = out@;
            out.push(found[i].clone());
            assert(names_view(out@) =~= names_view(before).push(fv[i as int]));
        }
    }
    assert(fv.take(n as int) == fv);
    out
}

/// Law: syncing never deletes a file that is one of the current entries,
/// nor one whose name this app could not have written, nor a non-JSON
/// file; and every file it deletes was found in the directory.
pub proof fn lemma_stale_entries_spare_ours(found: Seq<Seq<char>>, current: Seq<Seq<char>>)
    ensures
        forall|k: int|
            0 <= k < stale_entries(found, current).len() ==> is_stale_entry(
                #[trigger] stale_entries(found, current)[k],
                current,
            ) && found.contains(stale_entries(found, current)[k]),
    decreases found.len(),
{
    if found.len() > 0 {
        let init = found.drop_last();
        lemma_stale_entries_spare_ours(init, current);
        let rest = stale_entries(init, current);
        assert forall|k: int| 0 <= k < stale_entries(found, current).len() implies is_stale_entry(
            #[trigger] stale_entries(found, current)[k],
            current,
        ) && found.contains(stale_entries(found, current)[k]) by {
            if k < rest.len() {
                let j = choose|j: int| 0 <= j < init.len() && init[j] == rest[k];
                assert(found[j] == init[j]);
            } else {
                assert(found[found.len() - 1] == found.last());
            }
        }
    }
}

/// Law: the file a save writes for an entry is never deleted by the same
/// save's sync.
pub proof fn lemma_written_entry_survives(path: Seq<char>, current: Seq<Seq<char>>)
    requires
        match file_name_of(path) {
            Some(name) => current.contains(name),
            None => false,
        },
    ensures
        !is_stale_entry(path, current),
{
}

/// Why a project couldn't be loaded from a directory.
#[derive(Debug, Clone, Copy, PartialEq, Eq, Structural)]
pub enum ProjectLoadError {
    /// The directory has neither a manifest nor a legacy project file.
    Missing,
    /// A project file exists but couldn't be read or parsed.
    Invalid,
}

/// Which file a project is read from.
#[derive(Debug, Clone, Copy, PartialEq, Eq, Structural)]
pub enum ProjectSource {
    /// The directory layout, starting at `project.toml`.
    Manifest,
    /// The legacy single `project.json`.
    Legacy,
}

/// Where a project directory is read from, given which of its two possible
/// top-level files exist: the manifest wins; the legacy file is the
/// fallback; with neither the project is missing.
pub fn project_source(has_manifest: bool, has_legacy: bool) -> (r: Result<
    ProjectSource,
    ProjectLoadError,
>)
    ensures
        r == if has_manifest {
            Ok(ProjectSource::Manifest)
        } else if has_legacy {
            Ok(ProjectSource::Legacy)
        } else {
            Err(ProjectLoadError::Missing)
        },
{
    if has_manifest {
        Ok(ProjectSource::Manifest)
    } else if has_legacy {
        Ok(ProjectSource::Legacy)
    } else {
        Err(ProjectLoadError::Missing)
    }
}

/// The Fluent message id of the notice shown for a failed load.
pub fn load_error_message(e: ProjectLoadError) -> (r: &'static str)
    ensures
        r@ == match e {
            ProjectLoadError::Missing => "popup-missing-project-message"@,
            ProjectLoadError::Invalid => "popup-invalid-project-message"@,
        },
{
    match e {
        ProjectLoadError::Missing => "popup-missing-project-message",
        ProjectLoadError::Invalid => "popup-invalid-project-message",
    }
}


/// Every stale file found is among the files a sync removes.
proof fn lemma_stale_entry_removed(found: Seq<Seq<char>>, current: Seq<Seq<char>>, k: int)
    requires
        0 <= k < found.len(),
        is_stale_entry(found[k], current),
    ensures
        stale_entries(found, current).contains(found[k]),
    decreases found.len(),
{
    let rest = stale_entries(found.drop_last(), current);
    if k < found.len() - 1 {
        assert(found.drop_last()[k] == found[k]);
        lemma_stale_entry_removed(found.drop_last(), current, k);
        let j = choose|j: int| 0 <= j < rest.len() && rest[j] == found[k];
        if is_stale_entry(found.last(), current) {
            assert(rest.push(found.last())[j] == rest[j]);
        }
    } else {
        assert(found.last() == found[k]);
        assert(rest.push(found.last())[rest.len() as int] == found[k]);
    }
}

/// Law: a save removes every leftover file this app wrote: a `.json` file
/// found in the entry directory whose name is not one of the entries just
/// written, and whose stem is a full UUID (the first directory layout's
/// naming), a bare 8-hex-digit short id, or anything ending in `-` and 8
/// hex digits.
pub proof fn lemma_leftover_files_removed(
    found: Seq<Seq<char>>,
    current: Seq<Seq<char>>,
    k: int,
    name: Seq<char>,
    stem: Seq<char>,
)
    requires
        0 <= k < found.len(),
        extension_of(found[k]) == Some("json"@),
        file_name_of(found[k]) == Some(name),
        !current.contains(name),
        file_stem_of(found[k]) == Some(stem),
        parses_as_uuid(stem) || (stem.len() == 8 && forall|i: int|
            0 <= i < 8 ==> is_hex_char(#[trigger] stem[i])) || (stem.len() > 9 && stem[stem.len()
            - 9] == '-' && forall|i: int|
            stem.len() - 8 <= i < stem.len() ==> is_hex_char(#[trigger] stem[i])),
    ensures
        stale_entries(found, current).contains(found[k]),
{
    if !parses_as_uuid(stem) && stem.len() > 9 && stem[stem.len() - 9] == '-' {
        let t = stem.subrange(stem.len() - 8, stem.len() as int);
        assert forall|i: int| 0 <= i < t.len() implies is_hex_char(#[trigger] t[i]) by {
            assert(t[i] == stem[i + stem.len() - 8]);
        }
    }
    lemma_stale_entry_removed(found, current, k);
}

} // verus!
