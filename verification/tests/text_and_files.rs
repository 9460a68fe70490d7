use dreaming_wizard::project_data::{resolve_avatar_path, Character};
use dreaming_wizard::project_dialogs::SaveProjectDialog;
use dreaming_wizard::story_block::{BlockContent, StoryBlock};
use dreaming_wizard::story_node::StoryNode;
use dreaming_wizard::project_files::{
    entry_file_name, entry_file_stem, is_json_file, is_managed_stem, is_stale_file, load_error_message,
    project_dir_from, project_source, stale_files, ProjectLoadError, ProjectSource, MAX_STEM_NAME,
};
use dreaming_wizard::text::{display_title, str_contains, str_eq, to_ascii_lowercase, trim};

#[test]
fn display_title_keeps_short_titles() {
    assert_eq!(display_title("Intro", 10), "Intro");
    assert_eq!(display_title("Exactly10!", 10), "Exactly10!");
}

#[test]
fn display_title_truncates_with_ellipsis() {
    assert_eq!(display_title("The long way home", 8), "The lon...");
    assert_eq!(display_title("Héllo wörld", 4), "Hél...");
}

#[test]
fn display_title_empty_with_zero_limit() {
    assert_eq!(display_title("", 0), "");
}

#[test]
fn trim_strips_both_ends() {
    assert_eq!(trim("  hello world \t\n"), "hello world");
    assert_eq!(trim("   "), "");
    assert_eq!(trim("x"), "x");
}

#[test]
fn trim_uses_unicode_whitespace() {
    assert_eq!(trim("\u{3000}x y\u{a0}"), "x y");
}

#[test]
fn lowercase_helpers() {
    assert_eq!(to_ascii_lowercase("ÀbC.PNG"), "Àbc.png");
    let block = StoryBlock { id: 1, content: BlockContent::Note { text: "ÀBÇ".to_string() } };
    assert!(block.matches_query("àbç"));
    assert!(!block.matches_query("ÀBÇ"));
}

#[test]
fn substring_and_equality() {
    assert!(str_contains("the tavern door", "tavern"));
    assert!(str_contains("abc", ""));
    assert!(!str_contains("abc", "abcd"));
    assert!(str_eq("same", "same"));
    assert!(!str_eq("same", "Same"));
}

#[test]
fn short_ids_are_lowercase_hex() {
    let id: u128 = 0x3AC7BFE3_0496_4C1E_8F5E_0123456789AB;
    assert_eq!(entry_file_stem("", id), "3ac7bfe3");
    assert_eq!(entry_file_stem("", 1), "00000000");
    assert_eq!(entry_file_stem("", u128::MAX), "ffffffff");
}

#[test]
fn fresh_nodes_get_distinct_ids() {
    assert_ne!(StoryNode::fresh(String::new()).id, StoryNode::fresh(String::new()).id);
}

#[test]
fn full_uuid_stems_are_managed() {
    assert!(is_managed_stem("3ac7bfe3-0496-4c1e-8f5e-0123456789ab"));
    assert!(is_managed_stem("3ac7bfe304964c1e8f5e0123456789ab"));
    assert!(is_managed_stem("{3ac7bfe3-0496-4c1e-8f5e-0123456789ab}"));
    assert!(is_managed_stem("urn:uuid:3ac7bfe3-0496-4c1e-8f5e-0123456789ab"));
    assert!(!is_managed_stem("3ac7bfe3-0496-4c1e-8f5e-0123456789"));
}

#[test]
fn entry_file_stem_encodes_name_and_short_id() {
    let id: u128 = 0x3ac7bfe3_0496_4c1e_8f5e_0123456789ab;
    assert_eq!(entry_file_stem("Some really long title", id), "Some_really_long_title-3ac7bfe3");
    assert_eq!(entry_file_stem("  a/b:c*d?e\"f<g>h|i.j\\k  ", id), "abcdefghijk-3ac7bfe3");
    assert_eq!(entry_file_stem("   ", id), "3ac7bfe3");
    assert_eq!(entry_file_stem("...", id), "3ac7bfe3");
    assert_eq!(entry_file_stem("bell\u{7}tab\ttext", id), "belltab_text-3ac7bfe3");
}

#[test]
fn entry_file_stem_cuts_long_names() {
    let id: u128 = 0xdeadbeef_0000_0000_0000_000000000000;
    let name = "a".repeat(40);
    let stem = entry_file_stem(&name, id);
    assert_eq!(stem, format!("{}-deadbeef", "a".repeat(MAX_STEM_NAME)));
}

#[test]
fn entry_file_name_adds_json() {
    let id: u128 = 0x3ac7bfe3_0496_4c1e_8f5e_0123456789ab;
    assert_eq!(entry_file_name("Tavern", id), "Tavern-3ac7bfe3.json");
}

#[test]
fn managed_stems() {
    assert!(is_managed_stem("3ac7bfe3"));
    assert!(is_managed_stem("Tavern-3ac7bfe3"));
    assert!(is_managed_stem("3ac7bfe3-0496-4c1e-8f5e-0123456789ab"));
    assert!(!is_managed_stem("notes"));
    assert!(!is_managed_stem("Tavern-3ac7bfeZ"));
    assert!(!is_managed_stem("-3ac7bfe3"));
    assert!(!is_managed_stem("3ac7bfe"));
}

#[test]
fn written_stems_are_managed() {
    let id = StoryNode::fresh(String::new()).id;
    for name in ["", "Tavern", "A very long title that goes on and on and on", "..."] {
        assert!(is_managed_stem(&entry_file_stem(name, id)));
    }
}

#[test]
fn json_files_by_extension() {
    assert!(is_json_file("/p/scripts/Tavern-3ac7bfe3.json"));
    assert!(!is_json_file("/p/scripts/readme.txt"));
    assert!(!is_json_file("/p/scripts/noext"));
    assert!(!is_json_file("/p/scripts/upper.JSON"));
}

#[test]
fn stale_file_decisions() {
    let current = vec!["Tavern-3ac7bfe3.json".to_string()];
    assert!(!is_stale_file("/p/scripts/Tavern-3ac7bfe3.json", &current));
    assert!(is_stale_file("/p/scripts/Old_name-3ac7bfe3.json", &current));
    assert!(!is_stale_file("/p/scripts/notes.json", &current));
    assert!(!is_stale_file("/p/scripts/Old_name-3ac7bfe3.txt", &current));
}

#[test]
fn stale_files_keeps_order_and_spares_current() {
    let current = vec!["Tavern-3ac7bfe3.json".to_string()];
    let found = vec![
        "/p/scripts/Tavern-3ac7bfe3.json".to_string(),
        "/p/scripts/deadbeef.json".to_string(),
        "/p/scripts/mine.json".to_string(),
        "/p/scripts/Gone-0badf00d.json".to_string(),
    ];
    assert_eq!(
        stale_files(&found, &current),
        vec!["/p/scripts/deadbeef.json".to_string(), "/p/scripts/Gone-0badf00d.json".to_string()]
    );
}

#[test]
fn project_source_prefers_manifest() {
    assert_eq!(project_source(true, true), Ok(ProjectSource::Manifest));
    assert_eq!(project_source(true, false), Ok(ProjectSource::Manifest));
    assert_eq!(project_source(false, true), Ok(ProjectSource::Legacy));
    assert_eq!(project_source(false, false), Err(ProjectLoadError::Missing));
}

#[test]
fn load_error_messages() {
    assert_eq!(load_error_message(ProjectLoadError::Missing), "popup-missing-project-message");
    assert_eq!(load_error_message(ProjectLoadError::Invalid), "popup-invalid-project-message");
}

#[test]
fn project_dir_tolerates_legacy_file_path() {
    assert_eq!(project_dir_from("/home/me/story/project.json"), Some("/home/me/story".to_string()));
    assert_eq!(project_dir_from("/home/me/story"), Some("/home/me/story".to_string()));
    assert_eq!(project_dir_from("project.json"), Some("".to_string()));
}

#[test]
fn path_handling_follows_std_path() {
    assert_eq!(resolve_avatar_path("/a/.png"), None);
    assert_eq!(resolve_avatar_path("/a/b.tar.png"), Some("/a/b.tar.png"));
    let mut d = SaveProjectDialog::new("/abs".to_string());
    d.base_dir = Some("/a".to_string());
    assert_eq!(d.target_path(), Some("/abs".to_string()));
    d.draft_name = "b".to_string();
    assert_eq!(d.target_path(), Some("/a/b".to_string()));
    let c = Character {
        id: 1,
        name: String::new(),
        avatar: "/p/q/r.png".to_string(),
        comment: String::new(),
        description: String::new(),
    };
    assert_eq!(c.avatar_for_disk("/p/"), "q/r.png");
    assert_eq!(c.avatar_for_disk("/p/q/r"), "/p/q/r.png");
    let current = vec!["b.tar.json".to_string()];
    assert!(is_stale_file("/s/old-3ac7bfe3.json", &current));
    assert!(!is_stale_file("/s/old-3ac7bfe3.tar.json", &current));
}

#[test]
fn whitespace_and_control_sets_agree_with_std() {
    let id: u128 = 0xabcdef01_0000_0000_0000_000000000000;
    for code in 0u32..0x3100 {
        let Some(c) = char::from_u32(code) else { continue };
        let padded = format!("{c}x{c}");
        assert_eq!(trim(&padded) == "x", c.is_whitespace(), "U+{code:04X}");
        if !c.is_whitespace() && !matches!(c, '/' | '\\' | ':' | '*' | '?' | '"' | '<' | '>' | '|' | '.') {
            let stem = entry_file_stem(&format!("a{c}b"), id);
            let expected = if c.is_control() { "ab-abcdef01".to_string() } else { format!("a{c}b-abcdef01") };
            assert_eq!(stem, expected, "U+{code:04X}");
        }
    }
}
