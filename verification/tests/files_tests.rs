use yawl::files::{
    index_entries, parse_listing, rank_matches, score_lower, walk_skips, FileIndex,
};

fn entries(paths: &[&str]) -> Vec<String> {
    paths.iter().map(|path| (*path).to_string()).collect()
}

#[test]
fn cached_matches_follow_query_changes_and_keep_order() {
    let paths = entries(&["src/Config.rs", "README.md", "config/notes.md"]);
    let mut index = FileIndex::with_entries(paths.clone());
    for query in ["", "config", "config", "CONFIG", "zzzz", "zzzz", "rdme", ""] {
        assert_eq!(index.matches(query), &rank_matches(&paths, query));
    }
    let storage = index.matches("").as_ptr();
    assert_eq!(index.matches("").as_ptr(), storage);
}

#[test]
fn file_name_matches_outrank_directory_matches() {
    let entries = entries(&[
        "src/render/helpers.rs",
        "src/tui/render.rs",
        "docs/render-notes.md",
    ]);
    let matches = rank_matches(&entries, "render");
    assert_eq!(
        matches,
        [
            "src/tui/render.rs",
            "docs/render-notes.md",
            "src/render/helpers.rs",
        ]
    );
}

#[test]
fn matching_is_case_insensitive_and_supports_subsequences() {
    let entries = entries(&["src/Config.rs", "README.md"]);
    assert_eq!(rank_matches(&entries, "config"), ["src/Config.rs"]);
    assert_eq!(rank_matches(&entries, "rdme"), ["README.md"]);
    assert!(rank_matches(&entries, "zzz").is_empty());
}

#[test]
fn empty_query_lists_entries() {
    let entries = entries(&["b.rs", "a.rs"]);
    assert_eq!(rank_matches(&entries, ""), ["a.rs", "b.rs"]);
}

#[test]
fn letters_outside_ascii_match_without_their_case() {
    let entries = entries(&["docs/ÄRGER.md"]);
    assert_eq!(rank_matches(&entries, "ärger"), ["docs/ÄRGER.md"]);
}

#[test]
fn hidden_and_build_directories_are_skipped() {
    assert!(walk_skips(".git"));
    assert!(walk_skips("target"));
    assert!(!walk_skips("src"));
}

#[test]
fn listings_are_split_at_zero_bytes() {
    assert_eq!(parse_listing(b"a.rs\0src/b.rs\0"), ["a.rs", "src/b.rs"]);
}

#[test]
fn the_index_is_sorted_and_holds_each_file_once() {
    let found = index_entries(&entries(&["src/b.rs", "a.rs", "src/b.rs"]));
    assert_eq!(found, ["a.rs", "src/b.rs"]);
}

#[test]
fn names_come_before_paths_and_those_before_scattered_characters() {
    let rank = |name: &str, path: &str, query: &str| {
        let chars = |text: &str| text.chars().collect::<Vec<char>>();
        score_lower(&chars(name), &chars(path), &chars(query))
    };
    assert_eq!(rank("render.rs", "src/render.rs", "ren"), Some(0));
    assert_eq!(rank("render.rs", "src/render.rs", "der"), Some(1));
    assert_eq!(rank("render.rs", "src/render.rs", "c/r"), Some(2));
    assert_eq!(rank("render.rs", "src/render.rs", "srr"), Some(3));
    assert_eq!(rank("render.rs", "src/render.rs", "x"), None);
}
