use presence_lsp::workspace::{
    last_segment, reported_roots, resolve, strip_root, Resolution, WorkspaceRoot,
};
use tower_lsp::lsp_types::Url;

fn roots(locations: &[&str]) -> Vec<WorkspaceRoot> {
    locations.iter().map(|location| WorkspaceRoot::new(location)).collect()
}

fn place(relative_path: Option<&str>, project: Option<&str>) -> Resolution {
    Resolution {
        relative_path: relative_path.map(|s| s.to_string()),
        project: project.map(|s| s.to_string()),
    }
}

#[test]
fn first_of_two_roots_matches() {
    let r = resolve("/proj/a/src/x.rs", &roots(&["/proj/a", "/proj/b"]));
    assert_eq!(r, place(Some("src/x.rs"), Some("a")));
}

#[test]
fn second_root_matches() {
    let r = resolve("/proj/b/lib.rs", &roots(&["/proj/a", "/proj/b"]));
    assert_eq!(r, place(Some("lib.rs"), Some("b")));
}

#[test]
fn first_match_wins_over_the_more_specific_root() {
    let r = resolve("/proj/a/src/x.rs", &roots(&["/proj", "/proj/a"]));
    assert_eq!(r, place(Some("a/src/x.rs"), Some("proj")));
    let r = resolve("/proj/a/src/x.rs", &roots(&["/proj/a", "/proj"]));
    assert_eq!(r, place(Some("src/x.rs"), Some("a")));
    let r = resolve("/proj/a/src/x.rs", &roots(&["/other", "/proj/a/src", "/proj/a", "/proj"]));
    assert_eq!(r, place(Some("x.rs"), Some("src")));
}

#[test]
fn no_roots_falls_back_to_the_file_name() {
    let r = resolve("/tmp/scratch.rs", &roots(&[]));
    assert_eq!(r, place(Some("scratch.rs"), None));
}

#[test]
fn no_matching_root_falls_back_to_the_file_name() {
    let r = resolve("/tmp/scratch.rs", &roots(&["/proj/a", "/proj/b"]));
    assert_eq!(r, place(Some("scratch.rs"), None));
}

#[test]
fn a_root_is_an_ancestor_only_up_to_a_separator() {
    let r = resolve("/proj/ab/x.rs", &roots(&["/proj/a"]));
    assert_eq!(r, place(Some("x.rs"), None));
}

#[test]
fn a_root_is_no_ancestor_of_itself() {
    let r = resolve("/proj/a", &roots(&["/proj/a"]));
    assert_eq!(r, place(Some("a"), None));
}

#[test]
fn a_root_directly_followed_by_a_separator() {
    let r = resolve("/proj/a/", &roots(&["/proj/a"]));
    assert_eq!(r, place(Some(""), Some("a")));
}

#[test]
fn a_root_written_with_a_trailing_separator() {
    let r = resolve("/proj/a/x.rs", &roots(&["/proj/a/"]));
    assert_eq!(r, place(Some("x.rs"), None));
    let r = resolve("/proj/a//x.rs", &roots(&["/proj/a/"]));
    assert_eq!(r, place(Some("x.rs"), Some("")));
}

#[test]
fn a_path_without_segments_resolves_to_nothing() {
    assert_eq!(resolve("scratch.rs", &roots(&[])), place(None, None));
    assert_eq!(resolve("", &roots(&["/proj"])), place(None, None));
}

#[test]
fn a_root_without_segments_names_no_project() {
    let r = resolve("/a/b", &roots(&[""]));
    assert_eq!(r, place(Some("a/b"), None));
    let r = resolve("rel/a/b", &roots(&["rel"]));
    assert_eq!(r, place(Some("a/b"), None));
}

#[test]
fn paths_beyond_ascii() {
    let r = resolve("/проект/исходники/файл.rs", &roots(&["/проект"]));
    assert_eq!(r, place(Some("исходники/файл.rs"), Some("проект")));
    let r = resolve("/tmp/données.toml", &roots(&[]));
    assert_eq!(r, place(Some("données.toml"), None));
}

#[test]
fn last_segments() {
    assert_eq!(last_segment("/proj/a"), Some("a".to_string()));
    assert_eq!(last_segment("/proj/a/"), Some("".to_string()));
    assert_eq!(last_segment("/"), Some("".to_string()));
    assert_eq!(last_segment("/x"), Some("x".to_string()));
    assert_eq!(last_segment("x/y"), None);
    assert_eq!(last_segment(""), None);
}

#[test]
fn stripping_a_root() {
    assert_eq!(strip_root("/proj/a/src/x.rs", "/proj/a"), Some("src/x.rs".to_string()));
    assert_eq!(strip_root("/proj/a/src/x.rs", "/proj"), Some("a/src/x.rs".to_string()));
    assert_eq!(strip_root("/proj/a/src/x.rs", "/proj/b"), None);
    assert_eq!(strip_root("/proj/a", "/proj/a"), None);
    assert_eq!(strip_root("/proj/a", "/proj/a/b/c"), None);
    assert_eq!(strip_root("/x", ""), Some("x".to_string()));
    assert_eq!(strip_root("", ""), None);
}

#[test]
fn display_name_is_the_final_segment() {
    assert_eq!(WorkspaceRoot::new("/home/me/project").display_name(), Some("project".to_string()));
    assert_eq!(WorkspaceRoot::new("project").display_name(), None);
    assert_eq!(WorkspaceRoot::new("/home/me/project").location, "/home/me/project");
}

#[test]
fn last_segment_agrees_with_the_segments_of_a_location() {
    let locations = [
        "file:///proj/a/src/x.rs",
        "file:///proj/a/",
        "file:///",
        "file:///tmp/with%20space.rs",
        "untitled:Untitled-1",
        "data:text/plain,Hello",
        "https://example.com",
        "https://example.com/a/b.json?q=1#frag",
    ];
    for location in locations {
        let url = Url::parse(location).unwrap();
        let expected = url
            .path_segments()
            .and_then(|mut segments| segments.next_back())
            .map(|s| s.to_string());
        assert_eq!(last_segment(url.path()), expected);
    }
}

#[test]
fn strip_root_agrees_with_stripping_the_prefix() {
    let documents = ["/proj/a/src/x.rs", "/proj/a", "/proj/ab/c", "", "/", "rel/x"];
    let candidates = ["/proj/a", "/proj", "", "/", "rel", "/proj/a/src/x.rs"];
    for document in documents {
        for root in candidates {
            let expected = document.strip_prefix(&format!("{}/", root)).map(|s| s.to_string());
            assert_eq!(strip_root(document, root), expected);
        }
    }
}

#[test]
fn reported_roots_keep_their_order() {
    let answer = Some(vec!["/proj".to_string(), "/proj/a".to_string(), "/other".to_string()]);
    assert_eq!(reported_roots(answer), roots(&["/proj", "/proj/a", "/other"]));
}

#[test]
fn no_answer_means_no_roots() {
    assert_eq!(reported_roots(None), roots(&[]));
    assert_eq!(reported_roots(Some(Vec::new())), roots(&[]));
}
