use presence_lsp::activity::{ActivityUpdate, Label, PresenceActivity};
use presence_lsp::language::{Language, LanguageError};
use presence_lsp::workspace::{Resolution, WorkspaceRoot};

fn roots(locations: &[&str]) -> Vec<WorkspaceRoot> {
    locations.iter().map(|location| WorkspaceRoot::new(location)).collect()
}

fn label(icon_id: &str, text: &str) -> Label {
    Label { icon_id: icon_id.to_string(), text: text.to_string() }
}

#[test]
fn idling_shows_only_branding_and_start() {
    let activity = PresenceActivity::idling(1_700_000_000);
    assert_eq!(
        activity,
        PresenceActivity {
            details: "Idling".to_string(),
            state: None,
            small_label: None,
            large_label: label("zed", "Zed"),
            start_timestamp: 1_700_000_000,
        }
    );
}

#[test]
fn editing_a_rust_file_in_a_project() {
    let update = ActivityUpdate::compose("/proj/a/src/x.rs", &roots(&["/proj/a", "/proj/b"]), 42);
    assert_eq!(
        update,
        ActivityUpdate {
            activity: PresenceActivity {
                details: "Editing src/x.rs".to_string(),
                state: Some("in a".to_string()),
                small_label: Some(label("rust", "Rust")),
                large_label: label("zed", "Zed"),
                start_timestamp: 42,
            },
            language_error: None,
        }
    );
}

#[test]
fn editing_outside_every_project() {
    let update = ActivityUpdate::compose("/tmp/scratch.rs", &roots(&[]), -7);
    assert_eq!(update.activity.details, "Editing scratch.rs");
    assert_eq!(update.activity.state, None);
    assert_eq!(update.activity.small_label, Some(label("rust", "Rust")));
    assert_eq!(update.activity.large_label, label("zed", "Zed"));
    assert_eq!(update.activity.start_timestamp, -7);
    assert_eq!(update.language_error, None);
}

#[test]
fn an_unknown_extension_costs_the_small_label() {
    let update = ActivityUpdate::compose("/proj/a/notes.txt", &roots(&["/proj/a"]), 1);
    assert_eq!(update.activity.details, "Editing notes.txt");
    assert_eq!(update.activity.state, Some("in a".to_string()));
    assert_eq!(update.activity.small_label, None);
    assert_eq!(update.language_error, Some(LanguageError::UnknownExtension));
}

#[test]
fn a_missing_extension_costs_the_small_label() {
    let update = ActivityUpdate::compose("/proj/a/Makefile", &roots(&["/proj/a"]), 1);
    assert_eq!(update.activity.details, "Editing Makefile");
    assert_eq!(update.activity.small_label, None);
    assert_eq!(update.language_error, Some(LanguageError::NoExtension));
}

#[test]
fn the_relative_path_is_what_is_classified() {
    let update = ActivityUpdate::compose("/proj/a/my.dir/README", &roots(&["/proj/a"]), 1);
    assert_eq!(update.activity.details, "Editing my.dir/README");
    assert_eq!(update.language_error, Some(LanguageError::UnknownExtension));
    let update = ActivityUpdate::compose("/proj.d/a/README", &roots(&["/proj.d/a"]), 1);
    assert_eq!(update.language_error, Some(LanguageError::NoExtension));
}

#[test]
fn a_document_without_segments() {
    let update = ActivityUpdate::compose("untitled.rs", &roots(&["/proj/a"]), 9);
    assert_eq!(
        update,
        ActivityUpdate {
            activity: PresenceActivity {
                details: "Editing a file".to_string(),
                state: None,
                small_label: None,
                large_label: label("zed", "Zed"),
                start_timestamp: 9,
            },
            language_error: None,
        }
    );
}

#[test]
fn every_language_has_its_label() {
    let cases = [
        ("/p/Cargo.toml", "toml", "TOML"),
        ("/p/flake.nix", "nix", "Nix"),
        ("/p/package.json", "json", "JSON"),
        ("/p/settings.jsonc", "json", "JSON"),
        ("/p/main.rs", "rust", "Rust"),
    ];
    for (document, icon, text) in cases {
        let update = ActivityUpdate::compose(document, &roots(&["/p"]), 0);
        assert_eq!(update.activity.small_label, Some(label(icon, text)));
        assert_eq!(update.activity.state, Some("in p".to_string()));
    }
}

#[test]
fn editing_from_a_given_resolution() {
    let place = Resolution { relative_path: Some("a.nix".to_string()), project: None };
    let update = ActivityUpdate::editing(&place, 3);
    assert_eq!(update.activity.details, "Editing a.nix");
    assert_eq!(update.activity.state, None);
    assert_eq!(update.activity.small_label, Some(Label::of_language(Language::Nix)));
    let place = Resolution { relative_path: None, project: Some("ghost".to_string()) };
    let update = ActivityUpdate::editing(&place, 3);
    assert_eq!(update.activity.details, "Editing a file");
    assert_eq!(update.activity.state, Some("in ghost".to_string()));
    assert_eq!(update.activity.small_label, None);
    assert_eq!(update.language_error, None);
}

#[test]
fn labels_of_languages_and_of_the_editor() {
    assert_eq!(Label::editor(), label("zed", "Zed"));
    assert_eq!(Label::of_language(Language::Toml), label("toml", "TOML"));
}
