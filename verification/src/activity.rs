//! The status shown by the presence service, built afresh for every update.

use crate::language::{classify, Language, LanguageError};
use crate::workspace::{
    locations, resolution, resolve, text_of, Resolution, ResolutionView, WorkspaceRoot,
};
use vstd::prelude::*;
use vstd::string::*;

verus! {

/// An icon and the text shown with it.
#[derive(Clone, Debug, PartialEq, Eq)]
pub struct Label {
    pub icon_id: String,
    pub text: String,
}

/// The mathematical content of a [`Label`].
pub struct LabelView {
    pub icon_id: Seq<char>,
    pub text: Seq<char>,
}

impl View for Label {
    type V = LabelView;

    open spec fn view(&self) -> LabelView {
        LabelView { icon_id: self.icon_id@, text: self.text@ }
    }
}

/// One complete status. Each replaces the one before it as a whole.
#[derive(Clone, Debug, PartialEq, Eq)]
pub struct PresenceActivity {
    pub details: String,
    pub state: Option<String>,
    pub small_label: Option<Label>,
    pub large_label: Label,
    pub start_timestamp: i64,
}

/// The mathematical content of a [`PresenceActivity`].
pub struct PresenceActivityView {
    pub details: Seq<char>,
    pub state: Option<Seq<char>>,
    pub small_label: Option<LabelView>,
    pub large_label: LabelView,
    pub start_timestamp: i64,
}

impl View for PresenceActivity {
    type V = PresenceActivityView;

    open spec fn view(&self) -> PresenceActivityView {
        PresenceActivityView {
            details: self.details@,
            state: text_of(self.state),
            small_label: match self.small_label {
                Some(l) => Some(l@),
                None => None,
            },
            large_label: self.large_label@,
            start_timestamp: self.start_timestamp,
        }
    }
}

/// A status together with the reason, if any, why it names no language.
#[derive(Clone, Debug, PartialEq, Eq)]
pub struct ActivityUpdate {
    pub activity: PresenceActivity,
    pub language_error: Option<LanguageError>,
}

/// The mathematical content of an [`ActivityUpdate`].
pub struct ActivityUpdateView {
    pub activity: PresenceActivityView,
    pub language_error: Option<LanguageError>,
}

impl View for ActivityUpdate {
    type V = ActivityUpdateView;

    open spec fn view(&self) -> ActivityUpdateView {
        ActivityUpdateView { activity: self.activity@, language_error: self.language_error }
    }
}

/// The editor's own branding, the large label of every status.
pub open spec fn editor_label() -> LabelView {
    LabelView { icon_id: "zed"@, text: "Zed"@ }
}

/// The small label of a language: its icon, and its name as the text.
pub open spec fn language_label(language: Language) -> LabelView {
    LabelView { icon_id: language.icon(), text: language.label() }
}

/// The status shown before any document was edited.
pub open spec fn idle_activity(started_at: i64) -> PresenceActivityView {
    PresenceActivityView {
        details: "Idling"@,
        state: None,
        small_label: None,
        large_label: editor_label(),
        start_timestamp: started_at,
    }
}

/// The headline of an editing status.
pub open spec fn details_line(relative_path: Option<Seq<char>>) -> Seq<char> {
    match relative_path {
        Some(path) => "Editing "@ + path,
        None => "Editing a file"@,
    }
}

/// The second line of an editing status: the project, where one is known.
/// A document outside every project has no second line.
pub open spec fn state_line(project: Option<Seq<char>>) -> Option<Seq<char>> {
    match project {
        Some(name) => Some("in "@ + name),
        None => None,
    }
}

/// The classification of the relative path, where there is a path.
pub open spec fn classification(relative_path: Option<Seq<char>>) -> Option<
    Result<Language, LanguageError>,
> {
    match relative_path {
        Some(path) => Some(classify(path)),
        None => None,
    }
}

/// The status for a document at `place`. A path that cannot be classified
/// costs the status its small label, and a document outside every project
/// costs it its second line; nothing else is lost.
pub open spec fn editing_activity(place: ResolutionView, started_at: i64) -> PresenceActivityView {
    PresenceActivityView {
        details: details_line(place.relative_path),
        state: state_line(place.project),
        small_label: match classification(place.relative_path) {
            Some(Ok(language)) => Some(language_label(language)),
            _ => None,
        },
        large_label: editor_label(),
        start_timestamp: started_at,
    }
}

/// The update for a document at `place`.
pub open spec fn editing_update(place: ResolutionView, started_at: i64) -> ActivityUpdateView {
    ActivityUpdateView {
        activity: editing_activity(place, started_at),
        language_error: match classification(place.relative_path) {
            Some(Err(error)) => Some(error),
            _ => None,
        },
    }
}

/// The update for `document` among `roots`.
pub open spec fn update_for(
    document: Seq<char>,
    roots: Seq<Seq<char>>,
    started_at: i64,
) -> ActivityUpdateView {
    editing_update(resolution(document, roots), started_at)
}

impl Label {
    /// The editor's branding.
    pub fn editor() -> (r: Label)
        ensures
            r@ == editor_label(),
    {
        Label { icon_id: "zed".to_owned(), text: "Zed".to_owned() }
    }

    /// The label of `language`.
    pub fn of_language(language: Language) -> (r: Label)
        ensures
            r@ == language_label(language),
    {
        Label { icon_id: language.icon_id(), text: language.to_string() }
    }
}

impl PresenceActivity {
    /// The status shown once the connection stands and nothing was edited
    /// yet: the branding and the start time, no state and no small label.
    pub fn idling(started_at: i64) -> (r: PresenceActivity)
        ensures
            r@ == idle_activity(started_at),
    {
        PresenceActivity {
            details: "Idling".to_owned(),
            state: None,
            small_label: None,
            large_label: Label::editor(),
            start_timestamp: started_at,
        }
    }
}

impl ActivityUpdate {
    /// Builds the update for a document that was resolved to `place`.
    pub fn editing(place: &Resolution, started_at: i64) -> (r: ActivityUpdate)
        ensures
            r@ == editing_update(place@, started_at),
    {
        let mut small_label: Option<Label> = None;
        let mut language_error: Option<LanguageError> = None;
        let details = match &place.relative_path {
            Some(path) => {
                match Language::from_str(path.as_str()) {
                    Ok(language) => {
                        small_label = Some(Label::of_language(language));
                    },
                    Err(error) => {
                        language_error = Some(error);
                    },
                }
                "Editing ".to_owned().concat(path.as_str())
            },
            None => "Editing a file".to_owned(),
        };
        let state = match &place.project {
            Some(name) => Some("in ".to_owned().concat(name.as_str())),
            None => None,
        };
        ActivityUpdate {
            activity: PresenceActivity {
                details,
                state,
                small_label,
                large_label: Label::editor(),
                start_timestamp: started_at,
            },
            language_error,
        }
    }

    /// Resolves `document` against `roots`, classifies it, and builds the
    /// update that shows it.
    pub fn compose(document: &str, roots: &Vec<WorkspaceRoot>, started_at: i64) -> (r:
        ActivityUpdate)
        ensures
            r@ == update_for(document@, locations(roots@), started_at),
    {
        let place = resolve(document, roots);
        ActivityUpdate::editing(&place, started_at)
    }
}

} // verus!
