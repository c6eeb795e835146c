//! The one piece of state that outlives a notification: which document was
//! edited last, and since when the session runs.

use crate::activity::{
    idle_activity, update_for, ActivityUpdate, ActivityUpdateView, PresenceActivity,
};
use crate::workspace::{locations, WorkspaceRoot};
use vstd::prelude::*;
use vstd::string::*;

verus! {

/// The state of a session. The caller keeps it behind its lock and hands it
/// to one notification at a time.
pub struct SessionState {
    last_edited: Option<String>,
    started_at: i64,
}

/// The mathematical content of a [`SessionState`]. With no document edited
/// yet the session idles; after that it is editing the document it names.
pub struct SessionView {
    pub last_edited: Option<Seq<char>>,
    pub started_at: i64,
}

/// A change notification as the tracker sees it: the document that changed,
/// and the workspace roots that the editor reported when asked.
pub struct Notification {
    pub document: Seq<char>,
    pub roots: Seq<Seq<char>>,
}

/// A session's state after some notifications, and the updates that they
/// caused, oldest first.
pub struct Trace {
    pub state: SessionView,
    pub updates: Seq<ActivityUpdateView>,
}

impl SessionView {
    /// The session as it starts: idling.
    pub open spec fn fresh(started_at: i64) -> SessionView {
        SessionView { last_edited: None, started_at }
    }

    /// A change to `document` calls for an update unless `document` is the
    /// one edited last.
    pub open spec fn warrants_update(self, document: Seq<char>) -> bool {
        self.last_edited != Some(document)
    }

    /// The session after a change to `document`.
    pub open spec fn editing(self, document: Seq<char>) -> SessionView {
        SessionView { last_edited: Some(document), started_at: self.started_at }
    }

    /// What a notification does: the state after it, and the update that it
    /// causes, if it causes one.
    pub open spec fn step(self, note: Notification) -> (SessionView, Option<ActivityUpdateView>) {
        (
            self.editing(note.document),
            if self.warrants_update(note.document) {
                Some(update_for(note.document, note.roots, self.started_at))
            } else {
                None
            },
        )
    }

    /// What a sequence of notifications does, handled one after the other.
    pub open spec fn run(self, notes: Seq<Notification>) -> Trace
        decreases notes.len(),
    {
        if notes.len() == 0 {
            Trace { state: self, updates: Seq::empty() }
        } else {
            let before = self.run(notes.drop_last());
            let (state, update) = before.state.step(notes.last());
            Trace {
                state,
                updates: match update {
                    Some(u) => before.updates.push(u),
                    None => before.updates,
                },
            }
        }
    }
}

impl View for SessionState {
    type V = SessionView;

    closed spec fn view(&self) -> SessionView {
        SessionView {
            last_edited: match self.last_edited {
                Some(s) => Some(s@),
                None => None,
            },
            started_at: self.started_at,
        }
    }
}

impl SessionState {
    /// A session that started at `started_at` and has seen no change yet.
    pub fn new(started_at: i64) -> (r: SessionState)
        ensures
            r@ == SessionView::fresh(started_at),
    {
        SessionState { last_edited: None, started_at }
    }

    /// When the session started. It never changes.
    pub fn started_at(&self) -> (r: i64)
        ensures
            r == self@.started_at,
    {
        self.started_at
    }

    /// The document edited last, if any.
    pub fn last_edited(&self) -> (r: Option<String>)
        ensures
            match r {
                Some(s) => self@.last_edited == Some(s@),
                None => self@.last_edited is None,
            },
    {
        match &self.last_edited {
            Some(s) => Some(s.clone()),
            None => None,
        }
    }

    /// The status to show when the connection to the presence service has
    /// just been made.
    pub fn idle_activity(&self) -> (r: PresenceActivity)
        ensures
            r@ == idle_activity(self@.started_at),
    {
        PresenceActivity::idling(self.started_at)
    }

    /// Records a change to `document` and says whether it calls for an
    /// update: it does unless `document` was the one edited last. The record
    /// stands whatever becomes of the update.
    pub fn note_change(&mut self, document: &str) -> (fresh: bool)
        ensures
            fresh == old(self)@.warrants_update(document@),
            final(self)@ == old(self)@.editing(document@),
    {
        let incoming = document.to_owned();
        let same = match &self.last_edited {
            Some(last) => *last == incoming,
            None => false,
        };
        if same {
            false
        } else {
            self.last_edited = Some(incoming);
            true
        }
    }

    /// The update that shows `document`, resolved against `roots`.
    pub fn compose(&self, document: &str, roots: &Vec<WorkspaceRoot>) -> (r: ActivityUpdate)
        ensures
            r@ == update_for(document@, locations(roots@), self@.started_at),
    {
        ActivityUpdate::compose(document, roots, self.started_at)
    }

    /// Handles one change notification: records the document, and where it
    /// differs from the one edited last, builds the update to submit.
    pub fn did_change(&mut self, document: &str, roots: &Vec<WorkspaceRoot>) -> (r: Option<
        ActivityUpdate,
    >)
        ensures
            (final(self)@, update_view(r)) == old(self)@.step(
                Notification { document: document@, roots: locations(roots@) },
            ),
    {
        if self.note_change(document) {
            Some(self.compose(document, roots))
        } else {
            None
        }
    }
}

/// Every notification in `notes` names `document`.
pub open spec fn all_name(notes: Seq<Notification>, document: Seq<char>) -> bool {
    forall|i: int| 0 <= i < notes.len() ==> (#[trigger] notes[i]).document == document
}

/// No notification in `notes` names the document of the one before it.
pub open spec fn each_differs_from_previous(notes: Seq<Notification>) -> bool {
    forall|i: int| 0 < i < notes.len() ==> (#[trigger] notes[i]).document != notes[i - 1].document
}

/// `update` is what `note` causes in a session that started at `started_at`.
pub open spec fn shows(update: ActivityUpdateView, note: Notification, started_at: i64) -> bool {
    update == update_for(note.document, note.roots, started_at)
}

/// A session keeps its start time, and after any notification it is editing
/// the document that the last one named.
pub proof fn lemma_run_state(start: SessionView, notes: Seq<Notification>)
    ensures
        start.run(notes).state.started_at == start.started_at,
        notes.len() > 0 ==> start.run(notes).state.last_edited == Some(notes.last().document),
        notes.len() == 0 ==> start.run(notes).state == start,
        start.run(notes).updates.len() <= notes.len(),
    decreases notes.len(),
{
    if notes.len() > 0 {
        lemma_run_state(start, notes.drop_last());
    }
}

/// Notifications for the document that is being edited already cause no
/// update and leave the session as it was.
pub proof fn lemma_repeats_cause_no_update(
    start: SessionView,
    notes: Seq<Notification>,
    document: Seq<char>,
)
    requires
        start.last_edited == Some(document),
        all_name(notes, document),
    ensures
        start.run(notes).updates == Seq::<ActivityUpdateView>::empty(),
        start.run(notes).state == start,
    decreases notes.len(),
{
    if notes.len() > 0 {
        lemma_repeats_cause_no_update(start, notes.drop_last(), document);
    }
}

/// Where every notification names the same document, and the session was
/// not editing that document before, exactly one update is caused: that of
/// the first notification.
pub proof fn lemma_one_update_for_one_document(start: SessionView, notes: Seq<Notification>)
    requires
        notes.len() > 0,
        all_name(notes, notes[0].document),
        start.warrants_update(notes[0].document),
    ensures
        start.run(notes).updates.len() == 1,
        shows(start.run(notes).updates[0], notes[0], start.started_at),
    decreases notes.len(),
{
    let head = notes.drop_last();
    lemma_run_state(start, head);
    if head.len() > 0 {
        lemma_one_update_for_one_document(start, head);
    }
}

/// In a session that starts now, any number of notifications for one
/// document causes exactly one update, the first.
pub proof fn lemma_same_document_updates_once(started_at: i64, notes: Seq<Notification>)
    requires
        notes.len() > 0,
        all_name(notes, notes[0].document),
    ensures
        SessionView::fresh(started_at).run(notes).updates.len() == 1,
        shows(SessionView::fresh(started_at).run(notes).updates[0], notes[0], started_at),
{
    lemma_one_update_for_one_document(SessionView::fresh(started_at), notes);
}

/// Where each notification names another document than the one before it,
/// and the first another than the session was editing, every notification
/// causes its update: as many updates as notifications, each showing the
/// document of its notification, resolved and classified.
pub proof fn lemma_each_new_document_updates(start: SessionView, notes: Seq<Notification>)
    requires
        each_differs_from_previous(notes),
        notes.len() > 0 ==> start.warrants_update(notes[0].document),
    ensures
        start.run(notes).updates.len() == notes.len(),
        forall|i: int|
            0 <= i < notes.len() ==> shows(
                #[trigger] start.run(notes).updates[i],
                notes[i],
                start.started_at,
            ),
    decreases notes.len(),
{
    if notes.len() > 0 {
        let head = notes.drop_last();
        assert(each_differs_from_previous(head)) by {
            assert(forall|i: int| 0 <= i < head.len() ==> head[i] == notes[i]);
        }
        lemma_each_new_document_updates(start, head);
        lemma_run_state(start, head);
    }
}

/// In a session that starts now, notifications for N documents, each
/// another than the one before it, cause exactly N updates, the i-th
/// showing the i-th document.
pub proof fn lemma_distinct_documents_update_each(started_at: i64, notes: Seq<Notification>)
    requires
        each_differs_from_previous(notes),
    ensures
        SessionView::fresh(started_at).run(notes).updates.len() == notes.len(),
        forall|i: int|
            0 <= i < notes.len() ==> shows(
                #[trigger] SessionView::fresh(started_at).run(notes).updates[i],
                notes[i],
                started_at,
            ),
{
    lemma_each_new_document_updates(SessionView::fresh(started_at), notes);
}

/// Whatever notifications were handled and in whatever order they took
/// their turn, every update shows the document of one of them, and the
/// update caused last shows the document that the session is editing at the
/// end: never an earlier one.
pub proof fn lemma_last_update_shows_last_edited(start: SessionView, notes: Seq<Notification>)
    ensures
        forall|j: int|
            0 <= j < start.run(notes).updates.len() ==> exists|k: int|
                0 <= k < notes.len() && shows(
                    #[trigger] start.run(notes).updates[j],
                    #[trigger] notes[k],
                    start.started_at,
                ),
        start.run(notes).updates.len() > 0 ==> exists|k: int|
            0 <= k < notes.len() && shows(
                start.run(notes).updates.last(),
                #[trigger] notes[k],
                start.started_at,
            ) && start.run(notes).state.last_edited == Some(notes[k].document),
    decreases notes.len(),
{
    if notes.len() > 0 {
        let head = notes.drop_last();
        let before = start.run(head);
        let after = start.run(notes);
        let last = notes.len() - 1;
        lemma_last_update_shows_last_edited(start, head);
        lemma_run_state(start, head);
        assert forall|j: int| 0 <= j < after.updates.len() implies exists|k: int|
            0 <= k < notes.len() && shows(
                #[trigger] after.updates[j],
                #[trigger] notes[k],
                start.started_at,
            ) by {
            if j < before.updates.len() {
                let k = choose|k: int|
                    0 <= k < head.len() && shows(
                        #[trigger] before.updates[j],
                        #[trigger] head[k],
                        start.started_at,
                    );
                assert(shows(after.updates[j], notes[k], start.started_at));
            } else {
                assert(shows(after.updates[j], notes[last], start.started_at));
            }
        }
        if after.updates.len() > 0 {
            if before.state.warrants_update(notes[last].document) {
                assert(shows(after.updates.last(), notes[last], start.started_at));
            } else {
                let k = choose|k: int|
                    0 <= k < head.len() && shows(
                        before.updates.last(),
                        #[trigger] head[k],
                        start.started_at,
                    ) && before.state.last_edited == Some(head[k].document);
                assert(shows(after.updates.last(), notes[k], start.started_at));
            }
        }
    }
}

/// The content of an update that may be absent.
pub open spec fn update_view(update: Option<ActivityUpdate>) -> Option<ActivityUpdateView> {
    match update {
        Some(u) => Some(u@),
        None => None,
    }
}

} // verus!
