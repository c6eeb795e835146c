//! From a document's absolute path and the workspace roots to a path
//! relative to a root and the name of the project.

use crate::text::{
    begins_with, chars_of, find_last, last_index_of, lemma_last_index_of, starts_with, tail_from,
};
use vstd::prelude::*;
use vstd::string::*;

verus! {

/// A project root as the editor reports it: the absolute path of its directory.
#[derive(Clone, Debug, PartialEq, Eq)]
pub struct WorkspaceRoot {
    pub location: String,
}

impl View for WorkspaceRoot {
    type V = Seq<char>;

    open spec fn view(&self) -> Seq<char> {
        self.location@
    }
}

/// What is known of a document's place: its path relative to a root, and
/// the name of the project it belongs to.
#[derive(Clone, Debug, PartialEq, Eq)]
pub struct Resolution {
    pub relative_path: Option<String>,
    pub project: Option<String>,
}

/// The mathematical content of a [`Resolution`].
pub struct ResolutionView {
    pub relative_path: Option<Seq<char>>,
    pub project: Option<Seq<char>>,
}

impl View for Resolution {
    type V = ResolutionView;

    open spec fn view(&self) -> ResolutionView {
        ResolutionView {
            relative_path: text_of(self.relative_path),
            project: text_of(self.project),
        }
    }
}

/// The characters of an optional string.
pub open spec fn text_of(s: Option<String>) -> Option<Seq<char>> {
    match s {
        Some(s) => Some(s@),
        None => None,
    }
}

/// The locations of `roots`, in their order.
pub open spec fn locations(roots: Seq<WorkspaceRoot>) -> Seq<Seq<char>> {
    Seq::new(roots.len(), |i: int| roots[i]@)
}

/// The last `/`-separated segment of an absolute path: what follows its
/// last `/`. A path that does not begin with `/` has no segments.
pub open spec fn final_segment(path: Seq<char>) -> Option<Seq<char>> {
    if path.len() > 0 && path[0] == '/' {
        match last_index_of(path, '/') {
            Some(i) => Some(path.skip(i + 1)),
            None => None,
        }
    } else {
        None
    }
}

/// `document` relative to `root`, where `root` is a strict ancestor of it:
/// `document` is `root`, a `/`, and the relative path.
pub open spec fn relative_to(document: Seq<char>, root: Seq<char>) -> Option<Seq<char>> {
    if starts_with(document, root.push('/')) {
        Some(document.skip(root.len() as int + 1))
    } else {
        None
    }
}

/// `i` is the first position in `roots` that holds an ancestor of `document`.
pub open spec fn is_first_match(document: Seq<char>, roots: Seq<Seq<char>>, i: int) -> bool {
    &&& 0 <= i < roots.len()
    &&& relative_to(document, roots[i]) is Some
    &&& forall|j: int| 0 <= j < i ==> relative_to(document, #[trigger] roots[j]) is None
}

/// No position in `roots` holds an ancestor of `document`.
pub open spec fn no_match(document: Seq<char>, roots: Seq<Seq<char>>) -> bool {
    forall|j: int| 0 <= j < roots.len() ==> relative_to(document, #[trigger] roots[j]) is None
}

/// The position of the first ancestor of `document` in `roots`.
pub open spec fn first_match(document: Seq<char>, roots: Seq<Seq<char>>) -> Option<int>
    decreases roots.len(),
{
    if roots.len() == 0 {
        None
    } else if relative_to(document, roots[0]) is Some {
        Some(0)
    } else {
        match first_match(document, roots.drop_first()) {
            Some(i) => Some(i + 1),
            None => None,
        }
    }
}

/// Where `document` lies: relative to the first root that is an ancestor of
/// it, under that root's final segment as the project's name; with no such
/// root, its own final segment and no project.
pub open spec fn resolution(document: Seq<char>, roots: Seq<Seq<char>>) -> ResolutionView {
    match first_match(document, roots) {
        Some(i) => ResolutionView {
            relative_path: relative_to(document, roots[i]),
            project: final_segment(roots[i]),
        },
        None => ResolutionView { relative_path: final_segment(document), project: None },
    }
}

/// `first_match` finds the first matching position, and finds nothing only
/// where no position matches.
pub proof fn lemma_first_match(document: Seq<char>, roots: Seq<Seq<char>>)
    ensures
        match first_match(document, roots) {
            Some(i) => is_first_match(document, roots, i),
            None => no_match(document, roots),
        },
    decreases roots.len(),
{
    if roots.len() > 0 && relative_to(document, roots[0]) is None {
        let rest = roots.drop_first();
        lemma_first_match(document, rest);
        match first_match(document, rest) {
            Some(i) => {
                assert forall|j: int| 0 <= j < i + 1 implies relative_to(
                    document,
                    #[trigger] roots[j],
                ) is None by {
                    if j > 0 {
                        assert(roots[j] == rest[j - 1]);
                    }
                }
            },
            None => {
                assert forall|j: int| 0 <= j < roots.len() implies relative_to(
                    document,
                    #[trigger] roots[j],
                ) is None by {
                    if j > 0 {
                        assert(roots[j] == rest[j - 1]);
                    }
                }
            },
        }
    }
}

/// The first root that is an ancestor of the document decides, whatever
/// roots follow it: the order of the list is significant.
pub proof fn lemma_first_match_wins(document: Seq<char>, roots: Seq<Seq<char>>, i: int)
    requires
        is_first_match(document, roots, i),
    ensures
        resolution(document, roots) == (ResolutionView {
            relative_path: relative_to(document, roots[i]),
            project: final_segment(roots[i]),
        }),
{
    lemma_first_match(document, roots);
}

/// With no ancestor among the roots, and so with no roots at all, the
/// document's own final segment stands for its path and no project is named.
pub proof fn lemma_no_match_falls_back(document: Seq<char>, roots: Seq<Seq<char>>)
    requires
        no_match(document, roots),
    ensures
        resolution(document, roots) == (ResolutionView {
            relative_path: final_segment(document),
            project: None,
        }),
{
    lemma_first_match(document, roots);
}

/// A path relative to a root leads back to the document: the root, a `/`
/// and the relative path are the document's path.
pub proof fn lemma_relative_path_recomposes(document: Seq<char>, root: Seq<char>)
    ensures
        relative_to(document, root) matches Some(rest) ==> document == root.push('/') + rest,
{
    if let Some(rest) = relative_to(document, root) {
        assert(document =~= root.push('/') + rest);
    }
}

/// Exactly the paths that begin with `/` have a final segment. It holds no
/// `/` itself, and the path ends in a `/` followed by it.
pub proof fn lemma_final_segment(path: Seq<char>)
    ensures
        final_segment(path) is Some <==> path.len() > 0 && path[0] == '/',
        final_segment(path) matches Some(segment) ==> {
            &&& segment.len() < path.len()
            &&& path[path.len() - segment.len() - 1] == '/'
            &&& path.skip(path.len() - segment.len()) == segment
            &&& forall|k: int| 0 <= k < segment.len() ==> segment[k] != '/'
        },
{
    lemma_last_index_of(path, '/');
}

/// Where `root` and a `/` begin `document`, the position in `document`
/// at which the relative path starts.
fn relative_start(document: &Vec<char>, root: &Vec<char>) -> (r: Option<usize>)
    ensures
        match r {
            Some(from) => from == root.len() + 1 && from <= document.len() && relative_to(
                document@,
                root@,
            ) == Some(document@.skip(from as int)),
            None => relative_to(document@, root@) is None,
        },
{
    let ghost prefix = root@.push('/');
    if root.len() >= document.len() {
        return None;
    }
    if !begins_with(document, root) {
        assert(document@.subrange(0, prefix.len() as int).subrange(0, root@.len() as int)
            =~= document@.subrange(0, root@.len() as int));
        assert(prefix.subrange(0, root@.len() as int) =~= root@);
        return None;
    }
    if document[root.len()] != '/' {
        assert(document@.subrange(0, prefix.len() as int)[root@.len() as int]
            != prefix[root@.len() as int]);
        return None;
    }
    assert(document@.subrange(0, prefix.len() as int) =~= prefix);
    Some(root.len() + 1)
}

/// What follows the last `/` of a path that begins with `/`.
pub fn last_segment(path: &str) -> (r: Option<String>)
    ensures
        text_of(r) == final_segment(path@),
{
    let chars = chars_of(path);
    if chars.len() == 0 || chars[0] != '/' {
        return None;
    }
    match find_last(&chars, '/') {
        Some(slash) => Some(tail_from(path, slash + 1)),
        None => None,
    }
}

/// `document` relative to `root`, where `root` followed by `/` begins it.
pub fn strip_root(document: &str, root: &str) -> (r: Option<String>)
    ensures
        text_of(r) == relative_to(document@, root@),
{
    let document_chars = chars_of(document);
    let root_chars = chars_of(root);
    match relative_start(&document_chars, &root_chars) {
        Some(from) => Some(tail_from(document, from)),
        None => None,
    }
}

impl WorkspaceRoot {
    /// A root at `location`.
    pub fn new(location: &str) -> (r: WorkspaceRoot)
        ensures
            r@ == location@,
    {
        WorkspaceRoot { location: location.to_owned() }
    }

    /// The short name shown for the project: the final segment of the
    /// root's location.
    pub fn display_name(&self) -> (r: Option<String>)
        ensures
            text_of(r) == final_segment(self@),
    {
        last_segment(self.location.as_str())
    }
}

/// The roots that the editor reported, in its order. An editor that has no
/// answer is taken to have no roots.
pub open spec fn reported_locations(answer: Option<Vec<String>>) -> Seq<Seq<char>> {
    match answer {
        Some(paths) => Seq::new(paths@.len(), |i: int| paths@[i]@),
        None => Seq::empty(),
    }
}

/// Turns the editor's answer to the question for its workspace folders
/// into roots, keeping their order, which decides between overlapping roots.
pub fn reported_roots(answer: Option<Vec<String>>) -> (r: Vec<WorkspaceRoot>)
    ensures
        locations(r@) == reported_locations(answer),
{
    let mut roots: Vec<WorkspaceRoot> = Vec::new();
    match &answer {
        Some(paths) => {
            let mut i: usize = 0;
            while i < paths.len()
                invariant
                    i <= paths.len(),
                    roots.len() == i,
                    forall|j: int| 0 <= j < i ==> roots@[j]@ == paths@[j]@,
                decreases paths.len() - i,
            {
                roots.push(WorkspaceRoot { location: paths[i].clone() });
                i = i + 1;
            }
            assert(locations(roots@) =~= reported_locations(answer));
        },
        None => {
            assert(locations(roots@) =~= reported_locations(answer));
        },
    }
    roots
}

/// Resolves `document` against `roots`, taken in the order given: the first
/// root that is a strict ancestor of `document` wins, however specific the
/// roots after it are.
pub fn resolve(document: &str, roots: &Vec<WorkspaceRoot>) -> (r: Resolution)
    ensures
        r@ == resolution(document@, locations(roots@)),
{
    let ghost places = locations(roots@);
    let document_chars = chars_of(document);
    let mut i: usize = 0;
    while i < roots.len()
        invariant
            i <= roots.len(),
            document_chars@ == document@,
            places == locations(roots@),
            forall|j: int| 0 <= j < i ==> relative_to(document@, #[trigger] places[j]) is None,
        decreases roots.len() - i,
    {
        let root_chars = chars_of(roots[i].location.as_str());
        match relative_start(&document_chars, &root_chars) {
            Some(from) => {
                proof {
                    lemma_first_match_wins(document@, places, i as int);
                }
                return Resolution {
                    relative_path: Some(tail_from(document, from)),
                    project: roots[i].display_name(),
                };
            },
            None => {},
        }
        i = i + 1;
    }
    proof {
        lemma_no_match_falls_back(document@, places);
    }
    Resolution { relative_path: last_segment(document), project: None }
}

} // verus!
