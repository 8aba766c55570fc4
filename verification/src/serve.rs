//! Serving one request, step by step.
//!
//! The server never touches the filesystem here. A request becomes a pending
//! step, which says what to ask of the filesystem; the answer gives the next
//! step or the reply. Every path that a step asks to read has been found
//! inside the root beforehand, or is the direct file.

use vstd::prelude::*;
use vstd::string::*;
use crate::listing::{directory_listing, directory_page, DirEntry};
use crate::media::media_of;
use crate::path::{is_component, path_text, CanonicalPath};
use crate::resolve::{is_root_url, relative_part, relative_request, resolution, resolve, view_of};
use crate::respond::{
    file_reply, file_reply_of, html_bytes_reply, html_reply_of, page_reply, page_reply_of,
    read_as_text, Reply, ReplyView,
};
use crate::state::{EntryKind, ServeError, ServingState, ServingView};

verus! {

/// The file that stands for a directory when it is requested.
pub const INDEX_NAME: &'static str = "index.html";

/// What is asked of the filesystem.
#[derive(Debug, Clone, PartialEq, Eq)]
pub enum FsRequest {
    /// The bytes of the file at `path`.
    Read { path: CanonicalPath },
    /// The canonical form of `root`, and that of `relative` joined onto `root`.
    Canonicalize { root: CanonicalPath, relative: String },
    /// The canonical form of `root`, and that of `path`.
    Resolve { root: CanonicalPath, path: CanonicalPath },
    /// What stands at `path`.
    Probe { path: CanonicalPath },
    /// The entries of the directory at `path`.
    List { path: CanonicalPath },
}

/// What the filesystem answered.
#[derive(Debug, Clone, PartialEq, Eq)]
pub enum FsAnswer {
    /// The bytes of the file, or nothing where reading failed.
    Contents { bytes: Option<Vec<u8>> },
    /// The two canonical forms, each absent where there is none.
    Canonical { root: Option<CanonicalPath>, target: Option<CanonicalPath> },
    /// What stands at the path.
    Kind { kind: EntryKind },
    /// The entries of the directory, or nothing where listing failed.
    Entries { entries: Option<Vec<DirEntry>> },
}

/// A request to the filesystem in contracts.
pub enum RequestView {
    Read { path: Seq<Seq<char>> },
    Canonicalize { root: Seq<Seq<char>>, relative: Seq<char> },
    Resolve { root: Seq<Seq<char>>, path: Seq<Seq<char>> },
    Probe { path: Seq<Seq<char>> },
    List { path: Seq<Seq<char>> },
}

/// An answer of the filesystem in contracts.
pub enum AnswerView {
    Contents { bytes: Option<Seq<u8>> },
    Canonical { root: Option<Seq<Seq<char>>>, target: Option<Seq<Seq<char>>> },
    Kind { kind: EntryKind },
    Entries { entries: Option<Seq<DirEntry>> },
}

impl View for FsRequest {
    type V = RequestView;

    open spec fn view(&self) -> RequestView {
        match self {
            FsRequest::Read { path } => RequestView::Read { path: path@ },
            FsRequest::Canonicalize { root, relative } => RequestView::Canonicalize {
                root: root@,
                relative: relative@,
            },
            FsRequest::Resolve { root, path } => RequestView::Resolve { root: root@, path: path@ },
            FsRequest::Probe { path } => RequestView::Probe { path: path@ },
            FsRequest::List { path } => RequestView::List { path: path@ },
        }
    }
}

impl View for FsAnswer {
    type V = AnswerView;

    open spec fn view(&self) -> AnswerView {
        match self {
            FsAnswer::Contents { bytes } => AnswerView::Contents {
                bytes: match bytes {
                    Some(b) => Some(b@),
                    None => None,
                },
            },
            FsAnswer::Canonical { root, target } => AnswerView::Canonical {
                root: view_of(*root),
                target: view_of(*target),
            },
            FsAnswer::Kind { kind } => AnswerView::Kind { kind: *kind },
            FsAnswer::Entries { entries } => AnswerView::Entries {
                entries: match entries {
                    Some(e) => Some(e@),
                    None => None,
                },
            },
        }
    }
}

/// Where the serving of a request stands, in contracts.
pub enum StageView {
    /// The direct file is to be read.
    DirectFile { file: Seq<Seq<char>> },
    /// The request path is to be resolved.
    Resolving { relative: Seq<char> },
    /// What stands at the resolved path is to be found out.
    Classifying { relative: Seq<char>, target: Seq<Seq<char>> },
    /// The resolved file is to be read.
    ReadingFile { target: Seq<Seq<char>> },
    /// Whether the resolved directory holds an index file is to be found out:
    /// `index` is where it would stand.
    CheckingIndex { relative: Seq<char>, directory: Seq<Seq<char>>, index: Seq<Seq<char>> },
    /// Where the index file really lies is to be found out: it may be a link.
    ResolvingIndex { index: Seq<Seq<char>> },
    /// The index file, found inside the root, is to be read.
    ReadingIndex { index: Seq<Seq<char>> },
    /// The resolved directory is to be listed.
    Listing { relative: Seq<char>, directory: Seq<Seq<char>> },
}

/// A pending step in contracts: the root that paths are held to, and the stage.
pub struct PendingView {
    pub root: Seq<Seq<char>>,
    pub stage: StageView,
}

impl PendingView {
    /// The path that the stage works on lies inside the root, or is the direct
    /// file in the root directory.
    pub open spec fn contained(self) -> bool {
        match self.stage {
            StageView::DirectFile { file } => file.len() > 0 && file.drop_last() == self.root,
            StageView::Resolving { relative } => true,
            StageView::Classifying { relative, target } => self.root.is_prefix_of(target),
            StageView::ReadingFile { target } => self.root.is_prefix_of(target),
            StageView::CheckingIndex { relative, directory, index } => self.root.is_prefix_of(
                directory,
            ) && index == directory.push(INDEX_NAME@),
            StageView::ResolvingIndex { index } => self.root.is_prefix_of(index),
            StageView::ReadingIndex { index } => self.root.is_prefix_of(index),
            StageView::Listing { relative, directory } => self.root.is_prefix_of(directory),
        }
    }
}

/// A step in contracts: another pending step, or the end with a reply or an
/// error.
pub enum StepView {
    Next(PendingView),
    Done(Result<ReplyView, ServeError>),
}

/// The first step for a request: in direct-file mode the root URL reads the
/// direct file, every other request is resolved against the root.
pub open spec fn first_step(state: ServingView, request_path: Seq<char>) -> PendingView {
    if state.direct_file is Some && is_root_url(request_path) {
        PendingView { root: state.root, stage: StageView::DirectFile { file: state.direct_file->0 } }
    } else {
        PendingView {
            root: state.root,
            stage: StageView::Resolving { relative: relative_part(request_path) },
        }
    }
}

/// What a pending step asks of the filesystem.
pub open spec fn request_of(pending: PendingView) -> RequestView {
    match pending.stage {
        StageView::DirectFile { file } => RequestView::Read { path: file },
        StageView::Resolving { relative } => RequestView::Canonicalize {
            root: pending.root,
            relative,
        },
        StageView::Classifying { relative, target } => RequestView::Probe { path: target },
        StageView::ReadingFile { target } => RequestView::Read { path: target },
        StageView::CheckingIndex { relative, directory, index } => RequestView::Probe {
            path: index,
        },
        StageView::ResolvingIndex { index } => RequestView::Resolve {
            root: pending.root,
            path: index,
        },
        StageView::ReadingIndex { index } => RequestView::Read { path: index },
        StageView::Listing { relative, directory } => RequestView::List { path: directory },
    }
}

/// The end of a request that read the file at `path`.
pub open spec fn file_end(path: Seq<Seq<char>>, bytes: Option<Seq<u8>>) -> StepView {
    match bytes {
        Some(contents) => StepView::Done(
            Ok(file_reply_of(media_of(path_text(path)), contents, read_as_text(contents))),
        ),
        None => StepView::Done(Err(ServeError::InternalIO)),
    }
}

/// What follows a pending step once the filesystem has answered. A path is
/// read only in its canonical form and only where that lies inside the root:
/// that holds of the requested path and of the index file of a directory
/// alike. An answer of another kind than the one asked for ends the request
/// with an error of the server.
pub open spec fn next_step(pending: PendingView, answer: AnswerView) -> StepView {
    match (pending.stage, answer) {
        (StageView::DirectFile { file }, AnswerView::Contents { bytes }) => file_end(file, bytes),
        (StageView::Resolving { relative }, AnswerView::Canonical { root, target }) => {
            match resolution(root, target) {
                Ok(path) => StepView::Next(
                    PendingView {
                        root: root->0,
                        stage: StageView::Classifying { relative, target: path },
                    },
                ),
                Err(e) => StepView::Done(Err(e)),
            }
        },
        (StageView::Classifying { relative, target }, AnswerView::Kind { kind }) => {
            if kind == EntryKind::File {
                StepView::Next(
                    PendingView { root: pending.root, stage: StageView::ReadingFile { target } },
                )
            } else if kind == EntryKind::Directory {
                StepView::Next(
                    PendingView {
                        root: pending.root,
                        stage: StageView::CheckingIndex {
                            relative,
                            directory: target,
                            index: target.push(INDEX_NAME@),
                        },
                    },
                )
            } else {
                StepView::Done(Err(ServeError::NotFound))
            }
        },
        (StageView::ReadingFile { target }, AnswerView::Contents { bytes }) => file_end(
            target,
            bytes,
        ),
        (StageView::CheckingIndex { relative, directory, index }, AnswerView::Kind { kind }) => {
            if kind == EntryKind::File {
                StepView::Next(
                    PendingView { root: pending.root, stage: StageView::ResolvingIndex { index } },
                )
            } else {
                StepView::Next(
                    PendingView {
                        root: pending.root,
                        stage: StageView::Listing { relative, directory },
                    },
                )
            }
        },
        (StageView::ResolvingIndex { index }, AnswerView::Canonical { root, target }) => {
            match resolution(root, target) {
                Ok(path) => StepView::Next(
                    PendingView { root: root->0, stage: StageView::ReadingIndex { index: path } },
                ),
                Err(e) => StepView::Done(Err(e)),
            }
        },
        (StageView::ReadingIndex { index }, AnswerView::Contents { bytes }) => match bytes {
            Some(contents) => StepView::Done(Ok(html_reply_of(read_as_text(contents)))),
            None => StepView::Done(Err(ServeError::InternalIO)),
        },
        (StageView::Listing { relative, directory }, AnswerView::Entries { entries }) => {
            match entries {
                Some(found) => StepView::Done(Ok(page_reply_of(directory_page(relative, found)))),
                None => StepView::Done(Err(ServeError::InternalIO)),
            }
        },
        _ => StepView::Done(Err(ServeError::InternalIO)),
    }
}

#[derive(Debug, PartialEq, Eq)]
enum Stage {
    DirectFile { file: CanonicalPath },
    Resolving { relative: String },
    Classifying { relative: String, target: CanonicalPath },
    ReadingFile { target: CanonicalPath },
    CheckingIndex { relative: String, directory: CanonicalPath, index: CanonicalPath },
    ResolvingIndex { index: CanonicalPath },
    ReadingIndex { index: CanonicalPath },
    Listing { relative: String, directory: CanonicalPath },
}

impl View for Stage {
    type V = StageView;

    closed spec fn view(&self) -> StageView {
        match self {
            Stage::DirectFile { file } => StageView::DirectFile { file: file@ },
            Stage::Resolving { relative } => StageView::Resolving { relative: relative@ },
            Stage::Classifying { relative, target } => StageView::Classifying {
                relative: relative@,
                target: target@,
            },
            Stage::ReadingFile { target } => StageView::ReadingFile { target: target@ },
            Stage::CheckingIndex { relative, directory, index } => StageView::CheckingIndex {
                relative: relative@,
                directory: directory@,
                index: index@,
            },
            Stage::ResolvingIndex { index } => StageView::ResolvingIndex { index: index@ },
            Stage::ReadingIndex { index } => StageView::ReadingIndex { index: index@ },
            Stage::Listing { relative, directory } => StageView::Listing {
                relative: relative@,
                directory: directory@,
            },
        }
    }
}

/// A step that waits for the filesystem.
#[derive(Debug, PartialEq, Eq)]
pub struct Pending {
    root: CanonicalPath,
    stage: Stage,
}

impl View for Pending {
    type V = PendingView;

    closed spec fn view(&self) -> PendingView {
        PendingView { root: self.root@, stage: self.stage@ }
    }
}

/// A step: another pending step, or the end with a reply or an error.
#[derive(Debug, PartialEq, Eq)]
pub enum ServeStep {
    Next(Pending),
    Done(Result<Reply, ServeError>),
}

impl View for ServeStep {
    type V = StepView;

    open spec fn view(&self) -> StepView {
        match self {
            ServeStep::Next(pending) => StepView::Next(pending@),
            ServeStep::Done(Ok(reply)) => StepView::Done(Ok(reply@)),
            ServeStep::Done(Err(e)) => StepView::Done(Err(*e)),
        }
    }
}

/// The name of the index file is a component.
pub proof fn lemma_index_name_is_component()
    ensures
        is_component(INDEX_NAME@),
{
    reveal_strlit("index.html");
    let name = INDEX_NAME@;
    assert(name.len() == 10);
}

/// The end of a request that read the file at `path`.
fn end_with_file(path: &CanonicalPath, bytes: Option<Vec<u8>>) -> (step: ServeStep)
    ensures
        step@ == file_end(
            path@,
            match bytes {
                Some(b) => Some(b@),
                None => None,
            },
        ),
{
    match bytes {
        Some(contents) => {
            let shown = path.to_path_string();
            ServeStep::Done(Ok(file_reply(shown.as_str(), contents)))
        },
        None => ServeStep::Done(Err(ServeError::InternalIO)),
    }
}

impl Pending {
    #[verifier::type_invariant]
    closed spec fn well_formed(&self) -> bool {
        self@.contained()
    }

    /// Checks nothing and changes nothing: it states that the path that the
    /// step works on lies inside the root, or is the direct file.
    pub fn containment_holds(&self)
        ensures
            self@.contained(),
    {
        proof {
            use_type_invariant(self);
        }
    }

    /// The first step for a request.
    pub fn begin(state: &ServingState, request_path: &str) -> (pending: Pending)
        ensures
            pending@ == first_step(state@, request_path@),
    {
        proof {
            reveal_strlit("/");
        }
        state.consistency_holds();
        let root = state.get_root();
        let for_root = String::from_str(request_path) == String::from_str("/");
        assert(for_root == is_root_url(request_path@)) by {
            assert("/"@ =~= seq!['/']);
        }
        match state.get_direct_file() {
            Some(file) => {
                if for_root {
                    return Pending { root, stage: Stage::DirectFile { file } };
                }
            },
            None => {},
        }
        Pending { root, stage: Stage::Resolving { relative: relative_request(request_path) } }
    }

    /// What the step asks of the filesystem.
    pub fn request(&self) -> (asked: FsRequest)
        ensures
            asked@ == request_of(self@),
    {
        proof {
            use_type_invariant(self);
        }
        match &self.stage {
            Stage::DirectFile { file } => FsRequest::Read { path: file.duplicate() },
            Stage::Resolving { relative } => FsRequest::Canonicalize {
                root: self.root.duplicate(),
                relative: relative.clone(),
            },
            Stage::Classifying { relative, target } => FsRequest::Probe {
                path: target.duplicate(),
            },
            Stage::ReadingFile { target } => FsRequest::Read { path: target.duplicate() },
            Stage::CheckingIndex { relative, directory, index } => FsRequest::Probe {
                path: index.duplicate(),
            },
            Stage::ResolvingIndex { index } => FsRequest::Resolve {
                root: self.root.duplicate(),
                path: index.duplicate(),
            },
            Stage::ReadingIndex { index } => FsRequest::Read { path: index.duplicate() },
            Stage::Listing { relative, directory } => FsRequest::List {
                path: directory.duplicate(),
            },
        }
    }

    /// What follows once the filesystem has answered.
    pub fn advance(self, answer: FsAnswer) -> (step: ServeStep)
        ensures
            step@ == next_step(self@, answer@),
    {
        proof {
            use_type_invariant(&self);
            lemma_index_name_is_component();
        }
        let root = self.root;
        match (self.stage, answer) {
            (Stage::DirectFile { file }, FsAnswer::Contents { bytes }) => end_with_file(
                &file,
                bytes,
            ),
            (Stage::Resolving { relative }, FsAnswer::Canonical { root: base, target }) => {
                match resolve(&base, &target) {
                    Ok(path) => match base {
                        Some(found) => ServeStep::Next(
                            Pending {
                                root: found,
                                stage: Stage::Classifying { relative, target: path },
                            },
                        ),
                        None => ServeStep::Done(Err(ServeError::InternalIO)),
                    },
                    Err(e) => ServeStep::Done(Err(e)),
                }
            },
            (Stage::Classifying { relative, target }, FsAnswer::Kind { kind }) => {
                if kind == EntryKind::File {
                    ServeStep::Next(Pending { root, stage: Stage::ReadingFile { target } })
                } else if kind == EntryKind::Directory {
                    match target.child(INDEX_NAME) {
                        Some(index) => ServeStep::Next(
                            Pending {
                                root,
                                stage: Stage::CheckingIndex { relative, directory: target, index },
                            },
                        ),
                        None => ServeStep::Done(Err(ServeError::NotFound)),
                    }
                } else {
                    ServeStep::Done(Err(ServeError::NotFound))
                }
            },
            (Stage::ReadingFile { target }, FsAnswer::Contents { bytes }) => end_with_file(
                &target,
                bytes,
            ),
            (Stage::CheckingIndex { relative, directory, index }, FsAnswer::Kind { kind }) => {
                if kind == EntryKind::File {
                    proof {
                        lemma_prefix_of_longer(root@, directory@, INDEX_NAME@);
                    }
                    ServeStep::Next(Pending { root, stage: Stage::ResolvingIndex { index } })
                } else {
                    ServeStep::Next(Pending { root, stage: Stage::Listing { relative, directory } })
                }
            },
            (Stage::ResolvingIndex { index }, FsAnswer::Canonical { root: base, target }) => {
                match resolve(&base, &target) {
                    Ok(path) => match base {
                        Some(found) => ServeStep::Next(
                            Pending { root: found, stage: Stage::ReadingIndex { index: path } },
                        ),
                        None => ServeStep::Done(Err(ServeError::InternalIO)),
                    },
                    Err(e) => ServeStep::Done(Err(e)),
                }
            },
            (Stage::ReadingIndex { index }, FsAnswer::Contents { bytes }) => match bytes {
                Some(contents) => ServeStep::Done(Ok(html_bytes_reply(&contents))),
                None => ServeStep::Done(Err(ServeError::InternalIO)),
            },
            (Stage::Listing { relative, directory }, FsAnswer::Entries { entries }) => {
                match entries {
                    Some(found) => ServeStep::Done(
                        Ok(page_reply(directory_listing(relative.as_str(), &found))),
                    ),
                    None => ServeStep::Done(Err(ServeError::InternalIO)),
                }
            },
            _ => ServeStep::Done(Err(ServeError::InternalIO)),
        }
    }
}

/// What lies inside the root still does with one more component behind it.
pub proof fn lemma_prefix_of_longer(root: Seq<Seq<char>>, path: Seq<Seq<char>>, name: Seq<char>)
    requires
        root.is_prefix_of(path),
    ensures
        root.is_prefix_of(path.push(name)),
{
}

/// A direct file lies inside the root.
pub proof fn lemma_direct_file_inside(root: Seq<Seq<char>>, file: Seq<Seq<char>>)
    requires
        file.len() > 0,
        file.drop_last() == root,
    ensures
        root.is_prefix_of(file),
{
}

/// The first step of every request works inside the root, and so does every
/// step that follows one that did.
pub proof fn law_steps_stay_inside(
    state: ServingView,
    request_path: Seq<char>,
    pending: PendingView,
    answer: AnswerView,
)
    requires
        state.consistent(),
        pending.contained(),
    ensures
        first_step(state, request_path).contained(),
        match next_step(pending, answer) {
            StepView::Next(following) => following.contained(),
            StepView::Done(_) => true,
        },
{
    match (pending.stage, answer) {
        (StageView::CheckingIndex { relative, directory, index }, AnswerView::Kind { kind }) => {
            lemma_prefix_of_longer(pending.root, directory, INDEX_NAME@);
        },
        _ => {},
    }
}

/// A step that works inside the root asks the filesystem to read, probe,
/// resolve or list only what lies inside the root.
pub proof fn law_requests_stay_inside(pending: PendingView)
    requires
        pending.contained(),
    ensures
        match request_of(pending) {
            RequestView::Read { path } => pending.root.is_prefix_of(path),
            RequestView::Probe { path } => pending.root.is_prefix_of(path),
            RequestView::List { path } => pending.root.is_prefix_of(path),
            RequestView::Canonicalize { root, relative } => root == pending.root,
            RequestView::Resolve { root, path } => root == pending.root && root.is_prefix_of(path),
        },
{
    match pending.stage {
        StageView::DirectFile { file } => {
            lemma_direct_file_inside(pending.root, file);
        },
        StageView::CheckingIndex { relative, directory, index } => {
            lemma_prefix_of_longer(pending.root, directory, INDEX_NAME@);
        },
        _ => {},
    }
}

/// A file is read where its canonical form was found: the step that reads the
/// index file of a directory follows an answer that gave the canonical form of
/// the index file and of the root, the one inside the other, and so does the
/// step that finds out what stands at a requested path, which the step that
/// reads a requested file follows with the same path and root.
pub proof fn law_files_are_read_where_they_resolve(pending: PendingView, answer: AnswerView)
    ensures
        match next_step(pending, answer) {
            StepView::Next(following) => match following.stage {
                StageView::ReadingIndex { index } => {
                    &&& pending.stage is ResolvingIndex
                    &&& answer is Canonical
                    &&& answer->Canonical_root == Some(following.root)
                    &&& answer->Canonical_target == Some(index)
                    &&& following.root.is_prefix_of(index)
                },
                StageView::Classifying { relative, target } => {
                    &&& pending.stage is Resolving
                    &&& answer is Canonical
                    &&& answer->Canonical_root == Some(following.root)
                    &&& answer->Canonical_target == Some(target)
                    &&& following.root.is_prefix_of(target)
                },
                StageView::ReadingFile { target } => {
                    &&& pending.stage is Classifying
                    &&& pending.stage->Classifying_target == target
                    &&& following.root == pending.root
                },
                _ => true,
            },
            StepView::Done(_) => true,
        },
{
}

/// An index file that is a link out of the root is not read: where its
/// canonical form lies outside the root the request is forbidden, and where it
/// has none the request misses.
pub proof fn law_index_link_gets_no_content(
    base: Seq<Seq<char>>,
    index: Seq<Seq<char>>,
    root: Seq<Seq<char>>,
    target: Option<Seq<Seq<char>>>,
)
    requires
        target is Some ==> !root.is_prefix_of(target->0),
    ensures
        next_step(
            PendingView { root: base, stage: StageView::ResolvingIndex { index } },
            AnswerView::Canonical { root: Some(root), target },
        ) == StepView::Done(
            Err(
                if target is Some {
                    ServeError::Forbidden
                } else {
                    ServeError::NotFound
                },
            ),
        ),
{
}

/// A request whose path resolves to something outside the root, or to nothing,
/// ends at once, forbidden or missing: no step follows and no content is sent.
pub proof fn law_escape_gets_no_content(
    base: Seq<Seq<char>>,
    relative: Seq<char>,
    root: Seq<Seq<char>>,
    target: Option<Seq<Seq<char>>>,
)
    requires
        target is Some ==> !root.is_prefix_of(target->0),
    ensures
        next_step(
            PendingView { root: base, stage: StageView::Resolving { relative } },
            AnswerView::Canonical { root: Some(root), target },
        ) == StepView::Done(
            Err(
                if target is Some {
                    ServeError::Forbidden
                } else {
                    ServeError::NotFound
                },
            ),
        ),
{
}

} // verus!
