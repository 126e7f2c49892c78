//! Expansion of file and directory arguments into replay paths, one item at a
//! time.
//!
//! The file system is asked by the caller. An expander says what to ask next
//! (`request`), takes the answer (`advance`), and hands out at most one item
//! for it. Nothing is asked ahead: the item that an answer gives rise to comes
//! out of the very step that took the answer.

use vstd::prelude::*;
use vstd::string::StringExecFns;

verus! {

/// Why a place in the expansion holds no path.
#[derive(Debug)]
pub enum DiscoveryError {
    /// The argument `path` names nothing: no file and no directory.
    Missing { path: String },
    /// No pattern could be formed for the directory `dir`.
    Pattern { dir: String, position: usize, message: String },
    /// The walk could not read `path`.
    Entry { path: String, message: String },
}

/// One item of an expansion: a path, or why there is none.
pub type Item = Result<String, DiscoveryError>;

/// What the caller is to find out next.
#[derive(Debug)]
pub enum Request {
    /// What `path` names: a regular file, something else, or nothing.
    Probe { path: String },
    /// Whether `pattern` is a valid pattern; if so, its matches are walked.
    OpenGlob { pattern: String },
    /// The next match of the pattern that was opened last.
    NextMatch,
    /// Nothing: the expansion is complete.
    Done,
}

/// What the caller found out.
#[derive(Debug)]
pub enum Answer {
    /// To `Probe`: the path exists, and whether it is a regular file.
    IsFile(bool),
    /// To `Probe`: nothing exists at the path.
    NoSuchPath,
    /// To `OpenGlob`: the pattern is valid.
    GlobOpened,
    /// To `OpenGlob`: the pattern is not valid.
    GlobRefused { position: usize, message: String },
    /// To `NextMatch`: a match, and whether it is an existing regular file.
    Match { path: String, is_file: bool },
    /// To `NextMatch`: the walk could not read `path`.
    MatchFailed { path: String, message: String },
    /// To `NextMatch`: the walk is over.
    NoMoreMatches,
}

/// How far the expansion of one directory has come.
#[derive(Clone, Copy, Debug, PartialEq, Eq, Structural)]
pub enum WalkStage {
    /// The pattern has not been opened yet.
    Opening,
    /// The matches are being walked.
    Walking,
    /// The directory is done.
    Finished,
}

/// A `DiscoveryError` as a mathematical value.
pub enum DiscoveryErrorView {
    Missing { path: Seq<char> },
    Pattern { dir: Seq<char>, position: usize, message: Seq<char> },
    Entry { path: Seq<char>, message: Seq<char> },
}

/// An `Item` as a mathematical value.
pub type ItemView = Result<Seq<char>, DiscoveryErrorView>;

/// A `Request` as a mathematical value.
pub enum RequestView {
    Probe { path: Seq<char> },
    OpenGlob { pattern: Seq<char> },
    NextMatch,
    Done,
}

/// An `Answer` as a mathematical value.
pub enum AnswerView {
    IsFile(bool),
    NoSuchPath,
    GlobOpened,
    GlobRefused { position: usize, message: Seq<char> },
    Match { path: Seq<char>, is_file: bool },
    MatchFailed { path: Seq<char>, message: Seq<char> },
    NoMoreMatches,
}

impl View for DiscoveryError {
    type V = DiscoveryErrorView;

    open spec fn view(&self) -> DiscoveryErrorView {
        match *self {
            DiscoveryError::Missing { path } => DiscoveryErrorView::Missing { path: path@ },
            DiscoveryError::Pattern { dir, position, message } => DiscoveryErrorView::Pattern {
                dir: dir@,
                position,
                message: message@,
            },
            DiscoveryError::Entry { path, message } => DiscoveryErrorView::Entry {
                path: path@,
                message: message@,
            },
        }
    }
}

impl View for Request {
    type V = RequestView;

    open spec fn view(&self) -> RequestView {
        match *self {
            Request::Probe { path } => RequestView::Probe { path: path@ },
            Request::OpenGlob { pattern } => RequestView::OpenGlob { pattern: pattern@ },
            Request::NextMatch => RequestView::NextMatch,
            Request::Done => RequestView::Done,
        }
    }
}

impl View for Answer {
    type V = AnswerView;

    open spec fn view(&self) -> AnswerView {
        match *self {
            Answer::IsFile(is_file) => AnswerView::IsFile(is_file),
            Answer::NoSuchPath => AnswerView::NoSuchPath,
            Answer::GlobOpened => AnswerView::GlobOpened,
            Answer::GlobRefused { position, message } => AnswerView::GlobRefused {
                position,
                message: message@,
            },
            Answer::Match { path, is_file } => AnswerView::Match { path: path@, is_file },
            Answer::MatchFailed { path, message } => AnswerView::MatchFailed {
                path: path@,
                message: message@,
            },
            Answer::NoMoreMatches => AnswerView::NoMoreMatches,
        }
    }
}

/// The message of a `DiscoveryError`.
pub open spec fn discovery_error_message(error: DiscoveryErrorView) -> Seq<char> {
    match error {
        DiscoveryErrorView::Missing { path } => "no file or directory at "@ + path,
        DiscoveryErrorView::Pattern { dir, position, message } => "unable to form glob in "@
            + dir,
        DiscoveryErrorView::Entry { path, message } => "attempting to read `"@ + path
            + "` resulted in an error: "@ + message,
    }
}

impl DiscoveryError {
    /// The message of this error.
    pub fn describe(&self) -> (r: String)
        ensures
            r@ == discovery_error_message(self@),
    {
        match self {
            DiscoveryError::Missing { path } => String::from_str(
                "no file or directory at ",
            ).concat(path.as_str()),
            DiscoveryError::Pattern { dir, position, message } => String::from_str(
                "unable to form glob in ",
            ).concat(dir.as_str()),
            DiscoveryError::Entry { path, message } => String::from_str(
                "attempting to read `",
            ).concat(path.as_str()).concat("` resulted in an error: ").concat(message.as_str()),
        }
    }
}

/// An item that was handed out, or none, as a mathematical value.
pub open spec fn yield_view(item: Option<Item>) -> Option<ItemView> {
    match item {
        None => None,
        Some(Ok(path)) => Some(Ok(path@)),
        Some(Err(error)) => Some(Err(error@)),
    }
}

/// The pattern that matches every file with the replay extension at any depth
/// under `dir`.
pub open spec fn directory_pattern(dir: Seq<char>) -> Seq<char> {
    dir + "/**/*.replay"@
}

/// The expansion of one directory, as a mathematical value.
pub struct DirectoryState {
    pub dir: Seq<char>,
    pub stage: WalkStage,
}

/// What the expansion of a directory asks next.
pub open spec fn walk_request(state: DirectoryState) -> RequestView {
    match state.stage {
        WalkStage::Opening => RequestView::OpenGlob { pattern: directory_pattern(state.dir) },
        WalkStage::Walking => RequestView::NextMatch,
        WalkStage::Finished => RequestView::Done,
    }
}

/// One step of the expansion of a directory: the state after `answer`, and
/// the item that the answer gives rise to, if any.
///
/// A pattern that is refused gives one error and ends the directory. A match
/// that is a regular file is handed out; any other match is passed over. A
/// path that the walk could not read gives an error, and the walk goes on. An
/// answer to another request than the one that is due changes nothing.
pub open spec fn walk_advance(state: DirectoryState, answer: AnswerView) -> (
    DirectoryState,
    Option<ItemView>,
) {
    match (state.stage, answer) {
        (WalkStage::Opening, AnswerView::GlobOpened) => (
            DirectoryState { dir: state.dir, stage: WalkStage::Walking },
            None,
        ),
        (WalkStage::Opening, AnswerView::GlobRefused { position, message }) => (
            DirectoryState { dir: state.dir, stage: WalkStage::Finished },
            Some(Err(DiscoveryErrorView::Pattern { dir: state.dir, position, message })),
        ),
        (WalkStage::Walking, AnswerView::Match { path, is_file }) => (
            state,
            if is_file {
                Some(Ok(path))
            } else {
                None
            },
        ),
        (WalkStage::Walking, AnswerView::MatchFailed { path, message }) => (
            state,
            Some(Err(DiscoveryErrorView::Entry { path, message })),
        ),
        (WalkStage::Walking, AnswerView::NoMoreMatches) => (
            DirectoryState { dir: state.dir, stage: WalkStage::Finished },
            None,
        ),
        _ => (state, None),
    }
}

/// The lazy expansion of one directory into the replay files under it.
#[derive(Debug)]
pub struct DirectoryExpander {
    dir: String,
    stage: WalkStage,
}

impl View for DirectoryExpander {
    type V = DirectoryState;

    closed spec fn view(&self) -> DirectoryState {
        DirectoryState { dir: self.dir@, stage: self.stage }
    }
}

/// Expands a directory argument into a stream of replay files. Nothing is
/// asked of the file system before the first request is answered.
pub fn expand_directory(dir: &str) -> (r: DirectoryExpander)
    ensures
        r@ == (DirectoryState { dir: dir@, stage: WalkStage::Opening }),
{
    DirectoryExpander { dir: dir.to_owned(), stage: WalkStage::Opening }
}

impl DirectoryExpander {
    /// What is to be found out next.
    pub fn request(&self) -> (r: Request)
        ensures
            r@ == walk_request(self@),
    {
        match self.stage {
            WalkStage::Opening => Request::OpenGlob {
                pattern: self.dir.clone().concat("/**/*.replay"),
            },
            WalkStage::Walking => Request::NextMatch,
            WalkStage::Finished => Request::Done,
        }
    }

    /// Whether the directory is done.
    pub fn is_finished(&self) -> (r: bool)
        ensures
            r == (self@.stage == WalkStage::Finished),
    {
        match self.stage {
            WalkStage::Finished => true,
            _ => false,
        }
    }

    /// Takes the answer to the request that is due, and hands out the item
    /// that it gives rise to, if any.
    pub fn advance(&mut self, answer: Answer) -> (r: Option<Item>)
        ensures
            (final(self)@, yield_view(r)) == walk_advance(old(self)@, answer@),
    {
        match (self.stage, answer) {
            (WalkStage::Opening, Answer::GlobOpened) => {
                self.stage = WalkStage::Walking;
                None
            },
            (WalkStage::Opening, Answer::GlobRefused { position, message }) => {
                self.stage = WalkStage::Finished;
                Some(Err(DiscoveryError::Pattern { dir: self.dir.clone(), position, message }))
            },
            (WalkStage::Walking, Answer::Match { path, is_file }) => {
                if is_file {
                    Some(Ok(path))
                } else {
                    None
                }
            },
            (WalkStage::Walking, Answer::MatchFailed { path, message }) => {
                Some(Err(DiscoveryError::Entry { path, message }))
            },
            (WalkStage::Walking, Answer::NoMoreMatches) => {
                self.stage = WalkStage::Finished;
                None
            },
            _ => None,
        }
    }
}

/// The arguments of an expansion as mathematical values.
pub open spec fn paths_view(files: Seq<String>) -> Seq<Seq<char>> {
    Seq::new(files.len(), |i: int| files[i]@)
}

/// The expansion of a list of arguments, as a mathematical value: the
/// arguments, the place of the one that is due, and the state of its walk
/// where it is being expanded as a directory.
pub struct ExpanderState {
    pub files: Seq<Seq<char>>,
    pub cursor: nat,
    pub walk: Option<DirectoryState>,
}

/// What the expansion of a list of arguments asks next: nothing after the
/// last argument; what the argument that is due names; or what the walk of
/// that argument asks.
pub open spec fn expander_request(state: ExpanderState) -> RequestView {
    if state.cursor >= state.files.len() {
        RequestView::Done
    } else {
        match state.walk {
            None => RequestView::Probe { path: state.files[state.cursor as int] },
            Some(walk) => walk_request(walk),
        }
    }
}

/// One step of the expansion of a list of arguments.
///
/// An argument that is a regular file is handed out as it is, and the next
/// argument is due. An argument that names nothing gives one error, which
/// holds the argument, and the next argument is due. Any other argument is
/// expanded as a directory, by `walk_advance`; when that walk is finished the
/// next argument is due. After the last argument, and on an answer to another
/// request than the one that is due, nothing changes.
pub open spec fn expander_advance(state: ExpanderState, answer: AnswerView) -> (
    ExpanderState,
    Option<ItemView>,
) {
    if state.cursor >= state.files.len() {
        (state, None)
    } else {
        match state.walk {
            None => match answer {
                AnswerView::IsFile(true) => (
                    ExpanderState { files: state.files, cursor: state.cursor + 1, walk: None },
                    Some(Ok(state.files[state.cursor as int])),
                ),
                AnswerView::NoSuchPath => (
                    ExpanderState { files: state.files, cursor: state.cursor + 1, walk: None },
                    Some(
                        Err(DiscoveryErrorView::Missing { path: state.files[state.cursor as int] }),
                    ),
                ),
                AnswerView::IsFile(false) => (
                    ExpanderState {
                        files: state.files,
                        cursor: state.cursor,
                        walk: Some(
                            DirectoryState {
                                dir: state.files[state.cursor as int],
                                stage: WalkStage::Opening,
                            },
                        ),
                    },
                    None,
                ),
                _ => (state, None),
            },
            Some(walk) => {
                let (next, item) = walk_advance(walk, answer);
                if next.stage == WalkStage::Finished {
                    (
                        ExpanderState { files: state.files, cursor: state.cursor + 1, walk: None },
                        item,
                    )
                } else {
                    (
                        ExpanderState {
                            files: state.files,
                            cursor: state.cursor,
                            walk: Some(next),
                        },
                        item,
                    )
                }
            },
        }
    }
}

/// The lazy expansion of a list of file and directory arguments into replay
/// paths, in the order of the arguments.
#[derive(Debug)]
pub struct PathExpander {
    files: Vec<String>,
    cursor: usize,
    walk: Option<DirectoryExpander>,
}

impl View for PathExpander {
    type V = ExpanderState;

    closed spec fn view(&self) -> ExpanderState {
        ExpanderState {
            files: paths_view(self.files@),
            cursor: self.cursor as nat,
            walk: match self.walk {
                None => None,
                Some(walk) => Some(walk@),
            },
        }
    }
}

/// Expands a list of file or directory arguments into individual replay
/// paths. Nothing is asked of the file system before the first request is
/// answered.
pub fn expand_paths(files: Vec<String>) -> (r: PathExpander)
    ensures
        r@ == (ExpanderState { files: paths_view(files@), cursor: 0, walk: None }),
{
    PathExpander { files, cursor: 0, walk: None }
}

impl PathExpander {
    /// The place, among the arguments, of the argument that is due: the one
    /// that the next request is about.
    pub fn position(&self) -> (r: usize)
        ensures
            r == self@.cursor,
    {
        self.cursor
    }

    /// What is to be found out next.
    pub fn request(&self) -> (r: Request)
        ensures
            r@ == expander_request(self@),
    {
        if self.cursor >= self.files.len() {
            Request::Done
        } else {
            match &self.walk {
                None => Request::Probe { path: self.files[self.cursor].clone() },
                Some(walk) => walk.request(),
            }
        }
    }

    /// Takes the answer to the request that is due, and hands out the item
    /// that it gives rise to, if any.
    pub fn advance(&mut self, answer: Answer) -> (r: Option<Item>)
        ensures
            (final(self)@, yield_view(r)) == expander_advance(old(self)@, answer@),
    {
        if self.cursor >= self.files.len() {
            return None;
        }
        match &mut self.walk {
            None => match answer {
                Answer::IsFile(true) => {
                    let path = self.files[self.cursor].clone();
                    self.cursor = self.cursor + 1;
                    Some(Ok(path))
                },
                Answer::NoSuchPath => {
                    let path = self.files[self.cursor].clone();
                    self.cursor = self.cursor + 1;
                    Some(Err(DiscoveryError::Missing { path }))
                },
                Answer::IsFile(false) => {
                    self.walk = Some(expand_directory(self.files[self.cursor].as_str()));
                    None
                },
                _ => None,
            },
            Some(walk) => {
                let item = walk.advance(answer);
                if walk.is_finished() {
                    self.walk = None;
                    self.cursor = self.cursor + 1;
                }
                item
            },
        }
    }
}

} // verus!
