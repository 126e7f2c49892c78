//! The state of an interactive viewer: the replay that was opened last, its
//! text, and the last error or status to show.
//!
//! The viewer owns no window and no file. Its caller shows the state, reads
//! and writes files, and reports here what came of it.

use crate::decoder::MAX_INPUT_LEN;
use crate::parser::{loaded_view, parse_file_outcome, parse_outcome, replay_error_message};
use crate::parser::{DecodeConfig, ReplayParser};
use crate::render::{render, rendered};
use boxcars::Replay;
use vstd::prelude::*;
use vstd::string::StringExecFns;

verus! {

/// Why opening a replay gave no text.
#[derive(Debug)]
pub enum LoadFailure {
    /// The file could not be read or decoded.
    Parse { message: String },
    /// The replay was decoded, and could not be written as text.
    Render { detail: String },
}

/// The text of a replay that was opened, or why there is none, as a
/// mathematical value.
pub enum LoadResult {
    Text(Seq<char>),
    ParseFailed { message: Seq<char> },
    RenderFailed { detail: Seq<char> },
}

/// The result of a load that `outcome` reports.
pub open spec fn load_result(outcome: Result<String, LoadFailure>) -> LoadResult {
    match outcome {
        Ok(json) => LoadResult::Text(json@),
        Err(LoadFailure::Parse { message }) => LoadResult::ParseFailed { message: message@ },
        Err(LoadFailure::Render { detail }) => LoadResult::RenderFailed { detail: detail@ },
    }
}

/// The state of a viewer, as a mathematical value.
pub struct ViewerState {
    pub config: DecodeConfig,
    pub last_path: Option<Seq<char>>,
    pub last_json: Option<Seq<char>>,
    pub last_error: Option<Seq<char>>,
    pub last_status: Option<Seq<char>>,
}

/// An optional text as a mathematical value.
pub open spec fn text_view(text: Option<String>) -> Option<Seq<char>> {
    match text {
        None => None,
        Some(text) => Some(text@),
    }
}

/// The state after the replay at `path` was opened with `result`. The path
/// is remembered whatever came of it, and an earlier status is dropped. A
/// text replaces the earlier text and clears the error. A failure sets the
/// error and leaves the text as it was: the error is shown beside the replay
/// that was last opened with success, if there is one.
pub open spec fn after_load(state: ViewerState, path: Seq<char>, result: LoadResult) -> ViewerState {
    match result {
        LoadResult::Text(json) => ViewerState {
            config: state.config,
            last_path: Some(path),
            last_json: Some(json),
            last_error: None,
            last_status: None,
        },
        LoadResult::ParseFailed { message } => ViewerState {
            config: state.config,
            last_path: Some(path),
            last_json: state.last_json,
            last_error: Some(message),
            last_status: None,
        },
        LoadResult::RenderFailed { detail } => ViewerState {
            config: state.config,
            last_path: Some(path),
            last_json: state.last_json,
            last_error: Some("Failed to serialize replay: "@ + detail),
            last_status: None,
        },
    }
}

/// What loading the file at `path` under `config` comes to, once its bytes
/// were had or not: the text of the replay that `parse_file` gives, or the
/// message of its error.
pub open spec fn load_of(
    config: DecodeConfig,
    path: Seq<char>,
    loaded: Result<Seq<u8>, Seq<char>>,
) -> LoadResult {
    match parse_file_outcome(config, path, loaded) {
        Err(error) => LoadResult::ParseFailed { message: replay_error_message(error) },
        Ok(replay) => match rendered(replay) {
            Ok(json) => LoadResult::Text(json),
            Err(detail) => LoadResult::RenderFailed { detail },
        },
    }
}

/// The state after an attempt to save the text to `save_path`. Where there
/// is no text, nothing was to be saved and nothing changes. A save that was
/// done sets the status and clears the error; one that failed sets the error
/// and clears the status. The text stays as it is.
pub open spec fn after_save(
    state: ViewerState,
    save_path: Seq<char>,
    written: Result<(), Seq<char>>,
) -> ViewerState {
    if state.last_json is None {
        state
    } else {
        match written {
            Ok(_) => ViewerState {
                config: state.config,
                last_path: state.last_path,
                last_json: state.last_json,
                last_error: None,
                last_status: Some("Saved replay JSON to "@ + save_path),
            },
            Err(message) => ViewerState {
                config: state.config,
                last_path: state.last_path,
                last_json: state.last_json,
                last_error: Some("Failed to save JSON to "@ + save_path + ": "@ + message),
                last_status: None,
            },
        }
    }
}

/// The name under which the text of a replay is saved by default: the stem
/// of the replay's file name, with the extension of JSON.
pub open spec fn json_file_name(stem: Seq<char>) -> Seq<char> {
    stem + ".json"@
}

/// The name under which the text of the replay with the file stem `stem` is
/// saved by default.
pub fn save_file_name(stem: &str) -> (r: String)
    ensures
        r@ == json_file_name(stem@),
{
    String::from_str(stem).concat(".json")
}

/// An interactive viewer of replays.
#[derive(Debug)]
pub struct ReplayViewer {
    parser: ReplayParser,
    last_path: Option<String>,
    last_json: Option<String>,
    last_error: Option<String>,
    last_status: Option<String>,
}

impl View for ReplayViewer {
    type V = ViewerState;

    closed spec fn view(&self) -> ViewerState {
        ViewerState {
            config: self.parser@,
            last_path: text_view(self.last_path),
            last_json: text_view(self.last_json),
            last_error: text_view(self.last_error),
            last_status: text_view(self.last_status),
        }
    }
}

impl ReplayViewer {
    /// A viewer with the default configuration, that has opened nothing yet.
    pub fn new() -> (r: Self)
        ensures
            r@ == (ViewerState {
                config: DecodeConfig { force_crc: false, parse_network: false },
                last_path: None,
                last_json: None,
                last_error: None,
                last_status: None,
            }),
    {
        ReplayViewer {
            parser: ReplayParser::new(),
            last_path: None,
            last_json: None,
            last_error: None,
            last_status: None,
        }
    }

    /// The parser that replays are opened with.
    pub fn parser(&self) -> (r: &ReplayParser)
        ensures
            r@ == self@.config,
    {
        &self.parser
    }

    /// The path of the replay that was opened last.
    pub fn last_path(&self) -> (r: &Option<String>)
        ensures
            text_view(*r) == self@.last_path,
    {
        &self.last_path
    }

    /// The text of the replay that was opened last.
    pub fn last_json(&self) -> (r: &Option<String>)
        ensures
            text_view(*r) == self@.last_json,
    {
        &self.last_json
    }

    /// The error to show.
    pub fn last_error(&self) -> (r: &Option<String>)
        ensures
            text_view(*r) == self@.last_error,
    {
        &self.last_error
    }

    /// The status to show.
    pub fn last_status(&self) -> (r: &Option<String>)
        ensures
            text_view(*r) == self@.last_status,
    {
        &self.last_status
    }

    /// Sets whether checksum validation is forced. What is shown stays as it
    /// is until the replay is opened again.
    pub fn set_crc_check(&mut self, crc_check: bool)
        ensures
            final(self)@ == (ViewerState {
                config: DecodeConfig {
                    force_crc: crc_check,
                    parse_network: old(self)@.config.parse_network,
                },
                ..old(self)@
            }),
    {
        self.parser.set_crc_check(crc_check);
    }

    /// Sets whether the network data is decoded. What is shown stays as it is
    /// until the replay is opened again.
    pub fn set_network_parse(&mut self, network_parse: bool)
        ensures
            final(self)@ == (ViewerState {
                config: DecodeConfig {
                    force_crc: old(self)@.config.force_crc,
                    parse_network: network_parse,
                },
                ..old(self)@
            }),
    {
        self.parser.set_network_parse(network_parse);
    }

    /// Records what came of opening the replay at `path`.
    pub fn record_load(&mut self, path: String, outcome: Result<String, LoadFailure>)
        ensures
            final(self)@ == after_load(old(self)@, path@, load_result(outcome)),
    {
        self.last_path = Some(path);
        self.last_status = None;
        match outcome {
            Ok(json) => {
                self.last_json = Some(json);
                self.last_error = None;
            },
            Err(LoadFailure::Parse { message }) => {
                self.last_error = Some(message);
            },
            Err(LoadFailure::Render { detail }) => {
                self.last_error = Some(
                    String::from_str("Failed to serialize replay: ").concat(detail.as_str()),
                );
            },
        }
    }

    /// Opens the replay at `path`, given its bytes as the file system gave
    /// them, or the reason why it gave none: decodes it under the current
    /// configuration, writes it as text, and records what came of it.
    pub fn load_path(&mut self, path: String, loaded: Result<&[u8], String>)
        requires
            loaded matches Ok(bytes) ==> bytes@.len() <= MAX_INPUT_LEN,
        ensures
            final(self)@ == after_load(
                old(self)@,
                path@,
                load_of(old(self)@.config, path@, loaded_view(loaded)),
            ),
    {
        let outcome = match self.parser.parse_file(path.as_str(), loaded) {
            Err(error) => Err(LoadFailure::Parse { message: error.describe() }),
            Ok(replay) => match render(&replay) {
                Ok(json) => Ok(json),
                Err(detail) => Err(LoadFailure::Render { detail }),
            },
        };
        self.record_load(path, outcome);
    }

    /// Opens the replay that was opened last once more, under the current
    /// configuration, given its bytes as the file system gave them now.
    /// Where no replay was opened yet, nothing changes.
    pub fn reparse_last(&mut self, loaded: Result<&[u8], String>)
        requires
            loaded matches Ok(bytes) ==> bytes@.len() <= MAX_INPUT_LEN,
        ensures
            final(self)@ == match old(self)@.last_path {
                None => old(self)@,
                Some(path) => after_load(
                    old(self)@,
                    path,
                    load_of(old(self)@.config, path, loaded_view(loaded)),
                ),
            },
    {
        let last = match &self.last_path {
            None => None,
            Some(path) => Some(path.clone()),
        };
        if let Some(path) = last {
            self.load_path(path, loaded);
        }
    }

    /// Records what came of saving the text to `save_path`.
    pub fn save_json(&mut self, save_path: &str, written: Result<(), String>)
        ensures
            final(self)@ == after_save(
                old(self)@,
                save_path@,
                match written {
                    Ok(_) => Ok(()),
                    Err(message) => Err(message@),
                },
            ),
    {
        if self.last_json.is_none() {
            return ;
        }
        match written {
            Ok(_) => {
                self.last_status = Some(
                    String::from_str("Saved replay JSON to ").concat(save_path),
                );
                self.last_error = None;
            },
            Err(message) => {
                self.last_error = Some(
                    String::from_str("Failed to save JSON to ").concat(save_path).concat(
                        ": ",
                    ).concat(message.as_str()),
                );
                self.last_status = None;
            },
        }
    }
}

/// The text that is shown for a replay is the text that was written for it,
/// whole: where the bytes of a file decode to `replay` and `replay` is written
/// as `json`, a load of that file shows `json`, and no error.
pub proof fn lemma_shown_text_is_the_rendering(
    state: ViewerState,
    path: Seq<char>,
    bytes: Seq<u8>,
    replay: Replay,
    json: Seq<char>,
)
    requires
        parse_outcome(state.config, bytes) == Ok::<Replay, boxcars::ParseError>(replay),
        rendered(replay) == Ok::<Seq<char>, Seq<char>>(json),
    ensures
        after_load(state, path, load_of(state.config, path, Ok(bytes))).last_json == Some(json),
        after_load(state, path, load_of(state.config, path, Ok(bytes))).last_error
            == None::<Seq<char>>,
{
}

/// A load that fails shows its error beside the text of the replay that was
/// last opened with success: the text stays as it was, whether the file could
/// not be read, the bytes did not decode, or the replay could not be written.
pub proof fn lemma_failed_load_keeps_the_text(
    state: ViewerState,
    path: Seq<char>,
    loaded: Result<Seq<u8>, Seq<char>>,
)
    requires
        !(load_of(state.config, path, loaded) is Text),
    ensures
        after_load(state, path, load_of(state.config, path, loaded)).last_json == state.last_json,
        after_load(state, path, load_of(state.config, path, loaded)).last_error is Some,
        load_of(state.config, path, loaded) matches LoadResult::ParseFailed { message }
            ==> after_load(state, path, load_of(state.config, path, loaded)).last_error == Some(
            message,
        ),
{
}

/// Loading is determined by the configuration and the bytes: a replay that is
/// opened again under the same configuration, from the same bytes, shows what
/// it showed before.
pub proof fn lemma_reload_is_idempotent(
    state: ViewerState,
    path: Seq<char>,
    loaded: Result<Seq<u8>, Seq<char>>,
)
    ensures
        ({
            let once = after_load(state, path, load_of(state.config, path, loaded));
            after_load(once, path, load_of(once.config, path, loaded)) == once
        }),
{
}

} // verus!
