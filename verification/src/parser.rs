//! The decode facade: two switches, and the decoding of bytes under them.

use crate::decoder::{decode, decoded, error_message, error_text};
use crate::decoder::{CrcPolicy, NetworkPolicy, MAX_INPUT_LEN};
use crate::io_strategy::{lemma_map_and_read_end_alike, run_load};
use crate::io_strategy::{LoadActionView, LoadEventView, LoadStage};
use boxcars::{ParseError, Replay};
use vstd::prelude::*;

verus! {

/// The two switches of a decode, as a mathematical value. They are
/// independent: each of the four combinations is a valid configuration.
pub struct DecodeConfig {
    /// Verify checksums always, not only after a section failed to decode.
    pub force_crc: bool,
    /// Decode the network (frame) data as well, not only header and footer.
    pub parse_network: bool,
}

/// The checksum policy that stands for the switch `force_crc`.
pub open spec fn crc_policy_for(force_crc: bool) -> CrcPolicy {
    if force_crc {
        CrcPolicy::Always
    } else {
        CrcPolicy::OnError
    }
}

/// The network policy that stands for the switch `parse_network`.
pub open spec fn network_policy_for(parse_network: bool) -> NetworkPolicy {
    if parse_network {
        NetworkPolicy::Always
    } else {
        NetworkPolicy::Never
    }
}

/// What decoding `data` under `config` gives: the decoder's result under the
/// two policies that stand for the switches.
pub open spec fn parse_outcome(config: DecodeConfig, data: Seq<u8>) -> Result<Replay, ParseError> {
    decoded(data, crc_policy_for(config.force_crc), network_policy_for(config.parse_network))
}

/// Why a replay could not be had from a file.
#[derive(Debug)]
pub enum ReplayError {
    /// The file could not be opened or read.
    Io { path: String, message: String },
    /// The decoder rejected the bytes: its error, as it gave it.
    Decode(ParseError),
}

/// A `ReplayError` as a mathematical value.
pub enum ReplayErrorView {
    Io { path: Seq<char>, message: Seq<char> },
    Decode(ParseError),
}

impl View for ReplayError {
    type V = ReplayErrorView;

    open spec fn view(&self) -> ReplayErrorView {
        match *self {
            ReplayError::Io { path, message } => ReplayErrorView::Io {
                path: path@,
                message: message@,
            },
            ReplayError::Decode(error) => ReplayErrorView::Decode(error),
        }
    }
}

/// The message of a `ReplayError`: what the file system reported, or the
/// decoder's own message.
pub open spec fn replay_error_message(error: ReplayErrorView) -> Seq<char> {
    match error {
        ReplayErrorView::Io { path, message } => message,
        ReplayErrorView::Decode(error) => error_message(error),
    }
}

impl ReplayError {
    /// The message of this error.
    pub fn describe(&self) -> (r: String)
        ensures
            r@ == replay_error_message(self@),
    {
        match self {
            ReplayError::Io { path, message } => message.clone(),
            ReplayError::Decode(error) => error_text(error),
        }
    }
}

/// Replay data paired with the path it came from.
#[derive(Debug)]
pub struct ParsedReplay {
    pub path: String,
    pub replay: Replay,
}

/// The bytes of a file, or why they could not be had, as a mathematical value.
pub open spec fn loaded_view(loaded: Result<&[u8], String>) -> Result<Seq<u8>, Seq<char>> {
    match loaded {
        Ok(bytes) => Ok(bytes@),
        Err(message) => Err(message@),
    }
}

/// What parsing the file at `path` gives, once its bytes were had or not: an
/// I/O failure carries the path; bytes are decoded under `config`, and the
/// decoder's error is kept as it is.
pub open spec fn parse_file_outcome(
    config: DecodeConfig,
    path: Seq<char>,
    loaded: Result<Seq<u8>, Seq<char>>,
) -> Result<Replay, ReplayErrorView> {
    match loaded {
        Err(message) => Err(ReplayErrorView::Io { path, message }),
        Ok(bytes) => match parse_outcome(config, bytes) {
            Ok(replay) => Ok(replay),
            Err(error) => Err(ReplayErrorView::Decode(error)),
        },
    }
}

/// Configurable parser that decodes Rocket League replays.
#[derive(Debug)]
pub struct ReplayParser {
    crc_check: bool,
    network_parse: bool,
}

impl View for ReplayParser {
    type V = DecodeConfig;

    closed spec fn view(&self) -> DecodeConfig {
        DecodeConfig { force_crc: self.crc_check, parse_network: self.network_parse }
    }
}

impl Clone for ReplayParser {
    fn clone(&self) -> (r: Self)
        ensures
            r@ == self@,
    {
        ReplayParser { crc_check: self.crc_check, network_parse: self.network_parse }
    }
}

impl Default for ReplayParser {
    fn default() -> (r: Self)
        ensures
            r@ == (DecodeConfig { force_crc: false, parse_network: false }),
    {
        ReplayParser { crc_check: false, network_parse: false }
    }
}

impl ReplayParser {
    /// Creates a parser with default options: checksums are verified only
    /// after a failure, and the network data is skipped.
    pub fn new() -> (r: Self)
        ensures
            r@ == (DecodeConfig { force_crc: false, parse_network: false }),
    {
        ReplayParser { crc_check: false, network_parse: false }
    }

    /// Enables or disables forced checksum validation.
    pub fn with_crc_check(self, crc_check: bool) -> (r: Self)
        ensures
            r@ == (DecodeConfig { force_crc: crc_check, parse_network: self@.parse_network }),
    {
        ReplayParser { crc_check, network_parse: self.network_parse }
    }

    /// Enables or disables decoding of the network data.
    pub fn with_network_parse(self, network_parse: bool) -> (r: Self)
        ensures
            r@ == (DecodeConfig { force_crc: self@.force_crc, parse_network: network_parse }),
    {
        ReplayParser { crc_check: self.crc_check, network_parse }
    }

    /// Whether checksum validation is forced.
    pub fn crc_check(&self) -> (r: bool)
        ensures
            r == self@.force_crc,
    {
        self.crc_check
    }

    /// Whether the network data is decoded.
    pub fn network_parse(&self) -> (r: bool)
        ensures
            r == self@.parse_network,
    {
        self.network_parse
    }

    /// Sets whether checksum validation is forced.
    pub fn set_crc_check(&mut self, crc_check: bool)
        ensures
            final(self)@ == (DecodeConfig {
                force_crc: crc_check,
                parse_network: old(self)@.parse_network,
            }),
    {
        self.crc_check = crc_check;
    }

    /// Sets whether the network data is decoded.
    pub fn set_network_parse(&mut self, network_parse: bool)
        ensures
            final(self)@ == (DecodeConfig {
                force_crc: old(self)@.force_crc,
                parse_network: network_parse,
            }),
    {
        self.network_parse = network_parse;
    }

    /// The checksum policy that this parser hands to the decoder.
    pub fn crc_policy(&self) -> (r: CrcPolicy)
        ensures
            r == crc_policy_for(self@.force_crc),
    {
        if self.crc_check {
            CrcPolicy::Always
        } else {
            CrcPolicy::OnError
        }
    }

    /// The network policy that this parser hands to the decoder.
    pub fn network_policy(&self) -> (r: NetworkPolicy)
        ensures
            r == network_policy_for(self@.parse_network),
    {
        if self.network_parse {
            NetworkPolicy::Always
        } else {
            NetworkPolicy::Never
        }
    }

    /// Decodes replay bytes under the configured options.
    pub fn parse_bytes(&self, data: &[u8]) -> (r: Result<Replay, ParseError>)
        requires
            data@.len() <= MAX_INPUT_LEN,
        ensures
            r == parse_outcome(self@, data@),
    {
        decode(data, self.crc_policy(), self.network_policy())
    }

    /// Parses the replay file at `path`, given its bytes as the file system
    /// gave them, or the reason why it gave none.
    pub fn parse_file(&self, path: &str, loaded: Result<&[u8], String>) -> (r: Result<
        Replay,
        ReplayError,
    >)
        requires
            loaded matches Ok(bytes) ==> bytes@.len() <= MAX_INPUT_LEN,
        ensures
            match parse_file_outcome(self@, path@, loaded_view(loaded)) {
                Ok(replay) => r == Ok::<Replay, ReplayError>(replay),
                Err(error) => r matches Err(e) && e@ == error,
            },
    {
        match loaded {
            Err(message) => Err(ReplayError::Io { path: path.to_owned(), message }),
            Ok(bytes) => match self.parse_bytes(bytes) {
                Ok(replay) => Ok(replay),
                Err(error) => Err(ReplayError::Decode(error)),
            },
        }
    }

    /// Parses the replay file at `path` as `parse_file` does, and returns the
    /// replay alongside the path.
    pub fn parse_path(&self, path: String, loaded: Result<&[u8], String>) -> (r: Result<
        ParsedReplay,
        ReplayError,
    >)
        requires
            loaded matches Ok(bytes) ==> bytes@.len() <= MAX_INPUT_LEN,
        ensures
            match parse_file_outcome(self@, path@, loaded_view(loaded)) {
                Ok(replay) => r matches Ok(parsed) && parsed.path == path && parsed.replay
                    == replay,
                Err(error) => r matches Err(e) && e@ == error,
            },
    {
        match self.parse_file(path.as_str(), loaded) {
            Ok(replay) => Ok(ParsedReplay { path, replay }),
            Err(error) => Err(error),
        }
    }
}

/// Decoding is determined by the bytes and the configuration: the same bytes
/// under the same configuration give the same replay, or the same error.
pub proof fn lemma_parse_bytes_deterministic(
    config_a: DecodeConfig,
    data_a: Seq<u8>,
    config_b: DecodeConfig,
    data_b: Seq<u8>,
)
    requires
        config_a == config_b,
        data_a =~= data_b,
    ensures
        parse_outcome(config_a, data_a) == parse_outcome(config_b, data_b),
{
}

/// The decoder is handed the policies that stand for the switches, and no
/// other: checksums are verified always where `force_crc` is set and only
/// after a failure where it is not; frames are decoded where `parse_network`
/// is set and skipped where it is not.
pub proof fn lemma_policies_follow_switches(config: DecodeConfig, data: Seq<u8>)
    ensures
        parse_outcome(config, data) == decoded(
            data,
            if config.force_crc {
                CrcPolicy::Always
            } else {
                CrcPolicy::OnError
            },
            if config.parse_network {
                NetworkPolicy::Always
            } else {
                NetworkPolicy::Never
            },
        ),
        crc_policy_for(config.force_crc) != CrcPolicy::Never,
        network_policy_for(config.parse_network) != NetworkPolicy::IgnoreOnError,
{
}

/// Under the default configuration the decoder verifies checksums only after
/// a failure and never decodes frames.
pub proof fn lemma_default_policies(data: Seq<u8>)
    ensures
        parse_outcome(DecodeConfig { force_crc: false, parse_network: false }, data) == decoded(
            data,
            CrcPolicy::OnError,
            NetworkPolicy::Never,
        ),
{
}

/// Parsing a file is decoding its bytes, whichever way they came: where the
/// file holds `bytes`, a load by map and a load by read both end with `bytes`,
/// and `parse_file` then gives the replay that `parse_bytes` gives for them,
/// or its error.
pub proof fn lemma_parse_file_agrees_with_parse_bytes(
    config: DecodeConfig,
    path: Seq<char>,
    bytes: Seq<u8>,
)
    ensures
        run_load(
            LoadStage::Opening,
            seq![LoadEventView::Opened, LoadEventView::Mapped { bytes }],
        ) == LoadActionView::Finish(Ok(bytes)),
        run_load(
            LoadStage::Opening,
            seq![LoadEventView::Opened, LoadEventView::MapFailed, LoadEventView::ReadDone { bytes }],
        ) == LoadActionView::Finish(Ok(bytes)),
        match parse_outcome(config, bytes) {
            Ok(replay) => parse_file_outcome(config, path, Ok(bytes)) == Ok::<
                Replay,
                ReplayErrorView,
            >(replay),
            Err(error) => parse_file_outcome(config, path, Ok(bytes)) == Err::<
                Replay,
                ReplayErrorView,
            >(ReplayErrorView::Decode(error)),
        },
{
    lemma_map_and_read_end_alike(bytes);
}

} // verus!
