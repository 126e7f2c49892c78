//! The boundary to the replay decoder.
//!
//! The decoder is the `boxcars` crate. Nothing of it is verified here: this
//! module declares its two result types, gives its results a name, and holds
//! the calls into it.

use boxcars::{CrcCheck, NetworkParse, ParseError, ParserBuilder, Replay};
use vstd::prelude::*;

verus! {

/// A decoded replay, as the decoder produces it. Opaque to the verifier.
#[verifier::external_type_specification]
#[verifier::external_body]
pub struct ExReplay(Replay);

/// The decoder's classified error. Opaque to the verifier.
#[verifier::external_type_specification]
#[verifier::external_body]
pub struct ExParseError(ParseError);

/// When the decoder verifies the checksum of a section.
#[derive(Clone, Copy, Debug, PartialEq, Eq, Structural)]
pub enum CrcPolicy {
    /// Verify every section, whether or not it decodes.
    Always,
    /// Never verify.
    Never,
    /// Verify a section only after it failed to decode.
    OnError,
}

/// What the decoder does with the network (frame) data.
#[derive(Clone, Copy, Debug, PartialEq, Eq, Structural)]
pub enum NetworkPolicy {
    /// Decode the frames; a failure there fails the whole decode.
    Always,
    /// Skip the frames: header and footer only.
    Never,
    /// Decode the frames, and drop them if they fail to decode.
    IgnoreOnError,
}

/// The longest input that is handed to the decoder. The decoder counts the
/// bytes it has read in an `i32`: on an input of at most this length that
/// count cannot overflow.
pub const MAX_INPUT_LEN: usize = 0x7fff_ffff;

/// What the decoder returns for `data` under the two policies: the replay, or
/// the error it rejects the bytes with.
pub uninterp spec fn decoded(data: Seq<u8>, crc: CrcPolicy, network: NetworkPolicy) -> Result<
    Replay,
    ParseError,
>;

/// Runs `boxcars::ParserBuilder::parse` on `data`, with the two policies set
/// through `with_crc_check` and `with_network_parse`.
///
/// Trusted: what the decoder returns depends on the bytes and the two
/// policies alone. The bound on the length keeps the decoder's count of the
/// bytes it has read within an `i32`. Nothing is claimed of which bytes
/// decode, nor of the memory and the stack that a decode takes: the decoder
/// follows nested header properties by recursion, as deep as the input nests
/// them.
#[verifier::external_body]
pub(crate) fn decode(data: &[u8], crc: CrcPolicy, network: NetworkPolicy) -> (r: Result<
    Replay,
    ParseError,
>)
    requires
        data@.len() <= MAX_INPUT_LEN,
    ensures
        r == decoded(data@, crc, network),
{
    let crc_check = match crc {
        CrcPolicy::Always => CrcCheck::Always,
        CrcPolicy::Never => CrcCheck::Never,
        CrcPolicy::OnError => CrcCheck::OnError,
    };
    let network_parse = match network {
        NetworkPolicy::Always => NetworkParse::Always,
        NetworkPolicy::Never => NetworkParse::Never,
        NetworkPolicy::IgnoreOnError => NetworkParse::IgnoreOnError,
    };
    ParserBuilder::new(data).with_crc_check(crc_check).with_network_parse(network_parse).parse()
}

/// The message of a decoder's error: its own text, followed by the text of
/// each error that it names as its source, as `anyhow` writes an error in
/// the alternate form.
pub uninterp spec fn error_message(error: ParseError) -> Seq<char>;

/// Formats a decoder's error through `anyhow::Error::new` and the alternate
/// form of its `Display` impl, which walks the sources of the error.
///
/// Trusted: the text depends on the error alone. Nothing is claimed of what
/// it says.
#[verifier::external_body]
pub(crate) fn error_text(error: &ParseError) -> (r: String)
    ensures
        r@ == error_message(*error),
{
    format!("{:#}", anyhow::Error::new(error.clone()))
}

} // verus!
