//! The textual form of a replay.
//!
//! The text is JSON, written by `serde_json` from the `Serialize` impl that
//! the decoder gives its replay. Nothing of it is verified here.

use boxcars::Replay;
use vstd::prelude::*;

verus! {

/// The pretty-printed JSON text of `replay`, or the message of the error
/// that writing it ended in.
pub uninterp spec fn rendered(replay: Replay) -> Result<Seq<char>, Seq<char>>;

/// Runs `serde_json::to_string_pretty` on `replay`; an error is given as the
/// text that its `Display` impl writes.
///
/// Trusted: the result depends on the replay alone. Nothing is claimed of
/// what the text holds, nor of when writing it fails.
#[verifier::external_body]
pub(crate) fn render(replay: &Replay) -> (r: Result<String, String>)
    ensures
        match rendered(*replay) {
            Ok(text) => r matches Ok(json) && json@ == text,
            Err(message) => r matches Err(detail) && detail@ == message,
        },
{
    match serde_json::to_string_pretty(replay) {
        Ok(json) => Ok(json),
        Err(error) => Err(format!("{}", error)),
    }
}

} // verus!
