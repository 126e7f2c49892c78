//! Decoding of Rocket League replays: a configurable facade over the replay
//! decoder, the order in which a file's bytes are obtained, and the lazy
//! expansion of file and directory arguments into replay paths.
//!
//! The library touches no file. Where the file system has to be asked, the
//! library says what to ask and the caller reports what it found:
//!
//! - `parser`: the two switches of a decode, and the decoding of bytes and of
//!   loaded files under them;
//! - `io_strategy`: open, then map, then read only where the map failed;
//! - `expand`: arguments to replay paths, one request and one answer at a time;
//! - `expansion`: what an expansion yields as a whole, and the laws that tie
//!   the steps to it;
//! - `viewer`: what an interactive viewer shows after each load and save;
//! - `decoder`, `render`: the calls into the decoder and the JSON writer.

pub mod decoder;
pub mod expand;
pub mod expansion;
pub mod io_strategy;
pub mod parser;
pub mod render;
pub mod viewer;

pub use crate::expand::{expand_directory, expand_paths};
pub use crate::parser::{ParsedReplay, ReplayParser};
