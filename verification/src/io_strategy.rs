//! The order in which a file's bytes are obtained: open, then a memory map,
//! and a buffered read only where the map fails.
//!
//! The attempts themselves are made by the caller. This module decides, from
//! what came of the last attempt, what is attempted next and when the bytes,
//! or a failure, are final.

use vstd::prelude::*;

verus! {

/// An attempt on the file.
#[derive(Clone, Copy, Debug, PartialEq, Eq, Structural)]
pub enum LoadStage {
    /// Opening the file.
    Opening,
    /// Mapping the open file into memory.
    Mapping,
    /// Reading the whole file into a buffer.
    Reading,
}

/// What came of an attempt.
#[derive(Debug)]
pub enum LoadEvent<'a> {
    /// The file is open.
    Opened,
    /// The file could not be opened.
    OpenFailed { message: String },
    /// The file is mapped: these are its bytes.
    Mapped { bytes: &'a [u8] },
    /// The file could not be mapped.
    MapFailed,
    /// The file was read: these are its bytes.
    ReadDone { bytes: &'a [u8] },
    /// The file could not be read.
    ReadFailed { message: String },
}

/// What to do after an attempt.
#[derive(Debug)]
pub enum LoadAction<'a> {
    /// Make this attempt.
    Attempt(LoadStage),
    /// Stop: the bytes of the file, or why they could not be had.
    Finish(Result<&'a [u8], String>),
}

/// A `LoadEvent` as a mathematical value.
pub enum LoadEventView {
    Opened,
    OpenFailed { message: Seq<char> },
    Mapped { bytes: Seq<u8> },
    MapFailed,
    ReadDone { bytes: Seq<u8> },
    ReadFailed { message: Seq<char> },
}

/// A `LoadAction` as a mathematical value.
pub enum LoadActionView {
    Attempt(LoadStage),
    Finish(Result<Seq<u8>, Seq<char>>),
}

impl<'a> View for LoadEvent<'a> {
    type V = LoadEventView;

    open spec fn view(&self) -> LoadEventView {
        match *self {
            LoadEvent::Opened => LoadEventView::Opened,
            LoadEvent::OpenFailed { message } => LoadEventView::OpenFailed { message: message@ },
            LoadEvent::Mapped { bytes } => LoadEventView::Mapped { bytes: bytes@ },
            LoadEvent::MapFailed => LoadEventView::MapFailed,
            LoadEvent::ReadDone { bytes } => LoadEventView::ReadDone { bytes: bytes@ },
            LoadEvent::ReadFailed { message } => LoadEventView::ReadFailed { message: message@ },
        }
    }
}

impl<'a> View for LoadAction<'a> {
    type V = LoadActionView;

    open spec fn view(&self) -> LoadActionView {
        match *self {
            LoadAction::Attempt(stage) => LoadActionView::Attempt(stage),
            LoadAction::Finish(Ok(bytes)) => LoadActionView::Finish(Ok(bytes@)),
            LoadAction::Finish(Err(message)) => LoadActionView::Finish(Err(message@)),
        }
    }
}

/// The strategy. An open file is mapped; mapped bytes are final; a failed map
/// leads to a read; read bytes are final. A failure to open or to read is
/// final. An event that does not answer the attempt `stage` changes nothing:
/// the same attempt is due again.
pub open spec fn spec_next_action(stage: LoadStage, event: LoadEventView) -> LoadActionView {
    match (stage, event) {
        (LoadStage::Opening, LoadEventView::Opened) => LoadActionView::Attempt(LoadStage::Mapping),
        (LoadStage::Opening, LoadEventView::OpenFailed { message }) => LoadActionView::Finish(
            Err(message),
        ),
        (LoadStage::Mapping, LoadEventView::Mapped { bytes }) => LoadActionView::Finish(Ok(bytes)),
        (LoadStage::Mapping, LoadEventView::MapFailed) => LoadActionView::Attempt(
            LoadStage::Reading,
        ),
        (LoadStage::Reading, LoadEventView::ReadDone { bytes }) => LoadActionView::Finish(
            Ok(bytes),
        ),
        (LoadStage::Reading, LoadEventView::ReadFailed { message }) => LoadActionView::Finish(
            Err(message),
        ),
        _ => LoadActionView::Attempt(stage),
    }
}

/// The attempt that every load starts with.
pub fn first_stage() -> (r: LoadStage)
    ensures
        r == LoadStage::Opening,
{
    LoadStage::Opening
}

/// Decides what follows the attempt `stage`, given what came of it.
pub fn next_action<'a>(stage: LoadStage, event: LoadEvent<'a>) -> (r: LoadAction<'a>)
    ensures
        r@ == spec_next_action(stage, event@),
{
    match (stage, event) {
        (LoadStage::Opening, LoadEvent::Opened) => LoadAction::Attempt(LoadStage::Mapping),
        (LoadStage::Opening, LoadEvent::OpenFailed { message }) => LoadAction::Finish(
            Err(message),
        ),
        (LoadStage::Mapping, LoadEvent::Mapped { bytes }) => LoadAction::Finish(Ok(bytes)),
        (LoadStage::Mapping, LoadEvent::MapFailed) => LoadAction::Attempt(LoadStage::Reading),
        (LoadStage::Reading, LoadEvent::ReadDone { bytes }) => LoadAction::Finish(Ok(bytes)),
        (LoadStage::Reading, LoadEvent::ReadFailed { message }) => LoadAction::Finish(
            Err(message),
        ),
        _ => LoadAction::Attempt(stage),
    }
}

/// Where a load stands after the attempt `stage` and those that followed it
/// brought `events`, in this order: the attempt that is due, or the end.
/// Events after the end are not looked at.
pub open spec fn run_load(stage: LoadStage, events: Seq<LoadEventView>) -> LoadActionView
    decreases events.len(),
{
    if events.len() == 0 {
        LoadActionView::Attempt(stage)
    } else {
        match spec_next_action(stage, events.first()) {
            LoadActionView::Attempt(next) => run_load(next, events.drop_first()),
            LoadActionView::Finish(result) => LoadActionView::Finish(result),
        }
    }
}

/// A load that ended in a failure from the attempt `stage` on has seen that
/// failure: a failed read if the file was open already, and before it a failed
/// map if the map was still due.
proof fn lemma_failure_was_seen(stage: LoadStage, events: Seq<LoadEventView>, message: Seq<char>)
    requires
        run_load(stage, events) == LoadActionView::Finish(Err(message)),
    ensures
        stage == LoadStage::Opening ==> events.contains(LoadEventView::OpenFailed { message })
            || (events.contains(LoadEventView::MapFailed) && events.contains(
            LoadEventView::ReadFailed { message },
        )),
        stage == LoadStage::Mapping ==> events.contains(LoadEventView::MapFailed)
            && events.contains(LoadEventView::ReadFailed { message }),
        stage == LoadStage::Reading ==> events.contains(LoadEventView::ReadFailed { message }),
    decreases events.len(),
{
    match spec_next_action(stage, events.first()) {
        LoadActionView::Attempt(next) => {
            lemma_failure_was_seen(next, events.drop_first(), message);
        },
        LoadActionView::Finish(result) => {},
    }
}

/// A load fails only where the file cannot be opened, or where both the map
/// and the read that follows it fail; the failure it ends in is the one that
/// the open or the read reported.
pub proof fn lemma_load_fails_only_without_bytes(events: Seq<LoadEventView>, message: Seq<char>)
    requires
        run_load(LoadStage::Opening, events) == LoadActionView::Finish(Err(message)),
    ensures
        events.contains(LoadEventView::OpenFailed { message }) || (events.contains(
            LoadEventView::MapFailed,
        ) && events.contains(LoadEventView::ReadFailed { message })),
{
    lemma_failure_was_seen(LoadStage::Opening, events, message);
}

/// The two ways to the bytes end alike: a file that opens and maps, and a
/// file that opens, fails to map and is read, both end with the bytes that
/// the map or the read delivered.
pub proof fn lemma_map_and_read_end_alike(bytes: Seq<u8>)
    ensures
        run_load(
            LoadStage::Opening,
            seq![LoadEventView::Opened, LoadEventView::Mapped { bytes }],
        ) == LoadActionView::Finish(Ok(bytes)),
        run_load(
            LoadStage::Opening,
            seq![LoadEventView::Opened, LoadEventView::MapFailed, LoadEventView::ReadDone { bytes }],
        ) == LoadActionView::Finish(Ok(bytes)),
{
    let mapped = seq![LoadEventView::Opened, LoadEventView::Mapped { bytes }];
    assert(run_load(LoadStage::Mapping, mapped.drop_first()) == LoadActionView::Finish(Ok(bytes)));
    let read = seq![
        LoadEventView::Opened,
        LoadEventView::MapFailed,
        LoadEventView::ReadDone { bytes },
    ];
    assert(run_load(LoadStage::Reading, read.drop_first().drop_first())
        == LoadActionView::Finish(Ok(bytes)));
    assert(run_load(LoadStage::Mapping, read.drop_first()) == LoadActionView::Finish(Ok(bytes)));
}

} // verus!
