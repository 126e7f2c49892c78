//! What an expansion yields as a whole, and the laws that tie the steps of an
//! expander to it.
//!
//! An expander is driven against a file system that answers its requests. The
//! answers that one argument draws are recorded here as an `Observation`; the
//! items of the whole expansion are stated over the arguments and their
//! observations, and the run of an expander over the same answers is proved to
//! hand out exactly those items, in that order.

use crate::expand::{expander_advance, expander_request};
use crate::expand::{AnswerView, DirectoryState, DiscoveryErrorView, ExpanderState};
use crate::expand::{ItemView, RequestView, WalkStage};
use vstd::prelude::*;

verus! {

/// What a walk reported at one step: a match, or a path it could not read.
pub enum Entry {
    Found { path: Seq<char>, is_file: bool },
    Failed { path: Seq<char>, message: Seq<char> },
}

/// What the file system showed for one argument.
pub enum Observation {
    /// The argument is an existing regular file.
    File,
    /// The argument names nothing: no file and no directory.
    Missing,
    /// The argument is no regular file, and no pattern could be formed for it.
    Refused { position: usize, message: Seq<char> },
    /// The argument is no regular file; the walk under it reported `entries`,
    /// in this order, and ended.
    Walked { entries: Seq<Entry> },
}

/// The answer that reports `entry`.
pub open spec fn entry_answer(entry: Entry) -> AnswerView {
    match entry {
        Entry::Found { path, is_file } => AnswerView::Match { path, is_file },
        Entry::Failed { path, message } => AnswerView::MatchFailed { path, message },
    }
}

/// The items that `entry` gives rise to: the path of a regular file, the
/// error of a path that could not be read, and nothing for any other match.
pub open spec fn entry_items(entry: Entry) -> Seq<ItemView> {
    match entry {
        Entry::Found { path, is_file } => if is_file {
            seq![Ok(path)]
        } else {
            seq![]
        },
        Entry::Failed { path, message } => seq![Err(DiscoveryErrorView::Entry { path, message })],
    }
}

/// The answers that report `entries`, in order.
pub open spec fn entries_answers(entries: Seq<Entry>) -> Seq<AnswerView>
    decreases entries.len(),
{
    if entries.len() == 0 {
        seq![]
    } else {
        seq![entry_answer(entries.first())] + entries_answers(entries.drop_first())
    }
}

/// The items that `entries` give rise to, in order.
pub open spec fn entries_items(entries: Seq<Entry>) -> Seq<ItemView>
    decreases entries.len(),
{
    if entries.len() == 0 {
        seq![]
    } else {
        entry_items(entries.first()) + entries_items(entries.drop_first())
    }
}

/// The answers that an argument with this observation draws, in order.
pub open spec fn observation_answers(observation: Observation) -> Seq<AnswerView> {
    match observation {
        Observation::File => seq![AnswerView::IsFile(true)],
        Observation::Missing => seq![AnswerView::NoSuchPath],
        Observation::Refused { position, message } => seq![
            AnswerView::IsFile(false),
            AnswerView::GlobRefused { position, message },
        ],
        Observation::Walked { entries } => seq![AnswerView::IsFile(false), AnswerView::GlobOpened]
            + entries_answers(entries) + seq![AnswerView::NoMoreMatches],
    }
}

/// The items of one argument: the argument itself where it is a regular file;
/// one error that holds it where it names nothing; one error where no pattern
/// could be formed for it; else what the walk under it gives rise to.
pub open spec fn argument_items(file: Seq<char>, observation: Observation) -> Seq<ItemView> {
    match observation {
        Observation::File => seq![Ok(file)],
        Observation::Missing => seq![Err(DiscoveryErrorView::Missing { path: file })],
        Observation::Refused { position, message } => seq![
            Err(DiscoveryErrorView::Pattern { dir: file, position, message }),
        ],
        Observation::Walked { entries } => entries_items(entries),
    }
}

/// The answers that the arguments draw, in the order of the arguments.
pub open spec fn script(observations: Seq<Observation>) -> Seq<AnswerView>
    decreases observations.len(),
{
    if observations.len() == 0 {
        seq![]
    } else {
        script(observations.drop_last()) + observation_answers(observations.last())
    }
}

/// The items of a whole expansion: those of each argument, in the order of
/// the arguments. Nothing is merged or left out: an argument that is met
/// again, as a file under a directory that is also given, is there again.
pub open spec fn expansion(files: Seq<Seq<char>>, observations: Seq<Observation>) -> Seq<ItemView>
    recommends
        files.len() == observations.len(),
    decreases files.len(),
{
    if files.len() == 0 {
        seq![]
    } else {
        expansion(files.drop_last(), observations.drop_last()) + argument_items(
            files.last(),
            observations.last(),
        )
    }
}

/// The items that one step hands out: one or none.
pub open spec fn yielded(item: Option<ItemView>) -> Seq<ItemView> {
    match item {
        None => seq![],
        Some(item) => seq![item],
    }
}

/// The run of an expander over `answers`: the state it ends in and the items
/// it hands out, in order.
pub open spec fn run(state: ExpanderState, answers: Seq<AnswerView>) -> (
    ExpanderState,
    Seq<ItemView>,
)
    decreases answers.len(),
{
    if answers.len() == 0 {
        (state, seq![])
    } else {
        let (next, item) = expander_advance(state, answers.first());
        let (end, items) = run(next, answers.drop_first());
        (end, yielded(item) + items)
    }
}

/// The state of an expansion of `files` in which the argument at `cursor` is
/// due.
pub open spec fn at_argument(files: Seq<Seq<char>>, cursor: nat) -> ExpanderState {
    ExpanderState { files, cursor, walk: None }
}

/// Items come out with the answers that give rise to them: what a run has
/// handed out after some answers is not changed by the answers that follow,
/// and the run goes on from where it stood.
pub proof fn lemma_run_is_incremental(
    state: ExpanderState,
    before: Seq<AnswerView>,
    after: Seq<AnswerView>,
)
    ensures
        run(state, before + after).0 == run(run(state, before).0, after).0,
        run(state, before + after).1 == run(state, before).1 + run(run(state, before).0, after).1,
    decreases before.len(),
{
    if before.len() > 0 {
        assert((before + after).drop_first() =~= before.drop_first() + after);
        let next = expander_advance(state, before.first()).0;
        lemma_run_is_incremental(next, before.drop_first(), after);
    }
}

/// A run over one answer is one step.
proof fn lemma_run_one(state: ExpanderState, answer: AnswerView)
    ensures
        run(state, seq![answer]) == (
            expander_advance(state, answer).0,
            yielded(expander_advance(state, answer).1),
        ),
{
    let next = expander_advance(state, answer).0;
    assert(run(next, seq![answer].drop_first()) == (next, Seq::<ItemView>::empty()));
}

/// The state of an expansion of `files` that walks the argument at `cursor`.
spec fn walking(files: Seq<Seq<char>>, cursor: nat) -> ExpanderState {
    ExpanderState {
        files,
        cursor,
        walk: Some(DirectoryState { dir: files[cursor as int], stage: WalkStage::Walking }),
    }
}

/// A walk hands out the items of the entries it reports, and goes on walking.
proof fn lemma_run_entries(files: Seq<Seq<char>>, cursor: nat, entries: Seq<Entry>)
    requires
        cursor < files.len(),
    ensures
        run(walking(files, cursor), entries_answers(entries)) == (
            walking(files, cursor),
            entries_items(entries),
        ),
    decreases entries.len(),
{
    if entries.len() > 0 {
        let state = walking(files, cursor);
        lemma_run_one(state, entry_answer(entries.first()));
        lemma_run_entries(files, cursor, entries.drop_first());
        lemma_run_is_incremental(
            state,
            seq![entry_answer(entries.first())],
            entries_answers(entries.drop_first()),
        );
    }
}

/// The run over the answers of one argument hands out the items of that
/// argument, and ends where the next argument is due.
proof fn lemma_run_argument(files: Seq<Seq<char>>, cursor: nat, observation: Observation)
    requires
        cursor < files.len(),
    ensures
        run(at_argument(files, cursor), observation_answers(observation)) == (
            at_argument(files, cursor + 1),
            argument_items(files[cursor as int], observation),
        ),
{
    let start = at_argument(files, cursor);
    match observation {
        Observation::File => {
            lemma_run_one(start, AnswerView::IsFile(true));
        },
        Observation::Missing => {
            lemma_run_one(start, AnswerView::NoSuchPath);
        },
        Observation::Refused { position, message } => {
            let opening = expander_advance(start, AnswerView::IsFile(false)).0;
            lemma_run_one(start, AnswerView::IsFile(false));
            lemma_run_one(opening, AnswerView::GlobRefused { position, message });
            lemma_run_is_incremental(
                start,
                seq![AnswerView::IsFile(false)],
                seq![AnswerView::GlobRefused { position, message }],
            );
            assert(seq![AnswerView::IsFile(false)] + seq![
                AnswerView::GlobRefused { position, message },
            ] =~= observation_answers(observation));
        },
        Observation::Walked { entries } => {
            let probe = seq![AnswerView::IsFile(false)];
            let open = seq![AnswerView::GlobOpened];
            let walk = entries_answers(entries);
            let close = seq![AnswerView::NoMoreMatches];
            let opening = expander_advance(start, AnswerView::IsFile(false)).0;
            let state = walking(files, cursor);
            lemma_run_one(start, AnswerView::IsFile(false));
            lemma_run_one(opening, AnswerView::GlobOpened);
            lemma_run_entries(files, cursor, entries);
            lemma_run_one(state, AnswerView::NoMoreMatches);
            lemma_run_is_incremental(start, probe, open);
            lemma_run_is_incremental(start, probe + open, walk);
            lemma_run_is_incremental(start, probe + open + walk, close);
            assert(probe + open =~= seq![AnswerView::IsFile(false), AnswerView::GlobOpened]);
        },
    }
}

/// An expander that is driven through the first `count` arguments hands out
/// the expansion of those arguments, and then stands at the next.
proof fn lemma_run_prefix(files: Seq<Seq<char>>, observations: Seq<Observation>, count: nat)
    requires
        files.len() == observations.len(),
        count <= files.len(),
    ensures
        run(at_argument(files, 0), script(observations.take(count as int))) == (
            at_argument(files, count),
            expansion(files.take(count as int), observations.take(count as int)),
        ),
    decreases count,
{
    let seen = observations.take(count as int);
    let given = files.take(count as int);
    if count > 0 {
        let last = (count - 1) as nat;
        lemma_run_prefix(files, observations, last);
        assert(seen.drop_last() =~= observations.take(last as int));
        assert(given.drop_last() =~= files.take(last as int));
        lemma_run_argument(files, last, observations[last as int]);
        lemma_run_is_incremental(
            at_argument(files, 0),
            script(seen.drop_last()),
            observation_answers(seen.last()),
        );
    }
}

/// An expander that is driven to the end hands out exactly the expansion of
/// its arguments: the items of each argument, in the order of the arguments,
/// whatever the arguments before it gave. It then asks nothing more.
pub proof fn lemma_run_yields_expansion(files: Seq<Seq<char>>, observations: Seq<Observation>)
    requires
        files.len() == observations.len(),
    ensures
        run(at_argument(files, 0), script(observations)).1 == expansion(files, observations),
        expander_request(run(at_argument(files, 0), script(observations)).0) == RequestView::Done,
{
    lemma_run_prefix(files, observations, files.len());
    assert(observations.take(files.len() as int) =~= observations);
    assert(files.take(files.len() as int) =~= files);
}

/// What each answer of an observation answers to: an expander that stands at
/// an argument asks whether it is a file; told that it is not, it asks to open
/// the pattern of that directory; once the pattern is open, it asks for the
/// next match.
pub proof fn lemma_requests_in_order(files: Seq<Seq<char>>, cursor: nat)
    requires
        cursor < files.len(),
    ensures
        expander_request(at_argument(files, cursor)) == (RequestView::Probe {
            path: files[cursor as int],
        }),
        expander_request(expander_advance(at_argument(files, cursor), AnswerView::IsFile(false)).0)
            == (RequestView::OpenGlob { pattern: files[cursor as int] + "/**/*.replay"@ }),
        expander_request(
            expander_advance(
                expander_advance(at_argument(files, cursor), AnswerView::IsFile(false)).0,
                AnswerView::GlobOpened,
            ).0,
        ) == RequestView::NextMatch,
{
}

/// The expansion of a list of arguments is the expansion of its first part
/// followed by that of the rest: what an argument gives does not depend on
/// the arguments around it, and a failure under one argument leaves the items
/// of the others as they are.
pub proof fn lemma_expansion_of_concatenation(
    files_a: Seq<Seq<char>>,
    observations_a: Seq<Observation>,
    files_b: Seq<Seq<char>>,
    observations_b: Seq<Observation>,
)
    requires
        files_a.len() == observations_a.len(),
        files_b.len() == observations_b.len(),
    ensures
        expansion(files_a + files_b, observations_a + observations_b) == expansion(
            files_a,
            observations_a,
        ) + expansion(files_b, observations_b),
    decreases files_b.len(),
{
    let files = files_a + files_b;
    let observations = observations_a + observations_b;
    if files_b.len() > 0 {
        assert(files.drop_last() =~= files_a + files_b.drop_last());
        assert(observations.drop_last() =~= observations_a + observations_b.drop_last());
        lemma_expansion_of_concatenation(
            files_a,
            observations_a,
            files_b.drop_last(),
            observations_b.drop_last(),
        );
    }
}

/// The expansion of one argument alone is the items of that argument.
proof fn lemma_expansion_of_one(file: Seq<char>, observation: Observation)
    ensures
        expansion(seq![file], seq![observation]) == argument_items(file, observation),
{
    assert(expansion(seq![file].drop_last(), seq![observation].drop_last()) == Seq::<
        ItemView,
    >::empty());
}

/// Every argument has its place in the expansion: its items stand between
/// those of the arguments before it and those of the arguments after it,
/// whatever any of them gave, errors included.
pub proof fn lemma_every_argument_is_expanded(
    files: Seq<Seq<char>>,
    observations: Seq<Observation>,
    index: int,
)
    requires
        files.len() == observations.len(),
        0 <= index < files.len(),
    ensures
        expansion(files, observations) == expansion(files.take(index), observations.take(index))
            + argument_items(files[index], observations[index]) + expansion(
            files.skip(index + 1),
            observations.skip(index + 1),
        ),
{
    let before_f = files.take(index);
    let before_o = observations.take(index);
    let after_f = files.skip(index + 1);
    let after_o = observations.skip(index + 1);
    let one_f = seq![files[index]];
    let one_o = seq![observations[index]];
    assert(files =~= (before_f + one_f) + after_f);
    assert(observations =~= (before_o + one_o) + after_o);
    lemma_expansion_of_concatenation(before_f + one_f, before_o + one_o, after_f, after_o);
    lemma_expansion_of_concatenation(before_f, before_o, one_f, one_o);
    lemma_expansion_of_one(files[index], observations[index]);
}

/// An argument that names nothing is reported, and the expansion goes on: its
/// one item is an error that holds the argument, and it stands between the
/// items of the arguments before it and those of the arguments after it.
pub proof fn lemma_missing_argument_is_reported(
    files: Seq<Seq<char>>,
    observations: Seq<Observation>,
    index: int,
)
    requires
        files.len() == observations.len(),
        0 <= index < files.len(),
        observations[index] is Missing,
    ensures
        expansion(files, observations) == expansion(files.take(index), observations.take(index))
            + seq![Err::<Seq<char>, DiscoveryErrorView>(
            DiscoveryErrorView::Missing { path: files[index] },
        )] + expansion(files.skip(index + 1), observations.skip(index + 1)),
        expansion(files, observations).contains(
            Err(DiscoveryErrorView::Missing { path: files[index] }),
        ),
{
    lemma_every_argument_is_expanded(files, observations, index);
    let before = expansion(files.take(index), observations.take(index));
    let error: ItemView = Err(DiscoveryErrorView::Missing { path: files[index] });
    assert(expansion(files, observations)[before.len() as int] == error);
}

/// A walk that reports no regular file and no failure gives no item: a
/// directory without replay files expands to nothing, and to no error.
pub proof fn lemma_walk_without_files_yields_nothing(dir: Seq<char>, entries: Seq<Entry>)
    requires
        forall|i: int|
            0 <= i < entries.len() ==> (#[trigger] entries[i] matches Entry::Found {
                is_file,
                ..
            } && !is_file),
    ensures
        argument_items(dir, Observation::Walked { entries }) == Seq::<ItemView>::empty(),
    decreases entries.len(),
{
    if entries.len() > 0 {
        lemma_walk_without_files_yields_nothing(dir, entries.drop_first());
    }
}

/// A path that the walk could not read is reported: its error is among the
/// items of the walk.
pub proof fn lemma_failed_entry_is_reported(entries: Seq<Entry>, index: int)
    requires
        0 <= index < entries.len(),
        entries[index] is Failed,
    ensures
        entries_items(entries).contains(
            Err(
                DiscoveryErrorView::Entry {
                    path: entries[index]->Failed_path,
                    message: entries[index]->Failed_message,
                },
            ),
        ),
    decreases entries.len(),
{
    let wanted: ItemView = Err(
        DiscoveryErrorView::Entry {
            path: entries[index]->Failed_path,
            message: entries[index]->Failed_message,
        },
    );
    let head = entry_items(entries.first());
    let tail = entries_items(entries.drop_first());
    if index == 0 {
        assert((head + tail)[0] == wanted);
    } else {
        lemma_failed_entry_is_reported(entries.drop_first(), index - 1);
        let at = choose|i: int| 0 <= i < tail.len() && tail[i] == wanted;
        assert((head + tail)[head.len() + at] == wanted);
    }
}

/// A directory for which no pattern could be formed gives one error, which
/// names the directory, and nothing else.
pub proof fn lemma_refused_pattern_yields_one_error(
    dir: Seq<char>,
    position: usize,
    message: Seq<char>,
)
    ensures
        argument_items(dir, Observation::Refused { position, message }) == seq![
            Err::<Seq<char>, DiscoveryErrorView>(
                DiscoveryErrorView::Pattern { dir, position, message },
            ),
        ],
{
}

/// The first match of a directory comes out with the third answer, however
/// many matches the walk still holds: no match is asked for before the one
/// before it was handed out.
pub proof fn lemma_first_match_comes_at_once(files: Seq<Seq<char>>, cursor: nat, path: Seq<char>)
    requires
        cursor < files.len(),
    ensures
        run(
            at_argument(files, cursor),
            seq![
                AnswerView::IsFile(false),
                AnswerView::GlobOpened,
                AnswerView::Match { path, is_file: true },
            ],
        ).1 == seq![Ok::<Seq<char>, DiscoveryErrorView>(path)],
{
    let start = at_argument(files, cursor);
    let opening = expander_advance(start, AnswerView::IsFile(false)).0;
    let state = walking(files, cursor);
    let probe = seq![AnswerView::IsFile(false)];
    let open = seq![AnswerView::GlobOpened];
    let found = seq![AnswerView::Match { path, is_file: true }];
    lemma_run_one(start, AnswerView::IsFile(false));
    lemma_run_one(opening, AnswerView::GlobOpened);
    lemma_run_one(state, AnswerView::Match { path, is_file: true });
    lemma_run_is_incremental(start, probe, open);
    lemma_run_is_incremental(start, probe + open, found);
    assert(probe + open + found =~= seq![
        AnswerView::IsFile(false),
        AnswerView::GlobOpened,
        AnswerView::Match { path, is_file: true },
    ]);
}

} // verus!
