//! One run of the pipeline as a machine of states: the caller performs the
//! action that the run asks for, against the stores or the file system, and
//! hands back what came of it as an event.

use crate::config::Config;
use crate::convert::artifact_of;
use crate::convert::gzip_payload;
use crate::convert::headed;
use crate::convert::is_parquet_file;
use crate::date::DateKey;
use crate::date::Day;
use crate::error::ErrorKind;
use crate::index::index_of;
use crate::index::lemma_index_of_push;
use crate::index::recorded;
use crate::index::ProcessedDateSet;
use crate::names::input_date;
use crate::names::input_day;
use crate::names::joined;
use crate::names::output_location;
use crate::names::output_name;
use crate::names::output_name_of;
use crate::plan::artifact_locations;
use crate::plan::holds_all;
use crate::plan::lemma_outstanding_members;
use crate::plan::lemma_second_run_finds_nothing;
use crate::plan::outstanding;
use crate::plan::skips;
use crate::schema::record_columns;
use crate::schema::record_schema;
use vstd::prelude::*;

verus! {

/// Where a run writes its artifacts.
#[derive(Clone, Copy, Debug, PartialEq, Eq, Structural)]
pub enum Sink {
    /// Into the directory `local_parquet_files`.
    LocalDirectory,
    /// Into the output store, under the configured output prefix.
    OutputStore,
}

/// Where a run stands.
#[derive(Clone, Copy, Debug, PartialEq, Eq, Structural)]
pub enum Phase {
    /// Reading the output store's listing into the set of dates done.
    Indexing,
    /// Waiting for the local directory to exist.
    Preparing,
    /// Waiting for the next object of the input store's listing.
    Listing,
    /// Waiting for the body of an input object.
    Fetching,
    /// Waiting for an artifact to be written.
    Publishing,
    /// Ended, every input object seen.
    Finished,
    /// Ended by a failure.
    Aborted,
}

/// What came of the action that the run asked for last.
#[derive(Debug, PartialEq, Eq)]
pub enum Event {
    /// The output store's listing gave one more object.
    OutputListed { location: String },
    /// The output store's listing is at its end.
    OutputsEnded,
    /// The local directory exists.
    DirectoryReady,
    /// The input store's listing gave one more object.
    InputListed { location: String },
    /// The input store's listing is at its end.
    InputsEnded,
    /// The body of the input object asked for.
    Fetched { body: Vec<u8> },
    /// The artifact is written.
    Published,
    /// The action could not be performed.
    Failed,
}

/// What the caller is to do next.
#[derive(Debug, PartialEq, Eq)]
pub enum Action {
    /// Take the next object of the output store's listing under the output
    /// prefix.
    NextOutput,
    /// Create the directory, with its parents, unless it exists.
    CreateDirectory { path: String },
    /// Take the next object of the input store's listing under the input
    /// prefix.
    NextInput,
    /// Nothing is to be done for this input object, whose date is done; take
    /// the next object of the input store's listing.
    Skip { location: String, date: DateKey },
    /// Fetch the whole body of this input object.
    Fetch { location: String },
    /// No artifact is written for this input object, which failed in this
    /// way; report it and take the next object of the input store's listing.
    Report { location: String, error: ErrorKind },
    /// Write the artifact to the sink at this path.
    Publish { sink: Sink, path: String, artifact: Vec<u8> },
    /// The run is over; so many artifacts were written.
    Finish { written: u64 },
    /// The run is over, or was before this event, for this reason. Where it
    /// ended over an input object, this is the object.
    Abort { error: ErrorKind, object: Option<String> },
}

/// An action as mathematical values.
pub enum ActionView {
    NextOutput,
    CreateDirectory { path: Seq<char> },
    NextInput,
    Skip { location: Seq<char>, day: Day },
    Fetch { location: Seq<char> },
    Report { location: Seq<char>, error: ErrorKind },
    Publish { sink: Sink, path: Seq<char>, artifact: Seq<u8> },
    Finish { written: nat },
    Abort { error: ErrorKind, object: Option<Seq<char>> },
}

impl View for Action {
    type V = ActionView;

    open spec fn view(&self) -> ActionView {
        match *self {
            Action::NextOutput => ActionView::NextOutput,
            Action::CreateDirectory { path } => ActionView::CreateDirectory { path: path@ },
            Action::NextInput => ActionView::NextInput,
            Action::Skip { location, date } => ActionView::Skip { location: location@, day: date@ },
            Action::Fetch { location } => ActionView::Fetch { location: location@ },
            Action::Report { location, error } => ActionView::Report { location: location@, error },
            Action::Publish { sink, path, artifact } => ActionView::Publish {
                sink,
                path: path@,
                artifact: artifact@,
            },
            Action::Finish { written } => ActionView::Finish { written: written as nat },
            Action::Abort { error, object } => ActionView::Abort {
                error,
                object: match object {
                    Some(location) => Some(location@),
                    None => None,
                },
            },
        }
    }
}

/// A run as mathematical values.
pub struct RunState {
    pub phase: Phase,
    pub sink: Sink,
    /// The directory or prefix under which artifacts are written.
    pub root: Seq<char>,
    /// The days for which the output store holds an artifact.
    pub done: Set<Day>,
    /// The location of the input object that was fetched last.
    pub current: Seq<char>,
    /// The name of the artifact of that input object.
    pub pending: Seq<char>,
    /// How many artifacts were written.
    pub written: nat,
}

/// The directory into which a run with a local sink writes.
pub open spec fn local_directory() -> Seq<char> {
    "local_parquet_files"@
}

/// The count of artifacts after one more; it stays at the largest `u64`.
pub open spec fn counted(written: nat) -> nat {
    if written < u64::MAX {
        written + 1
    } else {
        written
    }
}

/// Whether a run in this phase has ended.
pub open spec fn is_over(phase: Phase) -> bool {
    phase == Phase::Finished || phase == Phase::Aborted
}

/// The input object that a run is working on, where it is working on one.
pub open spec fn in_work(pre: RunState) -> Option<Seq<char>> {
    if pre.phase == Phase::Fetching || pre.phase == Phase::Publishing {
        Some(pre.current)
    } else {
        None
    }
}

/// The run ends on a failure, and names the input object that it was
/// working on.
pub open spec fn aborted(pre: RunState, error: ErrorKind) -> (RunState, ActionView) {
    (RunState { phase: Phase::Aborted, ..pre }, ActionView::Abort { error, object: in_work(pre) })
}

/// An event out of turn ends a run; one that is over stays as it is.
pub open spec fn out_of_turn(pre: RunState) -> (RunState, ActionView) {
    if is_over(pre.phase) {
        (pre, ActionView::Abort { error: ErrorKind::OutOfTurn, object: None })
    } else {
        aborted(pre, ErrorKind::OutOfTurn)
    }
}

/// The run turns to the input store: with a local sink the directory comes
/// first.
pub open spec fn listing_entered(pre: RunState) -> (RunState, ActionView) {
    match pre.sink {
        Sink::LocalDirectory => (
            RunState { phase: Phase::Preparing, ..pre },
            ActionView::CreateDirectory { path: pre.root },
        ),
        Sink::OutputStore => (RunState { phase: Phase::Listing, ..pre }, ActionView::NextInput),
    }
}

/// A new run and its first action. With `dedup` it reads the output store's
/// listing first; without, no date is ever done.
pub open spec fn started(output_prefix: Seq<char>, dedup: bool, sink: Sink) -> (
    RunState,
    ActionView,
) {
    let fresh = RunState {
        phase: Phase::Indexing,
        sink,
        root: match sink {
            Sink::LocalDirectory => local_directory(),
            Sink::OutputStore => output_prefix,
        },
        done: Set::empty(),
        current: Seq::empty(),
        pending: Seq::empty(),
        written: 0,
    };
    if dedup {
        (fresh, ActionView::NextOutput)
    } else {
        listing_entered(fresh)
    }
}

/// An input object is met: it is passed over where its date is done, and
/// fetched where not.
pub open spec fn input_met(pre: RunState, location: Seq<char>) -> (RunState, ActionView) {
    if skips(pre.done, location) {
        (pre, ActionView::Skip { location, day: input_day(location)->0 })
    } else {
        (
            RunState {
                phase: Phase::Fetching,
                current: location,
                pending: output_name_of(location),
                ..pre
            },
            ActionView::Fetch { location },
        )
    }
}

/// The body of the input object that is being worked on was converted, or
/// could not be. A parse failure ends the work on this object only: nothing
/// is written for it, it is reported, and the run goes on with the next
/// input object. Every other failure ends the run.
pub open spec fn converted(pre: RunState, outcome: Result<Seq<u8>, ErrorKind>) -> (
    RunState,
    ActionView,
) {
    if pre.phase != Phase::Fetching {
        out_of_turn(pre)
    } else {
        match outcome {
            Ok(artifact) => (
                RunState { phase: Phase::Publishing, ..pre },
                ActionView::Publish { sink: pre.sink, path: joined(pre.root, pre.pending), artifact },
            ),
            Err(ErrorKind::Parse) => (
                RunState { phase: Phase::Listing, ..pre },
                ActionView::Report { location: pre.current, error: ErrorKind::Parse },
            ),
            Err(error) => aborted(pre, error),
        }
    }
}

/// The outcomes that the conversion of a body can have. A body that is no
/// gzip stream fails to decompress. One whose text has no header row for the
/// record schema fails to parse. Every other gives an artifact with the
/// frame of a Parquet file, or fails to parse or to encode.
pub open spec fn conversion_allows(body: Seq<u8>, outcome: Result<Seq<u8>, ErrorKind>) -> bool {
    match gzip_payload(body) {
        None => outcome == Err::<Seq<u8>, ErrorKind>(ErrorKind::Decompress),
        Some(text) => match outcome {
            Ok(artifact) => headed(text, record_columns()) && is_parquet_file(artifact),
            Err(error) => error == ErrorKind::Parse || (error == ErrorKind::Encode && headed(
                text,
                record_columns(),
            )),
        },
    }
}

/// The outcome of a conversion as mathematical values.
pub open spec fn outcome_view(outcome: Result<Vec<u8>, ErrorKind>) -> Result<Seq<u8>, ErrorKind> {
    match outcome {
        Ok(artifact) => Ok(artifact@),
        Err(error) => Err(error),
    }
}

/// The state and the action that follow an event, for every event but a
/// body that arrives while the run waits for one.
pub open spec fn stepped(pre: RunState, event: Event) -> (RunState, ActionView) {
    match (pre.phase, event) {
        (Phase::Indexing, Event::OutputListed { location }) => (
            RunState { done: recorded(pre.done, location@), ..pre },
            ActionView::NextOutput,
        ),
        (Phase::Indexing, Event::OutputsEnded) => listing_entered(pre),
        (Phase::Indexing, Event::Failed) => aborted(pre, ErrorKind::Listing),
        (Phase::Preparing, Event::DirectoryReady) => (
            RunState { phase: Phase::Listing, ..pre },
            ActionView::NextInput,
        ),
        (Phase::Preparing, Event::Failed) => aborted(pre, ErrorKind::Publish),
        (Phase::Listing, Event::InputListed { location }) => input_met(pre, location@),
        (Phase::Listing, Event::InputsEnded) => (
            RunState { phase: Phase::Finished, ..pre },
            ActionView::Finish { written: pre.written },
        ),
        (Phase::Listing, Event::Failed) => aborted(pre, ErrorKind::Listing),
        (Phase::Fetching, Event::Failed) => aborted(pre, ErrorKind::Fetch),
        (Phase::Publishing, Event::Published) => (
            RunState { phase: Phase::Listing, written: counted(pre.written), ..pre },
            ActionView::NextInput,
        ),
        (Phase::Publishing, Event::Failed) => aborted(pre, ErrorKind::Publish),
        _ => out_of_turn(pre),
    }
}

/// While a run reads the output store's listing, the days done are those
/// that the locations seen so far carry.
pub proof fn lemma_listed_output_joins_the_days_done(
    pre: RunState,
    seen: Seq<Seq<char>>,
    location: String,
)
    requires
        pre.phase == Phase::Indexing,
        pre.done == index_of(seen),
    ensures
        stepped(pre, Event::OutputListed { location }).0.done == index_of(seen.push(location@)),
        stepped(pre, Event::OutputListed { location }).0.phase == Phase::Indexing,
        stepped(pre, Event::OutputListed { location }).1 == ActionView::NextOutput,
{
    lemma_index_of_push(seen, location@);
}

/// Skip on processed: an input object whose date is done is passed over.
/// The run stays as it is, so nothing is written, and the action is no
/// fetch. An input object whose date is not done, or that carries none, is
/// fetched.
pub proof fn lemma_input_is_skipped_or_fetched(pre: RunState, location: String)
    requires
        pre.phase == Phase::Listing,
    ensures
        skips(pre.done, location@) ==> stepped(pre, Event::InputListed { location }) == (
            pre,
            ActionView::Skip { location: location@, day: input_day(location@)->0 },
        ),
        !skips(pre.done, location@) ==> stepped(pre, Event::InputListed { location }).1
            == (ActionView::Fetch { location: location@ }),
{
}

/// A parse failure ends the work on one input object and no more: the
/// object is reported with its location, nothing is counted as written, the
/// days done stay, and the next input object is met as any other, passed
/// over or fetched.
pub proof fn lemma_parse_failure_ends_the_file_only(pre: RunState, next: String)
    requires
        pre.phase == Phase::Fetching,
    ensures
        ({
            let (post, action) = converted(pre, Err(ErrorKind::Parse));
            &&& action == (ActionView::Report { location: pre.current, error: ErrorKind::Parse })
            &&& post == (RunState { phase: Phase::Listing, ..pre })
            &&& stepped(post, Event::InputListed { location: next }) == input_met(post, next@)
        }),
{
}

/// Idempotence of runs. Let a first run work on `inputs` against an output
/// store that lists `before`, and write each artifact under `prefix`. A
/// second run that has read a listing `later` with all of `before` and all
/// those artifacts in it passes over every object of `inputs`: it stays as it
/// is and asks for no fetch. This holds of input objects whose locations
/// carry a date.
pub proof fn lemma_second_run_only_skips(
    pre: RunState,
    inputs: Seq<Seq<char>>,
    before: Seq<Seq<char>>,
    prefix: Seq<char>,
    later: Seq<Seq<char>>,
)
    requires
        pre.phase == Phase::Listing,
        pre.done == index_of(later),
        forall|i: int| 0 <= i < inputs.len() ==> input_day(#[trigger] inputs[i]) is Some,
        holds_all(later, before),
        holds_all(later, artifact_locations(prefix, outstanding(inputs, index_of(before)))),
    ensures
        forall|i: int|
            0 <= i < inputs.len() ==> input_met(pre, #[trigger] inputs[i]) == (
                pre,
                ActionView::Skip { location: inputs[i], day: input_day(inputs[i])->0 },
            ),
{
    lemma_second_run_finds_nothing(inputs, before, prefix, later);
    lemma_outstanding_members(inputs, pre.done);
    assert forall|i: int| 0 <= i < inputs.len() implies skips(pre.done, #[trigger] inputs[i]) by {
        if !skips(pre.done, inputs[i]) {
            assert(outstanding(inputs, pre.done).contains(inputs[i]));
        }
    }
}

/// One run of the pipeline.
pub struct Run {
    phase: Phase,
    sink: Sink,
    root: String,
    index: ProcessedDateSet,
    current: String,
    pending: String,
    written: u64,
}

impl View for Run {
    type V = RunState;

    closed spec fn view(&self) -> RunState {
        RunState {
            phase: self.phase,
            sink: self.sink,
            root: self.root@,
            done: self.index@,
            current: self.current@,
            pending: self.pending@,
            written: self.written as nat,
        }
    }
}

impl Run {
    /// Begins a run. With `dedup`, input objects whose date the output store
    /// holds already are passed over.
    pub fn start(config: &Config, dedup: bool, sink: Sink) -> (r: (Run, Action))
        ensures
            (r.0@, r.1@) == started(config.output_prefix@, dedup, sink),
    {
        let root = match sink {
            Sink::LocalDirectory => String::from_str("local_parquet_files"),
            Sink::OutputStore => config.output_prefix.clone(),
        };
        let mut run = Run {
            phase: Phase::Indexing,
            sink,
            root,
            index: ProcessedDateSet::new(),
            current: String::new(),
            pending: String::new(),
            written: 0,
        };
        if dedup {
            (run, Action::NextOutput)
        } else {
            let action = run.enter_listing();
            (run, action)
        }
    }

    fn enter_listing(&mut self) -> (action: Action)
        ensures
            (final(self)@, action@) == listing_entered(old(self)@),
    {
        match self.sink {
            Sink::LocalDirectory => {
                self.phase = Phase::Preparing;
                Action::CreateDirectory { path: self.root.clone() }
            },
            Sink::OutputStore => {
                self.phase = Phase::Listing;
                Action::NextInput
            },
        }
    }

    fn abort(&mut self, error: ErrorKind) -> (action: Action)
        ensures
            (final(self)@, action@) == aborted(old(self)@, error),
    {
        let object = match self.phase {
            Phase::Fetching | Phase::Publishing => Some(self.current.clone()),
            _ => None,
        };
        self.phase = Phase::Aborted;
        Action::Abort { error, object }
    }

    fn refuse(&mut self) -> (action: Action)
        ensures
            (final(self)@, action@) == out_of_turn(old(self)@),
    {
        match self.phase {
            Phase::Finished | Phase::Aborted => Action::Abort {
                error: ErrorKind::OutOfTurn,
                object: None,
            },
            _ => self.abort(ErrorKind::OutOfTurn),
        }
    }

    fn meet_input(&mut self, location: String) -> (action: Action)
        ensures
            (final(self)@, action@) == input_met(old(self)@, location@),
    {
        match input_date(location.as_str()) {
            Some(date) => {
                if self.index.contains(&date) {
                    return Action::Skip { location, date };
                }
            },
            None => {},
        }
        self.pending = output_name(location.as_str());
        self.current = location.clone();
        self.phase = Phase::Fetching;
        Action::Fetch { location }
    }

    /// Takes the outcome of converting the body that the run waits for, and
    /// asks for the artifact to be written, reports the object and goes on,
    /// or ends the run.
    pub fn on_converted(&mut self, outcome: Result<Vec<u8>, ErrorKind>) -> (action: Action)
        ensures
            (final(self)@, action@) == converted(old(self)@, outcome_view(outcome)),
    {
        match self.phase {
            Phase::Fetching => match outcome {
                Ok(artifact) => {
                    self.phase = Phase::Publishing;
                    let path = output_location(self.root.as_str(), self.pending.as_str());
                    Action::Publish { sink: self.sink, path, artifact }
                },
                Err(ErrorKind::Parse) => {
                    self.phase = Phase::Listing;
                    Action::Report { location: self.current.clone(), error: ErrorKind::Parse }
                },
                Err(error) => self.abort(error),
            },
            _ => self.refuse(),
        }
    }

    /// Takes what came of the action asked for last and says what to do
    /// next. A body that arrives while the run waits for one is converted
    /// against the record schema; every other event is answered by
    /// [`stepped`].
    pub fn step(&mut self, event: Event) -> (action: Action)
        ensures
            match (old(self)@.phase, event) {
                (Phase::Fetching, Event::Fetched { body }) => exists|
                    outcome: Result<Seq<u8>, ErrorKind>,
                |
                    #[trigger] conversion_allows(body@, outcome) && (final(self)@, action@)
                        == converted(old(self)@, outcome),
                _ => (final(self)@, action@) == stepped(old(self)@, event),
            },
    {
        match self.phase {
            Phase::Indexing => match event {
                Event::OutputListed { location } => {
                    self.index.record(location.as_str());
                    Action::NextOutput
                },
                Event::OutputsEnded => self.enter_listing(),
                Event::Failed => self.abort(ErrorKind::Listing),
                _ => self.refuse(),
            },
            Phase::Preparing => match event {
                Event::DirectoryReady => {
                    self.phase = Phase::Listing;
                    Action::NextInput
                },
                Event::Failed => self.abort(ErrorKind::Publish),
                _ => self.refuse(),
            },
            Phase::Listing => match event {
                Event::InputListed { location } => self.meet_input(location),
                Event::InputsEnded => {
                    self.phase = Phase::Finished;
                    Action::Finish { written: self.written }
                },
                Event::Failed => self.abort(ErrorKind::Listing),
                _ => self.refuse(),
            },
            Phase::Fetching => match event {
                Event::Fetched { body } => {
                    let columns = record_schema();
                    let outcome = artifact_of(body.as_slice(), &columns);
                    assert(conversion_allows(body@, outcome_view(outcome)));
                    self.on_converted(outcome)
                },
                Event::Failed => self.abort(ErrorKind::Fetch),
                _ => self.refuse(),
            },
            Phase::Publishing => match event {
                Event::Published => {
                    self.phase = Phase::Listing;
                    if self.written < u64::MAX {
                        self.written += 1;
                    }
                    Action::NextInput
                },
                Event::Failed => self.abort(ErrorKind::Publish),
                _ => self.refuse(),
            },
            Phase::Finished | Phase::Aborted => self.refuse(),
        }
    }

    /// Where the run stands.
    pub fn phase(&self) -> (r: Phase)
        ensures
            r == self@.phase,
    {
        self.phase
    }

    /// How many artifacts were written so far.
    pub fn written(&self) -> (r: u64)
        ensures
            r == self@.written,
    {
        self.written
    }

    /// Whether the date is among those that the output store's listing
    /// showed as done.
    pub fn is_done(&self, date: &DateKey) -> (r: bool)
        ensures
            r == self@.done.contains(date@),
    {
        self.index.contains(date)
    }
}

} // verus!
