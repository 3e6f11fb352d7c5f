//! The orchestrator of a run, as a state machine: it is told what the
//! outside world answered, and says what the observer is to be notified of
//! and what it waits for next.

use crate::aggregator::lemma_successor_div_mod;
use crate::aggregator::stride;
use crate::aggregator::Aggregator;
use crate::decimal::decimal;
use crate::decimal::decimal_string;
use crate::notification::completion;
use crate::notification::make_dsr;
use crate::notification::message_only;
use crate::notification::DataSetupResult;
use crate::notification::NotificationView;
use crate::notification::Status;
use crate::notification::ERR_NO_FILE_SELECTED;
use crate::notification::ERR_OSU_DB_EMPTY;
use crate::notification::ERR_OSU_DB_PARSE_FAILED;
use crate::notification::ERR_PATH_EXTRACT_FAILED;
use crate::notification::ERR_SONGS_DIR_EMPTY;
use crate::notification::ERR_SONGS_DIR_READ_FAILED;
use crate::notification::WARN_MISMATCH_COUNT;
use crate::song::song_views;
use crate::song::SongData;
use crate::song::SongView;
use vstd::prelude::*;
use vstd::string::*;

verus! {

/// What a session waits for.
#[derive(Clone, Copy, Debug, PartialEq, Eq, Structural)]
pub enum Stage {
    /// The user's choice of the catalog file.
    ChoosingCatalog,
    /// The catalog, read and parsed.
    LoadingCatalog,
    /// Whether a songs folder lies beside the catalog.
    LocatingSongs,
    /// The user's choice of a songs folder.
    ChoosingSongs,
    /// The number of song containers in the songs folder.
    CountingSongs,
    /// The user's consent to go on with fewer containers than the catalog
    /// expects.
    Confirming,
    /// The next validated song, or the end of the stream.
    Streaming,
    /// Nothing: the run is over.
    Finished,
}

/// What the outside world answered.
#[derive(Clone, Debug, PartialEq, Eq)]
pub enum Event {
    /// A picker gave a usable path.
    PathChosen,
    /// A picker was closed without a choice.
    NothingChosen,
    /// A picker gave a choice that has no path.
    PathUnavailable,
    /// The catalog was parsed; it expects `folder_count` song folders.
    CatalogLoaded { folder_count: u32 },
    /// The catalog could not be read or parsed.
    CatalogUnreadable,
    /// The songs folder beside the catalog exists.
    DefaultFolderFound,
    /// There is no songs folder beside the catalog.
    DefaultFolderMissing,
    /// The songs folder holds `containers` song containers.
    FolderCounted { containers: usize },
    /// The songs folder could not be listed.
    FolderUnreadable,
    /// The user agreed to go on.
    Confirmed,
    /// The user declined to go on.
    Declined,
    /// The worker delivered a validated song.
    SongArrived(SongData),
    /// The worker closed its side of the stream.
    StreamEnded,
}

/// Mathematical value of a [`Session`].
pub struct SessionView {
    pub stage: Stage,
    /// Song folders the catalog expects; zero until the catalog is loaded.
    pub expected: u32,
    /// Song containers counted in the songs folder; zero until counted.
    pub containers: usize,
    /// Threshold of the progress notifications.
    pub threshold: nat,
    /// Songs received and not yet handed to the observer.
    pub received: Seq<SongView>,
    /// Kinds of the notifications issued so far, oldest first.
    pub notified: Seq<Status>,
}

/// The session moves on to `stage` and notifies nobody.
pub open spec fn proceed(s: SessionView, stage: Stage) -> (SessionView, Option<NotificationView>) {
    (SessionView { stage, ..s }, None)
}

/// The session ends with an error notification that carries `message`.
pub open spec fn fail(s: SessionView, message: Seq<char>) -> (
    SessionView,
    Option<NotificationView>,
) {
    (
        SessionView { stage: Stage::Finished, notified: s.notified.push(Status::Error), ..s },
        Some(message_only(Status::Error, message)),
    )
}

/// The session starts streaming and tells the observer how many song folders
/// the catalog expects.
pub open spec fn start(s: SessionView) -> (SessionView, Option<NotificationView>) {
    (
        SessionView { stage: Stage::Streaming, notified: s.notified.push(Status::Started), ..s },
        Some(message_only(Status::Started, decimal(s.expected as nat))),
    )
}

/// What a session in state `s` does on `event`: its next state and the
/// notification it issues, if any. An event that does not answer what the
/// session waits for changes nothing.
pub open spec fn react(s: SessionView, event: Event) -> (SessionView, Option<NotificationView>) {
    match s.stage {
        Stage::ChoosingCatalog => match event {
            Event::PathChosen => proceed(s, Stage::LoadingCatalog),
            Event::NothingChosen => fail(s, ERR_NO_FILE_SELECTED@),
            Event::PathUnavailable => fail(s, ERR_PATH_EXTRACT_FAILED@),
            _ => (s, None),
        },
        Stage::LoadingCatalog => match event {
            Event::CatalogLoaded { folder_count } => if folder_count == 0 {
                fail(s, ERR_OSU_DB_EMPTY@)
            } else {
                proceed(SessionView { expected: folder_count, ..s }, Stage::LocatingSongs)
            },
            Event::CatalogUnreadable => fail(s, ERR_OSU_DB_PARSE_FAILED@),
            _ => (s, None),
        },
        Stage::LocatingSongs => match event {
            Event::DefaultFolderFound => proceed(s, Stage::CountingSongs),
            Event::DefaultFolderMissing => proceed(s, Stage::ChoosingSongs),
            _ => (s, None),
        },
        Stage::ChoosingSongs => match event {
            Event::PathChosen => proceed(s, Stage::CountingSongs),
            Event::NothingChosen => fail(s, ERR_NO_FILE_SELECTED@),
            Event::PathUnavailable => fail(s, ERR_PATH_EXTRACT_FAILED@),
            _ => (s, None),
        },
        Stage::CountingSongs => match event {
            Event::FolderCounted { containers } => if containers == 0 {
                fail(s, ERR_SONGS_DIR_EMPTY@)
            } else if containers < s.expected {
                (
                    SessionView {
                        stage: Stage::Confirming,
                        containers,
                        notified: s.notified.push(Status::Warning),
                        ..s
                    },
                    Some(message_only(Status::Warning, WARN_MISMATCH_COUNT@)),
                )
            } else {
                start(SessionView { containers, ..s })
            },
            Event::FolderUnreadable => fail(s, ERR_SONGS_DIR_READ_FAILED@),
            _ => (s, None),
        },
        Stage::Confirming => match event {
            Event::Confirmed => start(s),
            Event::Declined => proceed(s, Stage::Finished),
            _ => (s, None),
        },
        Stage::Streaming => match event {
            Event::SongArrived(song) => {
                let received = s.received.push(song@);
                if received.len() % stride(s.threshold) == 0 {
                    (
                        SessionView {
                            received,
                            notified: s.notified.push(Status::Processing),
                            ..s
                        },
                        Some(message_only(Status::Processing, decimal(received.len()))),
                    )
                } else {
                    (SessionView { received, ..s }, None)
                }
            },
            Event::StreamEnded => (
                SessionView {
                    stage: Stage::Finished,
                    received: Seq::empty(),
                    notified: s.notified.push(Status::Done),
                    ..s
                },
                Some(completion(s.received)),
            ),
            _ => (s, None),
        },
        Stage::Finished => (s, None),
    }
}

/// The notifications of a run that is streaming: a warning if there was
/// one, the start, and `reports` progress notifications.
pub open spec fn streaming_trace(warned: bool, reports: nat) -> Seq<Status> {
    let lead = if warned {
        seq![Status::Warning, Status::Started]
    } else {
        seq![Status::Started]
    };
    lead + Seq::new(reports, |i: int| Status::Processing)
}

/// Whether `notified` is what a session in state `s` can have issued.
pub open spec fn orderly(s: SessionView) -> bool {
    match s.stage {
        Stage::ChoosingCatalog | Stage::LoadingCatalog | Stage::LocatingSongs
        | Stage::ChoosingSongs | Stage::CountingSongs => s.notified == Seq::<Status>::empty(),
        Stage::Confirming => s.notified == seq![Status::Warning] && 0 < s.containers
            < s.expected,
        Stage::Streaming => s.notified == streaming_trace(
            s.containers < s.expected,
            s.received.len() / stride(s.threshold),
        ),
        Stage::Finished => {
            ||| s.notified == seq![Status::Error]
            ||| s.notified == seq![Status::Warning]
            ||| exists|warned: bool, reports: nat|
                s.notified == #[trigger] streaming_trace(warned, reports).push(Status::Done)
        },
    }
}

/// How often `kind` occurs in `trace`.
pub open spec fn occurrences(trace: Seq<Status>, kind: Status) -> nat
    decreases trace.len(),
{
    if trace.len() == 0 {
        0
    } else {
        occurrences(trace.drop_last(), kind) + if trace.last() == kind {
            1nat
        } else {
            0nat
        }
    }
}

/// A notification that ends a run.
pub open spec fn is_terminal(kind: Status) -> bool {
    kind == Status::Error || kind == Status::Done
}

/// What occurs in the notifications of a streaming run: one start, the
/// progress notifications, a warning if there was one, and nothing that ends
/// a run.
pub proof fn lemma_streaming_trace_counts(warned: bool, reports: nat)
    ensures
        occurrences(streaming_trace(warned, reports), Status::Processing) == reports,
        occurrences(streaming_trace(warned, reports), Status::Started) == 1,
        occurrences(streaming_trace(warned, reports), Status::Warning) == if warned {
            1nat
        } else {
            0nat
        },
        occurrences(streaming_trace(warned, reports), Status::Error) == 0,
        occurrences(streaming_trace(warned, reports), Status::Done) == 0,
    decreases reports,
{
    if reports == 0 {
        reveal_with_fuel(occurrences, 3);
    } else {
        lemma_streaming_trace_counts(warned, (reports - 1) as nat);
        assert(streaming_trace(warned, reports).drop_last() =~= streaming_trace(
            warned,
            (reports - 1) as nat,
        ));
    }
}

/// In an orderly run a notification that ends the run is the last one, and
/// the run is then over; a warning can only be the first notification; and
/// progress is reported only after the start.
pub proof fn lemma_one_terminal_notification(s: SessionView)
    requires
        orderly(s),
    ensures
        forall|i: int|
            0 <= i < s.notified.len() && is_terminal(#[trigger] s.notified[i]) ==> s.stage
                == Stage::Finished && i == s.notified.len() - 1,
        forall|i: int|
            0 <= i < s.notified.len() && #[trigger] s.notified[i] == Status::Warning ==> i == 0,
        forall|i: int|
            0 <= i < s.notified.len() && #[trigger] s.notified[i] == Status::Processing ==> 1 <= i
                && (s.notified[0] == Status::Started || s.notified[1] == Status::Started),
        s.stage != Stage::Finished ==> occurrences(s.notified, Status::Error) + occurrences(
            s.notified,
            Status::Done,
        ) == 0,
        occurrences(s.notified, Status::Error) + occurrences(s.notified, Status::Done) <= 1,
{
    match s.stage {
        Stage::Confirming => {
            reveal_with_fuel(occurrences, 2);
        },
        Stage::Streaming => {
            lemma_streaming_trace_counts(
                s.containers < s.expected,
                s.received.len() / stride(s.threshold),
            );
        },
        Stage::Finished => {
            if s.notified == seq![Status::Error] || s.notified == seq![Status::Warning] {
                reveal_with_fuel(occurrences, 2);
            } else {
                let (warned, reports) = choose|warned: bool, reports: nat|
                    s.notified == #[trigger] streaming_trace(warned, reports).push(Status::Done);
                lemma_streaming_trace_counts(warned, reports);
                assert(s.notified.drop_last() =~= streaming_trace(warned, reports));
            }
        },
        _ => {},
    }
}

/// While a run streams, it has reported progress once for each whole stride
/// of songs received.
pub proof fn lemma_progress_count(s: SessionView)
    requires
        orderly(s),
        s.stage == Stage::Streaming,
    ensures
        occurrences(s.notified, Status::Processing) == s.received.len() / stride(s.threshold),
{
    lemma_streaming_trace_counts(s.containers < s.expected, s.received.len() / stride(s.threshold));
}

/// The end of the stream always ends the run, even when no song was
/// received: the closing notification carries every song received, whatever
/// the threshold, and the run has then reported progress once for each
/// whole stride of those songs.
pub proof fn lemma_stream_end_completes(s: SessionView)
    requires
        orderly(s),
        s.stage == Stage::Streaming,
    ensures
        react(s, Event::StreamEnded).1 == Some(completion(s.received)),
        react(s, Event::StreamEnded).0.stage == Stage::Finished,
        orderly(react(s, Event::StreamEnded).0),
        occurrences(react(s, Event::StreamEnded).0.notified, Status::Processing)
            == s.received.len() / stride(s.threshold),
        occurrences(react(s, Event::StreamEnded).0.notified, Status::Done) == 1,
{
    let after = react(s, Event::StreamEnded).0;
    let warned = s.containers < s.expected;
    let reports = s.received.len() / stride(s.threshold);
    lemma_streaming_trace_counts(warned, reports);
    assert(after.notified.drop_last() =~= s.notified);
}

/// Every reaction keeps a run orderly, as long as songs are held only while
/// the run streams.
pub proof fn lemma_react_keeps_order(s: SessionView, event: Event)
    requires
        orderly(s),
        s.stage != Stage::Streaming ==> s.received.len() == 0,
    ensures
        orderly(react(s, event).0),
        react(s, event).0.stage != Stage::Streaming ==> react(s, event).0.received.len() == 0,
        react(s, event).0.threshold == s.threshold,
{
    let after = react(s, event).0;
    let warned = s.containers < s.expected;
    let reports = s.received.len() / stride(s.threshold);
    match (s.stage, event) {
        (Stage::Streaming, Event::SongArrived(song)) => {
            lemma_successor_div_mod(s.received.len(), stride(s.threshold));
            if after.received.len() % stride(s.threshold) == 0 {
                assert(after.notified =~= streaming_trace(warned, reports + 1));
            }
        },
        (Stage::Confirming, Event::Confirmed) => {
            assert(after.notified =~= streaming_trace(true, 0));
        },
        _ => {},
    }
}

/// The state of a session after the songs of `songs` have arrived, in
/// order.
pub open spec fn after_songs(s: SessionView, songs: Seq<SongData>) -> SessionView
    decreases songs.len(),
{
    if songs.len() == 0 {
        s
    } else {
        react(after_songs(s, songs.drop_last()), Event::SongArrived(songs.last())).0
    }
}

/// A stream as a whole. A session that starts streaming and receives
/// `songs` holds exactly these songs, in order, and has reported progress
/// once for each whole stride of them; when the stream then ends, the
/// closing notification carries them all. This holds for every threshold:
/// with a threshold of one each song is reported, with a threshold above
/// the number of songs none is.
pub proof fn lemma_whole_stream(s: SessionView, songs: Seq<SongData>)
    requires
        orderly(s),
        s.stage == Stage::Streaming,
        s.received.len() == 0,
    ensures
        after_songs(s, songs).stage == Stage::Streaming,
        after_songs(s, songs).threshold == s.threshold,
        orderly(after_songs(s, songs)),
        after_songs(s, songs).received == song_views(songs),
        occurrences(after_songs(s, songs).notified, Status::Processing) == songs.len() / stride(
            s.threshold,
        ),
        react(after_songs(s, songs), Event::StreamEnded).1 == Some(
            completion(song_views(songs)),
        ),
        react(after_songs(s, songs), Event::StreamEnded).0.stage == Stage::Finished,
    decreases songs.len(),
{
    if songs.len() == 0 {
        assert(s.received =~= song_views(songs));
    } else {
        let before = after_songs(s, songs.drop_last());
        lemma_whole_stream(s, songs.drop_last());
        lemma_react_keeps_order(before, Event::SongArrived(songs.last()));
        assert(after_songs(s, songs).received =~= song_views(songs));
    }
    lemma_progress_count(after_songs(s, songs));
}

/// The value of an optional notification.
pub open spec fn note_view(note: Option<DataSetupResult>) -> Option<NotificationView> {
    match note {
        Some(n) => Some(n@),
        None => None,
    }
}

/// The question put to the user when the songs folder holds fewer
/// containers than the catalog expects.
pub open spec fn prompt_text(expected: nat, containers: nat) -> Seq<char> {
    "The number of songs in your osu!db ("@ + decimal(expected)
        + ") does not match the number of songs in your Songs folder ("@ + decimal(containers)
        + "). Continue anyway?\n"@
}

/// One run of the orchestrator.
pub struct Session {
    stage: Stage,
    expected: u32,
    containers: usize,
    threshold: usize,
    aggregator: Aggregator,
    notified: Ghost<Seq<Status>>,
}

impl View for Session {
    type V = SessionView;

    closed spec fn view(&self) -> SessionView {
        SessionView {
            stage: self.stage,
            expected: self.expected,
            containers: self.containers,
            threshold: self.threshold as nat,
            received: self.aggregator.received(),
            notified: self.notified@,
        }
    }
}

impl Session {
    /// The session's parts agree, and its notifications so far are orderly.
    pub closed spec fn wf(&self) -> bool {
        &&& self.aggregator.wf()
        &&& self.aggregator.threshold() == self.threshold
        &&& self.stage != Stage::Streaming ==> self.aggregator.received().len() == 0
        &&& orderly(self@)
    }

    /// The notifications of a session are orderly, and it holds songs only
    /// while it streams.
    pub proof fn lemma_orderly(&self)
        requires
            self.wf(),
        ensures
            orderly(self@),
            self@.stage != Stage::Streaming ==> self@.received.len() == 0,
    {
    }

    /// A session that waits for the catalog file and reports progress every
    /// `threshold` songs.
    pub fn new(threshold: usize) -> (session: Session)
        ensures
            session.wf(),
            session@ == (SessionView {
                stage: Stage::ChoosingCatalog,
                expected: 0,
                containers: 0,
                threshold: threshold as nat,
                received: Seq::empty(),
                notified: Seq::empty(),
            }),
    {
        Session {
            stage: Stage::ChoosingCatalog,
            expected: 0,
            containers: 0,
            threshold,
            aggregator: Aggregator::new(threshold),
            notified: Ghost(Seq::empty()),
        }
    }

    /// What the session waits for.
    pub fn stage(&self) -> (stage: Stage)
        ensures
            stage == self@.stage,
    {
        self.stage
    }

    /// The number of song folders the catalog expects.
    pub fn expected(&self) -> (expected: u32)
        ensures
            expected == self@.expected,
    {
        self.expected
    }

    /// The number of song containers counted in the songs folder.
    pub fn containers(&self) -> (containers: usize)
        ensures
            containers == self@.containers,
    {
        self.containers
    }

    /// The question to put to the user while the session is
    /// [`Stage::Confirming`].
    pub fn confirmation_prompt(&self) -> (text: String)
        ensures
            text@ == prompt_text(self@.expected as nat, self@.containers as nat),
    {
        let expected = decimal_string(self.expected as u64);
        let containers = decimal_string(self.containers as u64);
        let mut text = String::from_str("The number of songs in your osu!db (");
        text.append(expected.as_str());
        text.append(") does not match the number of songs in your Songs folder (");
        text.append(containers.as_str());
        text.append("). Continue anyway?\n");
        text
    }

    /// Ends the session with an error notification.
    fn fail(&mut self, message: &str) -> (note: Option<DataSetupResult>)
        requires
            old(self).wf(),
            old(self)@.notified == Seq::<Status>::empty(),
        ensures
            final(self).wf(),
            (final(self)@, note_view(note)) == fail(old(self)@, message@),
    {
        self.stage = Stage::Finished;
        self.notified = Ghost(self.notified@.push(Status::Error));
        assert(self.notified@ =~= seq![Status::Error]);
        Some(make_dsr(Status::Error, message))
    }

    /// Starts streaming.
    fn start(&mut self) -> (note: Option<DataSetupResult>)
        requires
            old(self).wf(),
            old(self)@.stage != Stage::Streaming,
            old(self)@.containers < old(self)@.expected ==> old(self)@.notified
                == seq![Status::Warning],
            old(self)@.containers >= old(self)@.expected ==> old(self)@.notified == Seq::<
                Status,
            >::empty(),
        ensures
            final(self).wf(),
            (final(self)@, note_view(note)) == start(old(self)@),
    {
        self.stage = Stage::Streaming;
        self.notified = Ghost(self.notified@.push(Status::Started));
        assert(self.notified@ =~= streaming_trace(self.containers < self.expected, 0));
        let count = decimal_string(self.expected as u64);
        Some(make_dsr(Status::Started, count.as_str()))
    }

    /// Takes what the outside world answered, moves to the next stage and
    /// returns the notification to deliver, if any.
    pub fn advance(&mut self, event: Event) -> (note: Option<DataSetupResult>)
        requires
            old(self).wf(),
        ensures
            final(self).wf(),
            (final(self)@, note_view(note)) == react(old(self)@, event),
    {
        match self.stage {
            Stage::ChoosingCatalog => match event {
                Event::PathChosen => {
                    self.stage = Stage::LoadingCatalog;
                    None
                },
                Event::NothingChosen => self.fail(ERR_NO_FILE_SELECTED),
                Event::PathUnavailable => self.fail(ERR_PATH_EXTRACT_FAILED),
                _ => None,
            },
            Stage::LoadingCatalog => match event {
                Event::CatalogLoaded { folder_count } => {
                    if folder_count == 0 {
                        self.fail(ERR_OSU_DB_EMPTY)
                    } else {
                        self.expected = folder_count;
                        self.stage = Stage::LocatingSongs;
                        None
                    }
                },
                Event::CatalogUnreadable => self.fail(ERR_OSU_DB_PARSE_FAILED),
                _ => None,
            },
            Stage::LocatingSongs => match event {
                Event::DefaultFolderFound => {
                    self.stage = Stage::CountingSongs;
                    None
                },
                Event::DefaultFolderMissing => {
                    self.stage = Stage::ChoosingSongs;
                    None
                },
                _ => None,
            },
            Stage::ChoosingSongs => match event {
                Event::PathChosen => {
                    self.stage = Stage::CountingSongs;
                    None
                },
                Event::NothingChosen => self.fail(ERR_NO_FILE_SELECTED),
                Event::PathUnavailable => self.fail(ERR_PATH_EXTRACT_FAILED),
                _ => None,
            },
            Stage::CountingSongs => match event {
                Event::FolderCounted { containers } => {
                    if containers == 0 {
                        self.fail(ERR_SONGS_DIR_EMPTY)
                    } else if containers < self.expected as usize {
                        self.containers = containers;
                        self.stage = Stage::Confirming;
                        self.notified = Ghost(self.notified@.push(Status::Warning));
                        Some(make_dsr(Status::Warning, WARN_MISMATCH_COUNT))
                    } else {
                        self.containers = containers;
                        self.start()
                    }
                },
                Event::FolderUnreadable => self.fail(ERR_SONGS_DIR_READ_FAILED),
                _ => None,
            },
            Stage::Confirming => match event {
                Event::Confirmed => self.start(),
                Event::Declined => {
                    self.stage = Stage::Finished;
                    None
                },
                _ => None,
            },
            Stage::Streaming => match event {
                Event::SongArrived(song) => {
                    proof {
                        self.aggregator.lemma_reports();
                    }
                    let ghost reports = self.aggregator.reports();
                    let note = self.aggregator.receive(song);
                    if note.is_some() {
                        self.notified = Ghost(self.notified@.push(Status::Processing));
                        assert(self.notified@ =~= streaming_trace(
                            self.containers < self.expected,
                            reports + 1,
                        ));
                    }
                    note
                },
                Event::StreamEnded => {
                    let mut finished = Aggregator::new(self.threshold);
                    core::mem::swap(&mut self.aggregator, &mut finished);
                    self.stage = Stage::Finished;
                    self.notified = Ghost(self.notified@.push(Status::Done));
                    Some(finished.finish())
                },
                _ => None,
            },
            Stage::Finished => None,
        }
    }
}

} // verus!
