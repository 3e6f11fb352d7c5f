//! Progress notifications: what a run reports to its observer.

use crate::song::song_views;
use crate::song::SongData;
use crate::song::SongView;
use vstd::prelude::*;
use vstd::string::*;

verus! {

/// Name of the event under which every notification is delivered.
pub const EVENT_DATA_SETUP_RESULT: &'static str = "data-setup-result";

pub const ERR_NO_FILE_SELECTED: &'static str = "No file selected";

pub const ERR_PATH_EXTRACT_FAILED: &'static str = "Failed to extract path from the selected file";

pub const ERR_OSU_DB_PARSE_FAILED: &'static str = "Failed to parse osu!.db";

pub const ERR_OSU_DB_EMPTY: &'static str = "No song information found inside osu!.db";

pub const ERR_SONGS_DIR_READ_FAILED: &'static str = "Songs folder is unreadable";

pub const ERR_SONGS_DIR_EMPTY: &'static str = "Songs folder is empty";

pub const WARN_MISMATCH_COUNT: &'static str =
    "Songs folder contains a different number of songs than the osu!.db file";

/// The kind of a notification.
#[derive(Clone, Copy, Debug, PartialEq, Eq, Structural)]
pub enum Status {
    /// Something is off, but the run may go on.
    Warning,
    /// The run has failed and is over.
    Error,
    /// Processing has started.
    Started,
    /// Processing goes on; the message carries the number of songs so far.
    Processing,
    /// The run is complete; the notification carries every song.
    Done,
}

/// One notification: its kind, an optional message and, when the run is
/// complete, the songs it produced.
#[derive(Clone, Debug, PartialEq, Eq)]
pub struct DataSetupResult {
    pub status: Status,
    pub message: Option<String>,
    pub songs: Option<Vec<SongData>>,
}

/// Mathematical value of a [`DataSetupResult`].
pub struct NotificationView {
    pub status: Status,
    pub message: Option<Seq<char>>,
    pub songs: Option<Seq<SongView>>,
}

impl View for DataSetupResult {
    type V = NotificationView;

    open spec fn view(&self) -> NotificationView {
        NotificationView {
            status: self.status,
            message: match self.message {
                Some(text) => Some(text@),
                None => None,
            },
            songs: match self.songs {
                Some(list) => Some(song_views(list@)),
                None => None,
            },
        }
    }
}

/// The notification of kind `status` that carries `message` and no songs.
pub open spec fn message_only(status: Status, message: Seq<char>) -> NotificationView {
    NotificationView { status, message: Some(message), songs: None }
}

/// The closing notification of a run that produced `songs`.
pub open spec fn completion(songs: Seq<SongView>) -> NotificationView {
    NotificationView { status: Status::Done, message: None, songs: Some(songs) }
}

/// Builds a notification that carries a message and no songs.
pub fn make_dsr(status: Status, msg: &str) -> (result: DataSetupResult)
    ensures
        result@ == message_only(status, msg@),
{
    DataSetupResult { status, message: Some(String::from_str(msg)), songs: None }
}

/// Builds the closing notification of a run.
pub fn make_done(songs: Vec<SongData>) -> (result: DataSetupResult)
    ensures
        result@ == completion(song_views(songs@)),
{
    DataSetupResult { status: Status::Done, message: None, songs: Some(songs) }
}

} // verus!
