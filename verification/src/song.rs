//! Catalog records, the song entries derived from them, and the identity key
//! by which two records count as the same song.

use vstd::prelude::*;
use vstd::string::*;

verus! {

/// A point in time: whole seconds since the Unix epoch and the nanoseconds
/// past that second. The library carries it from a record to its song
/// unread.
#[derive(Clone, Copy, Debug, PartialEq, Eq, Structural)]
pub struct Timestamp {
    pub seconds: i64,
    pub nanoseconds: u32,
}

/// One beatmap entry of the catalog, reduced to what a run reads. The texts
/// stay with the catalog; a record only borrows them.
#[derive(Clone, Copy, Debug, PartialEq, Eq)]
pub struct BeatmapRecord<'a> {
    pub artist_ascii: Option<&'a str>,
    pub artist_unicode: Option<&'a str>,
    pub title_ascii: Option<&'a str>,
    pub title_unicode: Option<&'a str>,
    pub creator: Option<&'a str>,
    pub song_source: Option<&'a str>,
    pub tags: Option<&'a str>,
    /// Folder of the beatmap set, relative to the songs folder.
    pub folder_name: Option<&'a str>,
    /// Audio file name inside `folder_name`.
    pub audio: Option<&'a str>,
    /// Ranked status code.
    pub status: u8,
    /// Game mode code.
    pub mode: u8,
    /// Duration in milliseconds.
    pub total_time: u32,
    pub last_modified: Timestamp,
}

/// A validated, playable song: the metadata of the record it came from,
/// without the asset location.
#[derive(Clone, Debug, PartialEq, Eq)]
pub struct SongData {
    pub artist_ascii: Option<String>,
    pub artist_unicode: Option<String>,
    pub title_ascii: Option<String>,
    pub title_unicode: Option<String>,
    pub creator: Option<String>,
    pub song_source: Option<String>,
    pub tags: Option<String>,
    /// Duration in milliseconds.
    pub length: Option<u32>,
    pub mode: Option<u8>,
    pub ranking_status: Option<u8>,
    pub last_modified: Option<Timestamp>,
}

/// Mathematical value of a [`BeatmapRecord`].
pub struct RecordView {
    pub artist_ascii: Option<Seq<char>>,
    pub artist_unicode: Option<Seq<char>>,
    pub title_ascii: Option<Seq<char>>,
    pub title_unicode: Option<Seq<char>>,
    pub creator: Option<Seq<char>>,
    pub song_source: Option<Seq<char>>,
    pub tags: Option<Seq<char>>,
    pub folder_name: Option<Seq<char>>,
    pub audio: Option<Seq<char>>,
    pub status: u8,
    pub mode: u8,
    pub total_time: u32,
    pub last_modified: Timestamp,
}

/// Mathematical value of a [`SongData`].
pub struct SongView {
    pub artist_ascii: Option<Seq<char>>,
    pub artist_unicode: Option<Seq<char>>,
    pub title_ascii: Option<Seq<char>>,
    pub title_unicode: Option<Seq<char>>,
    pub creator: Option<Seq<char>>,
    pub song_source: Option<Seq<char>>,
    pub tags: Option<Seq<char>>,
    pub length: Option<u32>,
    pub mode: Option<u8>,
    pub ranking_status: Option<u8>,
    pub last_modified: Option<Timestamp>,
}

/// The characters of an optional text.
pub open spec fn text_of(field: Option<String>) -> Option<Seq<char>> {
    match field {
        Some(text) => Some(text@),
        None => None,
    }
}

/// The characters of an optional borrowed text.
pub open spec fn borrowed_text_of(field: Option<&str>) -> Option<Seq<char>> {
    match field {
        Some(text) => Some(text@),
        None => None,
    }
}

impl<'a> View for BeatmapRecord<'a> {
    type V = RecordView;

    open spec fn view(&self) -> RecordView {
        RecordView {
            artist_ascii: borrowed_text_of(self.artist_ascii),
            artist_unicode: borrowed_text_of(self.artist_unicode),
            title_ascii: borrowed_text_of(self.title_ascii),
            title_unicode: borrowed_text_of(self.title_unicode),
            creator: borrowed_text_of(self.creator),
            song_source: borrowed_text_of(self.song_source),
            tags: borrowed_text_of(self.tags),
            folder_name: borrowed_text_of(self.folder_name),
            audio: borrowed_text_of(self.audio),
            status: self.status,
            mode: self.mode,
            total_time: self.total_time,
            last_modified: self.last_modified,
        }
    }
}

impl View for SongData {
    type V = SongView;

    open spec fn view(&self) -> SongView {
        SongView {
            artist_ascii: text_of(self.artist_ascii),
            artist_unicode: text_of(self.artist_unicode),
            title_ascii: text_of(self.title_ascii),
            title_unicode: text_of(self.title_unicode),
            creator: text_of(self.creator),
            song_source: text_of(self.song_source),
            tags: text_of(self.tags),
            length: self.length,
            mode: self.mode,
            ranking_status: self.ranking_status,
            last_modified: self.last_modified,
        }
    }
}

/// The values of a sequence of songs, in the same order.
pub open spec fn song_views(songs: Seq<SongData>) -> Seq<SongView> {
    Seq::new(songs.len(), |i: int| songs[i]@)
}

/// The key made of an artist and a title, each replaced by a placeholder
/// where it is absent.
pub open spec fn key_of(artist: Option<Seq<char>>, title: Option<Seq<char>>) -> Seq<char> {
    let artist_part = match artist {
        Some(name) => name,
        None => "artist unknown"@,
    };
    let title_part = match title {
        Some(name) => name,
        None => "title unknown"@,
    };
    artist_part + " == "@ + title_part
}

/// The identity key of a record: two records with the same key are the same
/// song.
pub open spec fn identity_key(record: RecordView) -> Seq<char> {
    key_of(record.artist_ascii, record.title_ascii)
}

/// The identity key of a song, which is that of the record it came from.
pub open spec fn song_key(song: SongView) -> Seq<char> {
    key_of(song.artist_ascii, song.title_ascii)
}

/// The song that a record stands for.
pub open spec fn project(record: RecordView) -> SongView {
    SongView {
        artist_ascii: record.artist_ascii,
        artist_unicode: record.artist_unicode,
        title_ascii: record.title_ascii,
        title_unicode: record.title_unicode,
        creator: record.creator,
        song_source: record.song_source,
        tags: record.tags,
        length: Some(record.total_time),
        mode: Some(record.mode),
        ranking_status: Some(record.status),
        last_modified: Some(record.last_modified),
    }
}

/// An owned copy of an optional borrowed text.
fn own_text(field: Option<&str>) -> (copy: Option<String>)
    ensures
        text_of(copy) == borrowed_text_of(field),
{
    match field {
        Some(text) => Some(String::from_str(text)),
        None => None,
    }
}

impl<'a> BeatmapRecord<'a> {
    /// Computes the identity key of the record.
    pub fn identity_key(&self) -> (key: String)
        ensures
            key@ == identity_key(self@),
    {
        let artist: &str = match self.artist_ascii {
            Some(name) => name,
            None => "artist unknown",
        };
        let title: &str = match self.title_ascii {
            Some(name) => name,
            None => "title unknown",
        };
        let mut key = String::from_str(artist);
        key.append(" == ");
        key.append(title);
        key
    }
}

impl SongData {
    /// Builds the song of a record, copying its metadata.
    pub fn from_record(record: &BeatmapRecord<'_>) -> (song: SongData)
        ensures
            song@ == project(record@),
    {
        SongData {
            artist_ascii: own_text(record.artist_ascii),
            artist_unicode: own_text(record.artist_unicode),
            title_ascii: own_text(record.title_ascii),
            title_unicode: own_text(record.title_unicode),
            creator: own_text(record.creator),
            song_source: own_text(record.song_source),
            tags: own_text(record.tags),
            length: Some(record.total_time),
            mode: Some(record.mode),
            ranking_status: Some(record.status),
            last_modified: Some(record.last_modified),
        }
    }
}

} // verus!
