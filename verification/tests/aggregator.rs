use osu_data_loader::aggregator::Aggregator;
use osu_data_loader::notification::make_done;
use osu_data_loader::notification::make_dsr;
use osu_data_loader::notification::DataSetupResult;
use osu_data_loader::notification::Status;
use osu_data_loader::song::SongData;

fn numbered_song(n: u32) -> SongData {
    SongData {
        artist_ascii: Some(format!("artist {}", n)),
        artist_unicode: None,
        title_ascii: Some(format!("title {}", n)),
        title_unicode: None,
        creator: None,
        song_source: None,
        tags: None,
        length: Some(n),
        mode: Some(0),
        ranking_status: Some(4),
        last_modified: None,
    }
}

/// Feeds `total` songs and returns the progress messages and the closing
/// notification.
fn drain(threshold: usize, total: u32) -> (Vec<DataSetupResult>, DataSetupResult) {
    let mut aggregator = Aggregator::new(threshold);
    let mut progress = Vec::new();
    for n in 0..total {
        if let Some(note) = aggregator.receive(numbered_song(n)) {
            progress.push(note);
        }
    }
    (progress, aggregator.finish())
}

fn processing(count: &str) -> DataSetupResult {
    DataSetupResult {
        status: Status::Processing,
        message: Some(count.to_string()),
        songs: None,
    }
}

#[test]
fn make_dsr_carries_the_message_and_no_songs() {
    let note = make_dsr(Status::Warning, "careful");
    assert_eq!(note.status, Status::Warning);
    assert_eq!(note.message, Some("careful".to_string()));
    assert_eq!(note.songs, None);
}

#[test]
fn make_done_carries_the_songs_and_no_message() {
    let note = make_done(vec![numbered_song(1), numbered_song(2)]);
    assert_eq!(note.status, Status::Done);
    assert_eq!(note.message, None);
    assert_eq!(note.songs, Some(vec![numbered_song(1), numbered_song(2)]));
}

#[test]
fn progress_is_reported_once_per_threshold() {
    let (progress, done) = drain(3, 10);
    assert_eq!(progress, vec![processing("3"), processing("6"), processing("9")]);
    assert_eq!(done.status, Status::Done);
    assert_eq!(done.message, None);
    let songs = done.songs.unwrap();
    assert_eq!(songs.len(), 10);
    for (n, song) in songs.iter().enumerate() {
        assert_eq!(*song, numbered_song(n as u32));
    }
}

#[test]
fn progress_count_is_the_floor_of_total_by_threshold() {
    for threshold in 1usize..8 {
        for total in 0u32..30 {
            let (progress, done) = drain(threshold, total);
            assert_eq!(progress.len(), total as usize / threshold);
            assert_eq!(done.songs.unwrap().len(), total as usize);
        }
    }
}

#[test]
fn threshold_of_one_reports_every_song() {
    let (progress, done) = drain(1, 4);
    assert_eq!(
        progress,
        vec![processing("1"), processing("2"), processing("3"), processing("4")]
    );
    assert_eq!(done.songs.unwrap().len(), 4);
}

#[test]
fn threshold_above_total_reports_no_progress() {
    let (progress, done) = drain(500, 499);
    assert!(progress.is_empty());
    assert_eq!(done.songs.unwrap().len(), 499);
}

#[test]
fn threshold_reached_exactly_reports_once() {
    let (progress, done) = drain(500, 500);
    assert_eq!(progress, vec![processing("500")]);
    assert_eq!(done.songs.unwrap().len(), 500);
}

#[test]
fn default_batch_reports_every_five_hundred() {
    let (progress, done) = drain(500, 1250);
    assert_eq!(progress, vec![processing("500"), processing("1000")]);
    assert_eq!(done.songs.unwrap().len(), 1250);
}

#[test]
fn threshold_of_zero_reports_every_song() {
    let (progress, done) = drain(0, 3);
    assert_eq!(progress, vec![processing("1"), processing("2"), processing("3")]);
    assert_eq!(done.songs.unwrap().len(), 3);
}

#[test]
fn nothing_received_gives_an_empty_completion() {
    let (progress, done) = drain(5, 0);
    assert!(progress.is_empty());
    assert_eq!(
        done,
        DataSetupResult { status: Status::Done, message: None, songs: Some(vec![]) }
    );
}
