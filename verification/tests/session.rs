use osu_data_loader::notification::DataSetupResult;
use osu_data_loader::notification::Status;
use osu_data_loader::notification::ERR_NO_FILE_SELECTED;
use osu_data_loader::notification::ERR_OSU_DB_EMPTY;
use osu_data_loader::notification::ERR_OSU_DB_PARSE_FAILED;
use osu_data_loader::notification::ERR_PATH_EXTRACT_FAILED;
use osu_data_loader::notification::ERR_SONGS_DIR_EMPTY;
use osu_data_loader::notification::ERR_SONGS_DIR_READ_FAILED;
use osu_data_loader::notification::EVENT_DATA_SETUP_RESULT;
use osu_data_loader::notification::WARN_MISMATCH_COUNT;
use osu_data_loader::session::Event;
use osu_data_loader::session::Session;
use osu_data_loader::session::Stage;
use osu_data_loader::song::SongData;
use osu_data_loader::CHANNEL_CAPACITY;
use osu_data_loader::SONGS_PROCESS_WORKER_BATCH_SIZE;

fn song(n: u32) -> SongData {
    SongData {
        artist_ascii: Some(format!("artist {}", n)),
        artist_unicode: None,
        title_ascii: Some(format!("title {}", n)),
        title_unicode: None,
        creator: None,
        song_source: None,
        tags: None,
        length: Some(n),
        mode: Some(1),
        ranking_status: Some(5),
        last_modified: None,
    }
}

fn note(status: Status, message: &str) -> Option<DataSetupResult> {
    Some(DataSetupResult { status, message: Some(message.to_string()), songs: None })
}

/// Feeds the events in turn and returns every notification issued.
fn play(session: &mut Session, events: Vec<Event>) -> Vec<DataSetupResult> {
    let mut notes = Vec::new();
    for event in events {
        if let Some(n) = session.advance(event) {
            notes.push(n);
        }
    }
    notes
}

fn streaming_session(threshold: usize) -> Session {
    let mut session = Session::new(threshold);
    let notes = play(
        &mut session,
        vec![
            Event::PathChosen,
            Event::CatalogLoaded { folder_count: 3 },
            Event::DefaultFolderFound,
            Event::FolderCounted { containers: 3 },
        ],
    );
    assert_eq!(notes.len(), 1);
    assert_eq!(session.stage(), Stage::Streaming);
    session
}

#[test]
fn the_messages_are_the_documented_texts() {
    assert_eq!(EVENT_DATA_SETUP_RESULT, "data-setup-result");
    assert_eq!(ERR_NO_FILE_SELECTED, "No file selected");
    assert_eq!(ERR_PATH_EXTRACT_FAILED, "Failed to extract path from the selected file");
    assert_eq!(ERR_OSU_DB_PARSE_FAILED, "Failed to parse osu!.db");
    assert_eq!(ERR_OSU_DB_EMPTY, "No song information found inside osu!.db");
    assert_eq!(ERR_SONGS_DIR_READ_FAILED, "Songs folder is unreadable");
    assert_eq!(ERR_SONGS_DIR_EMPTY, "Songs folder is empty");
    assert_eq!(
        WARN_MISMATCH_COUNT,
        "Songs folder contains a different number of songs than the osu!.db file"
    );
}

#[test]
fn the_channel_holds_two_batches() {
    assert_eq!(SONGS_PROCESS_WORKER_BATCH_SIZE, 500);
    assert_eq!(CHANNEL_CAPACITY, 1000);
}

#[test]
fn a_new_session_waits_for_the_catalog() {
    let session = Session::new(500);
    assert_eq!(session.stage(), Stage::ChoosingCatalog);
    assert_eq!(session.expected(), 0);
    assert_eq!(session.containers(), 0);
}

#[test]
fn no_catalog_chosen_is_an_error() {
    let mut session = Session::new(500);
    assert_eq!(
        session.advance(Event::NothingChosen),
        note(Status::Error, "No file selected")
    );
    assert_eq!(session.stage(), Stage::Finished);
}

#[test]
fn a_catalog_choice_without_path_is_an_error() {
    let mut session = Session::new(500);
    assert_eq!(
        session.advance(Event::PathUnavailable),
        note(Status::Error, "Failed to extract path from the selected file")
    );
    assert_eq!(session.stage(), Stage::Finished);
}

#[test]
fn an_unreadable_catalog_is_an_error() {
    let mut session = Session::new(500);
    assert_eq!(session.advance(Event::PathChosen), None);
    assert_eq!(session.stage(), Stage::LoadingCatalog);
    assert_eq!(
        session.advance(Event::CatalogUnreadable),
        note(Status::Error, "Failed to parse osu!.db")
    );
    assert_eq!(session.stage(), Stage::Finished);
}

#[test]
fn an_empty_catalog_gives_a_single_error_and_nothing_else() {
    let mut session = Session::new(500);
    let notes = play(
        &mut session,
        vec![
            Event::PathChosen,
            Event::CatalogLoaded { folder_count: 0 },
            Event::DefaultFolderFound,
            Event::FolderCounted { containers: 5 },
            Event::Confirmed,
            Event::SongArrived(song(1)),
            Event::StreamEnded,
        ],
    );
    assert_eq!(
        notes,
        vec![DataSetupResult {
            status: Status::Error,
            message: Some("No song information found inside osu!.db".to_string()),
            songs: None,
        }]
    );
    assert_eq!(session.stage(), Stage::Finished);
}

#[test]
fn a_missing_default_folder_asks_the_user_for_one() {
    let mut session = Session::new(500);
    play(&mut session, vec![Event::PathChosen, Event::CatalogLoaded { folder_count: 2 }]);
    assert_eq!(session.stage(), Stage::LocatingSongs);
    assert_eq!(session.expected(), 2);
    assert_eq!(session.advance(Event::DefaultFolderMissing), None);
    assert_eq!(session.stage(), Stage::ChoosingSongs);
    assert_eq!(session.advance(Event::PathChosen), None);
    assert_eq!(session.stage(), Stage::CountingSongs);
}

#[test]
fn no_songs_folder_chosen_is_an_error() {
    let mut session = Session::new(500);
    play(
        &mut session,
        vec![
            Event::PathChosen,
            Event::CatalogLoaded { folder_count: 2 },
            Event::DefaultFolderMissing,
        ],
    );
    assert_eq!(
        session.advance(Event::NothingChosen),
        note(Status::Error, "No file selected")
    );
    assert_eq!(session.stage(), Stage::Finished);
}

#[test]
fn a_songs_folder_choice_without_path_is_an_error() {
    let mut session = Session::new(500);
    play(
        &mut session,
        vec![
            Event::PathChosen,
            Event::CatalogLoaded { folder_count: 2 },
            Event::DefaultFolderMissing,
        ],
    );
    assert_eq!(
        session.advance(Event::PathUnavailable),
        note(Status::Error, "Failed to extract path from the selected file")
    );
    assert_eq!(session.stage(), Stage::Finished);
}

#[test]
fn an_unreadable_songs_folder_is_an_error() {
    let mut session = Session::new(500);
    play(
        &mut session,
        vec![Event::PathChosen, Event::CatalogLoaded { folder_count: 2 }, Event::DefaultFolderFound],
    );
    assert_eq!(session.stage(), Stage::CountingSongs);
    assert_eq!(
        session.advance(Event::FolderUnreadable),
        note(Status::Error, "Songs folder is unreadable")
    );
    assert_eq!(session.stage(), Stage::Finished);
}

#[test]
fn an_empty_songs_folder_is_an_error() {
    let mut session = Session::new(500);
    play(
        &mut session,
        vec![Event::PathChosen, Event::CatalogLoaded { folder_count: 2 }, Event::DefaultFolderFound],
    );
    assert_eq!(
        session.advance(Event::FolderCounted { containers: 0 }),
        note(Status::Error, "Songs folder is empty")
    );
    assert_eq!(session.stage(), Stage::Finished);
}

#[test]
fn matching_counts_start_the_run_with_the_expected_count() {
    let mut session = Session::new(500);
    let notes = play(
        &mut session,
        vec![
            Event::PathChosen,
            Event::CatalogLoaded { folder_count: 1234 },
            Event::DefaultFolderFound,
            Event::FolderCounted { containers: 1234 },
        ],
    );
    assert_eq!(notes, vec![note(Status::Started, "1234").unwrap()]);
    assert_eq!(session.stage(), Stage::Streaming);
    assert_eq!(session.containers(), 1234);
}

#[test]
fn more_containers_than_expected_start_the_run_without_warning() {
    let mut session = Session::new(500);
    let notes = play(
        &mut session,
        vec![
            Event::PathChosen,
            Event::CatalogLoaded { folder_count: 10 },
            Event::DefaultFolderFound,
            Event::FolderCounted { containers: 11 },
        ],
    );
    assert_eq!(notes, vec![note(Status::Started, "10").unwrap()]);
    assert_eq!(session.stage(), Stage::Streaming);
}

#[test]
fn fewer_containers_warn_before_the_start() {
    let mut session = Session::new(500);
    let notes = play(
        &mut session,
        vec![
            Event::PathChosen,
            Event::CatalogLoaded { folder_count: 10 },
            Event::DefaultFolderFound,
            Event::FolderCounted { containers: 9 },
        ],
    );
    assert_eq!(
        notes,
        vec![note(
            Status::Warning,
            "Songs folder contains a different number of songs than the osu!.db file"
        )
        .unwrap()]
    );
    assert_eq!(session.stage(), Stage::Confirming);
    assert_eq!(
        session.confirmation_prompt(),
        "The number of songs in your osu!db (10) does not match the number of songs in your Songs folder (9). Continue anyway?\n"
    );
    assert_eq!(session.advance(Event::Confirmed), note(Status::Started, "10"));
    assert_eq!(session.stage(), Stage::Streaming);
    let rest = play(&mut session, vec![Event::SongArrived(song(1)), Event::StreamEnded]);
    assert_eq!(rest.len(), 1);
    assert_eq!(rest[0].status, Status::Done);
}

#[test]
fn declining_ends_the_run_without_any_further_notification() {
    let mut session = Session::new(500);
    let notes = play(
        &mut session,
        vec![
            Event::PathChosen,
            Event::CatalogLoaded { folder_count: 10 },
            Event::DefaultFolderFound,
            Event::FolderCounted { containers: 9 },
            Event::Declined,
            Event::Confirmed,
            Event::SongArrived(song(1)),
            Event::StreamEnded,
        ],
    );
    assert_eq!(notes.len(), 1);
    assert_eq!(notes[0].status, Status::Warning);
    assert_eq!(session.stage(), Stage::Finished);
}

#[test]
fn a_run_reports_progress_and_completes_with_every_song() {
    let mut session = streaming_session(2);
    let mut notes = Vec::new();
    for n in 0..5 {
        if let Some(progress) = session.advance(Event::SongArrived(song(n))) {
            notes.push(progress);
        }
    }
    assert_eq!(
        notes,
        vec![note(Status::Processing, "2").unwrap(), note(Status::Processing, "4").unwrap()]
    );
    assert_eq!(session.stage(), Stage::Streaming);
    let done = session.advance(Event::StreamEnded).unwrap();
    assert_eq!(
        done,
        DataSetupResult {
            status: Status::Done,
            message: None,
            songs: Some(vec![song(0), song(1), song(2), song(3), song(4)]),
        }
    );
    assert_eq!(session.stage(), Stage::Finished);
}

#[test]
fn a_closed_stream_without_songs_completes_with_an_empty_list() {
    let mut session = streaming_session(500);
    assert_eq!(
        session.advance(Event::StreamEnded),
        Some(DataSetupResult { status: Status::Done, message: None, songs: Some(vec![]) })
    );
    assert_eq!(session.stage(), Stage::Finished);
}

#[test]
fn a_finished_session_stays_silent() {
    let mut session = streaming_session(1);
    assert!(session.advance(Event::StreamEnded).is_some());
    let notes = play(
        &mut session,
        vec![
            Event::SongArrived(song(1)),
            Event::StreamEnded,
            Event::PathChosen,
            Event::NothingChosen,
            Event::CatalogUnreadable,
            Event::FolderUnreadable,
            Event::Confirmed,
            Event::Declined,
        ],
    );
    assert!(notes.is_empty());
    assert_eq!(session.stage(), Stage::Finished);
}

#[test]
fn an_event_that_answers_nothing_is_ignored() {
    let mut session = Session::new(500);
    let ignored = play(
        &mut session,
        vec![
            Event::CatalogLoaded { folder_count: 3 },
            Event::DefaultFolderFound,
            Event::FolderCounted { containers: 3 },
            Event::Confirmed,
            Event::SongArrived(song(1)),
            Event::StreamEnded,
        ],
    );
    assert!(ignored.is_empty());
    assert_eq!(session.stage(), Stage::ChoosingCatalog);
    assert_eq!(session.expected(), 0);
    let mut streaming = streaming_session(500);
    assert_eq!(streaming.advance(Event::PathChosen), None);
    assert_eq!(streaming.advance(Event::Declined), None);
    assert_eq!(streaming.stage(), Stage::Streaming);
}

#[test]
fn exactly_one_closing_notification_ends_a_complete_run() {
    for threshold in [0usize, 1, 3, 500] {
        for total in [0u32, 1, 3, 7] {
            let mut session = streaming_session(threshold);
            let mut kinds = vec![Status::Started];
            for n in 0..total {
                if let Some(progress) = session.advance(Event::SongArrived(song(n))) {
                    kinds.push(progress.status);
                }
            }
            let done = session.advance(Event::StreamEnded).unwrap();
            kinds.push(done.status);
            assert_eq!(done.songs.unwrap().len(), total as usize);
            let step = if threshold == 0 { 1 } else { threshold };
            let mut expected = vec![Status::Started];
            for _ in 0..(total as usize / step) {
                expected.push(Status::Processing);
            }
            expected.push(Status::Done);
            assert_eq!(kinds, expected);
        }
    }
}

#[test]
fn the_prompt_names_both_counts() {
    let mut session = Session::new(500);
    play(
        &mut session,
        vec![
            Event::PathChosen,
            Event::CatalogLoaded { folder_count: 4294967295 },
            Event::DefaultFolderFound,
            Event::FolderCounted { containers: 1 },
        ],
    );
    assert_eq!(session.stage(), Stage::Confirming);
    assert_eq!(
        session.confirmation_prompt(),
        "The number of songs in your osu!db (4294967295) does not match the number of songs in your Songs folder (1). Continue anyway?\n"
    );
}
