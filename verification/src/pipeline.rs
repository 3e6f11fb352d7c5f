//! A run as a whole: what the observer is handed when the songs that the
//! engine gives reach the session in the order in which they were handed
//! out.

use crate::engine::accepted;
use crate::engine::lemma_accepted_keys_distinct;
use crate::engine::lemma_accepted_were_found;
use crate::engine::sources;
use crate::engine::usable;
use crate::engine::Offer;
use crate::notification::completion;
use crate::session::after_songs;
use crate::session::lemma_whole_stream;
use crate::session::orderly;
use crate::session::react;
use crate::session::Event;
use crate::session::SessionView;
use crate::session::Stage;
use crate::song::project;
use crate::song::song_key;
use crate::song::song_views;
use crate::song::SongData;
use vstd::prelude::*;

verus! {

/// When the songs that a catalog gives arrive at a session that has just
/// started streaming, and the stream then ends, the run is over and the
/// closing notification carries exactly these songs: no two of them have
/// the same identity key, and each is the projection of a record that named
/// its asset and whose asset was found.
pub proof fn lemma_run_delivers_the_accepted_songs(
    offers: Seq<Offer>,
    s: SessionView,
    songs: Seq<SongData>,
)
    requires
        orderly(s),
        s.stage == Stage::Streaming,
        s.received.len() == 0,
        song_views(songs) == accepted(offers),
    ensures
        react(after_songs(s, songs), Event::StreamEnded).1 == Some(completion(accepted(offers))),
        react(after_songs(s, songs), Event::StreamEnded).0.stage == Stage::Finished,
        forall|a: int, b: int|
            0 <= a < b < songs.len() ==> song_key((#[trigger] songs[a])@) != song_key(
                (#[trigger] songs[b])@,
            ),
        forall|k: int|
            0 <= k < songs.len() ==> {
                let i = sources(offers)[k];
                &&& 0 <= i < offers.len()
                &&& usable(offers[i])
                &&& (#[trigger] songs[k])@ == project(offers[i].record)
            },
{
    lemma_whole_stream(s, songs);
    lemma_accepted_keys_distinct(offers);
    lemma_accepted_were_found(offers);
    assert forall|a: int, b: int| 0 <= a < b < songs.len() implies song_key(
        (#[trigger] songs[a])@,
    ) != song_key((#[trigger] songs[b])@) by {
        assert(song_views(songs)[a] == songs[a]@);
        assert(song_views(songs)[b] == songs[b]@);
    }
    assert forall|k: int| 0 <= k < songs.len() implies {
        let i = sources(offers)[k];
        &&& 0 <= i < offers.len()
        &&& usable(offers[i])
        &&& (#[trigger] songs[k])@ == project(offers[i].record)
    } by {
        assert(song_views(songs)[k] == songs[k]@);
        assert(usable(offers[sources(offers)[k]]));
    }
}

} // verus!
