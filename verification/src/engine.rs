//! The producer side of a run: walks the catalog in order, drops what is
//! unusable or already emitted, and hands the validated songs out in
//! batches.
//!
//! The engine does not touch the file system. It says which asset a record
//! needs ([`Engine::asset_to_validate`]), is told whether that asset was
//! found ([`Engine::step`]), and returns the songs that are ready to be
//! sent.

use crate::song::identity_key;
use crate::song::project;
use crate::song::song_key;
use crate::song::song_views;
use crate::song::BeatmapRecord;
use crate::song::RecordView;
use crate::song::SongData;
use crate::song::SongView;
use vstd::hash_set::StringHashSet;
use vstd::prelude::*;
use vstd::string::*;

verus! {

/// A record put to the engine, with the validator's answer for its asset.
pub struct Offer {
    pub record: RecordView,
    /// Whether the asset that the record names was found.
    pub present: bool,
}

/// An offer can become a song: the record names its asset and the asset was
/// found.
pub open spec fn usable(offer: Offer) -> bool {
    offer.record.folder_name is Some && offer.record.audio is Some && offer.present
}

/// Offer `i` is usable, and no usable offer before it has its identity key.
pub open spec fn first_usable(offers: Seq<Offer>, i: int) -> bool {
    &&& 0 <= i < offers.len()
    &&& usable(offers[i])
    &&& forall|j: int|
        0 <= j < i && usable(#[trigger] offers[j]) ==> identity_key(offers[j].record)
            != identity_key(offers[i].record)
}

/// The positions of the offers that become songs, in ascending order: each
/// offer that is the first usable one of its identity key.
pub open spec fn sources(offers: Seq<Offer>) -> Seq<int>
    decreases offers.len(),
{
    if offers.len() == 0 {
        Seq::empty()
    } else {
        let earlier = sources(offers.drop_last());
        if first_usable(offers, offers.len() - 1) {
            earlier.push(offers.len() - 1)
        } else {
            earlier
        }
    }
}

/// The songs that a sequence of offers gives, in order.
pub open spec fn accepted(offers: Seq<Offer>) -> Seq<SongView> {
    let from = sources(offers);
    Seq::new(from.len(), |k: int| project(offers[from[k]].record))
}

/// The identity keys that a sequence of offers has marked as seen: those of
/// its usable offers.
pub open spec fn seen_keys(offers: Seq<Offer>) -> Set<Seq<char>> {
    Set::new(
        |key: Seq<char>|
            exists|i: int|
                0 <= i < offers.len() && usable(#[trigger] offers[i]) && identity_key(
                    offers[i].record,
                ) == key,
    )
}

/// A record has to be validated: its key is not marked as seen and it names
/// its asset.
pub open spec fn awaits_validation(offers: Seq<Offer>, record: RecordView) -> bool {
    &&& !seen_keys(offers).contains(identity_key(record))
    &&& record.folder_name is Some
    &&& record.audio is Some
}

/// Mathematical value of an [`Engine`].
pub struct EngineView {
    /// Batch capacity.
    pub capacity: nat,
    /// Every offer taken so far, oldest first.
    pub offers: Seq<Offer>,
    /// Every song handed out so far, oldest first.
    pub flushed: Seq<SongView>,
    /// The songs that wait in the current batch.
    pub batch: Seq<SongView>,
}

/// The number of songs in a full batch: the capacity, or one where the
/// capacity is zero.
pub open spec fn batch_size(capacity: nat) -> nat {
    if capacity == 0 {
        1
    } else {
        capacity
    }
}

/// What an engine in state `e` does with `offer`: its next state and the
/// songs it hands out. The batch leaves as a whole once it holds `capacity`
/// songs or more.
pub open spec fn take(e: EngineView, offer: Offer) -> (EngineView, Seq<SongView>) {
    let offers = e.offers.push(offer);
    if usable(offer) && !seen_keys(e.offers).contains(identity_key(offer.record)) {
        let batch = e.batch.push(project(offer.record));
        if batch.len() >= e.capacity {
            (EngineView { offers, flushed: e.flushed + batch, batch: Seq::empty(), ..e }, batch)
        } else {
            (EngineView { offers, batch, ..e }, Seq::empty())
        }
    } else {
        (EngineView { offers, ..e }, Seq::empty())
    }
}

/// Every source is the position of an offer.
pub proof fn lemma_sources_in_range(offers: Seq<Offer>)
    ensures
        forall|k: int|
            0 <= k < sources(offers).len() ==> 0 <= #[trigger] sources(offers)[k] < offers.len(),
    decreases offers.len(),
{
    if offers.len() > 0 {
        let earlier = sources(offers.drop_last());
        lemma_sources_in_range(offers.drop_last());
        assert forall|k: int| 0 <= k < sources(offers).len() implies 0 <= #[trigger] sources(
            offers,
        )[k] < offers.len() by {
            if k < earlier.len() {
                assert(sources(offers)[k] == earlier[k]);
            }
        }
    }
}

/// Whether an offer is the first usable one of its key does not depend on
/// what follows it.
proof fn lemma_first_usable_prefix(offers: Seq<Offer>, offer: Offer, i: int)
    requires
        0 <= i < offers.len(),
    ensures
        first_usable(offers.push(offer), i) == first_usable(offers, i),
{
    let longer = offers.push(offer);
    if first_usable(longer, i) {
        assert forall|j: int| 0 <= j < i && usable(#[trigger] offers[j]) implies identity_key(
            offers[j].record,
        ) != identity_key(offers[i].record) by {
            assert(longer[j] == offers[j]);
        }
    }
}

/// A new offer is the first usable one of its key exactly if it is usable
/// and its key is not marked as seen.
proof fn lemma_last_first_usable(offers: Seq<Offer>, offer: Offer)
    ensures
        first_usable(offers.push(offer), offers.len() as int) <==> usable(offer) && !seen_keys(
            offers,
        ).contains(identity_key(offer.record)),
{
    let longer = offers.push(offer);
    let n = offers.len() as int;
    let key = identity_key(offer.record);
    if usable(offer) && !seen_keys(offers).contains(key) {
        assert forall|j: int| 0 <= j < n && usable(#[trigger] longer[j]) implies identity_key(
            longer[j].record,
        ) != key by {
            assert(usable(offers[j]));
        }
    }
    if first_usable(longer, n) {
        if seen_keys(offers).contains(key) {
            let j = choose|j: int|
                0 <= j < offers.len() && usable(#[trigger] offers[j]) && identity_key(
                    offers[j].record,
                ) == key;
            assert(longer[j] == offers[j]);
        }
    }
}

/// How the sources grow with one more offer.
proof fn lemma_sources_push(offers: Seq<Offer>, offer: Offer)
    ensures
        sources(offers.push(offer)) == if usable(offer) && !seen_keys(offers).contains(
            identity_key(offer.record),
        ) {
            sources(offers).push(offers.len() as int)
        } else {
            sources(offers)
        },
{
    let longer = offers.push(offer);
    assert(longer.drop_last() =~= offers);
    lemma_last_first_usable(offers, offer);
}

/// How the songs grow with one more offer.
pub proof fn lemma_accepted_push(offers: Seq<Offer>, offer: Offer)
    ensures
        accepted(offers.push(offer)) == if usable(offer) && !seen_keys(offers).contains(
            identity_key(offer.record),
        ) {
            accepted(offers).push(project(offer.record))
        } else {
            accepted(offers)
        },
{
    let longer = offers.push(offer);
    lemma_sources_push(offers, offer);
    lemma_sources_in_range(offers);
    let from = sources(offers);
    assert forall|k: int| 0 <= k < from.len() implies longer[from[k]] == offers[from[k]] by {}
    if usable(offer) && !seen_keys(offers).contains(identity_key(offer.record)) {
        assert(accepted(longer) =~= accepted(offers).push(project(offer.record)));
    }
}

/// How the keys marked as seen grow with one more offer.
pub proof fn lemma_seen_keys_push(offers: Seq<Offer>, offer: Offer)
    ensures
        seen_keys(offers.push(offer)) == if usable(offer) {
            seen_keys(offers).insert(identity_key(offer.record))
        } else {
            seen_keys(offers)
        },
{
    let longer = offers.push(offer);
    let n = offers.len() as int;
    let grown = if usable(offer) {
        seen_keys(offers).insert(identity_key(offer.record))
    } else {
        seen_keys(offers)
    };
    assert forall|key: Seq<char>| seen_keys(longer).contains(key) implies grown.contains(key) by {
        let i = choose|i: int|
            0 <= i < longer.len() && usable(#[trigger] longer[i]) && identity_key(
                longer[i].record,
            ) == key;
        if i < n {
            assert(usable(offers[i]));
        } else {
            assert(longer[i] == offer);
        }
    }
    assert forall|key: Seq<char>| grown.contains(key) implies seen_keys(longer).contains(key) by {
        if seen_keys(offers).contains(key) {
            let i = choose|i: int|
                0 <= i < offers.len() && usable(#[trigger] offers[i]) && identity_key(
                    offers[i].record,
                ) == key;
            assert(usable(longer[i]));
        } else {
            assert(usable(longer[n]));
        }
    }
}

/// Taking an offer keeps the songs handed out and the songs in the batch
/// equal, together, to the songs that the offers give, and keeps the batch
/// below its capacity; and what is handed out at once is nothing or a whole
/// batch.
pub proof fn lemma_take_keeps_songs(e: EngineView, offer: Offer)
    requires
        e.flushed + e.batch == accepted(e.offers),
        e.batch.len() == 0 || e.batch.len() < e.capacity,
    ensures
        take(e, offer).0.flushed + take(e, offer).0.batch == accepted(take(e, offer).0.offers),
        take(e, offer).0.batch.len() == 0 || take(e, offer).0.batch.len() < e.capacity,
        take(e, offer).0.flushed == e.flushed + take(e, offer).1,
        take(e, offer).1.len() == 0 || take(e, offer).1.len() == batch_size(e.capacity),
{
    lemma_accepted_push(e.offers, offer);
}

/// The sources are in ascending order: songs come out in catalog order.
pub proof fn lemma_sources_ascending(offers: Seq<Offer>)
    ensures
        forall|a: int, b: int|
            0 <= a < b < sources(offers).len() ==> #[trigger] sources(offers)[a] < #[trigger] sources(
                offers,
            )[b],
    decreases offers.len(),
{
    if offers.len() > 0 {
        let earlier = sources(offers.drop_last());
        lemma_sources_ascending(offers.drop_last());
        lemma_sources_in_range(offers.drop_last());
        assert forall|a: int, b: int| 0 <= a < b < sources(offers).len() implies #[trigger] sources(
            offers,
        )[a] < #[trigger] sources(offers)[b] by {
            assert(sources(offers)[a] == earlier[a]);
            if b < earlier.len() {
                assert(sources(offers)[b] == earlier[b]);
            }
        }
    }
}

/// The sources are exactly the positions of the offers that are the first
/// usable one of their identity key.
pub proof fn lemma_sources_exact(offers: Seq<Offer>)
    ensures
        forall|i: int| sources(offers).contains(i) <==> first_usable(offers, i),
    decreases offers.len(),
{
    if offers.len() > 0 {
        let shorter = offers.drop_last();
        let earlier = sources(shorter);
        let n = offers.len() - 1;
        lemma_sources_exact(shorter);
        lemma_sources_in_range(shorter);
        assert(shorter.push(offers.last()) == offers);
        assert forall|i: int| sources(offers).contains(i) <==> first_usable(offers, i) by {
            if 0 <= i < n {
                lemma_first_usable_prefix(shorter, offers.last(), i);
            }
            if sources(offers).contains(i) {
                let k = choose|k: int| 0 <= k < sources(offers).len() && sources(offers)[k] == i;
                if k < earlier.len() {
                    assert(earlier[k] == i);
                }
            }
            if first_usable(offers, i) {
                if i < n {
                    let k = choose|k: int| 0 <= k < earlier.len() && earlier[k] == i;
                    assert(sources(offers)[k] == i);
                } else {
                    assert(sources(offers)[earlier.len() as int] == i);
                }
            }
        }
    }
}

/// No two songs have the same identity key.
pub proof fn lemma_accepted_keys_distinct(offers: Seq<Offer>)
    ensures
        forall|a: int, b: int|
            0 <= a < b < accepted(offers).len() ==> song_key(#[trigger] accepted(offers)[a])
                != song_key(#[trigger] accepted(offers)[b]),
{
    let from = sources(offers);
    lemma_sources_ascending(offers);
    lemma_sources_exact(offers);
    assert forall|a: int, b: int| 0 <= a < b < accepted(offers).len() implies song_key(
        #[trigger] accepted(offers)[a],
    ) != song_key(#[trigger] accepted(offers)[b]) by {
        assert(first_usable(offers, from[a]));
        assert(first_usable(offers, from[b]));
    }
}

/// Every song is the projection of a record that named its asset and whose
/// asset was found.
pub proof fn lemma_accepted_were_found(offers: Seq<Offer>)
    ensures
        forall|k: int|
            0 <= k < accepted(offers).len() ==> {
                let offer = #[trigger] offers[sources(offers)[k]];
                &&& 0 <= sources(offers)[k] < offers.len()
                &&& accepted(offers)[k] == project(offer.record)
                &&& offer.present
                &&& offer.record.folder_name is Some
                &&& offer.record.audio is Some
            },
{
    let from = sources(offers);
    lemma_sources_exact(offers);
    assert forall|k: int| 0 <= k < accepted(offers).len() implies {
        let offer = #[trigger] offers[sources(offers)[k]];
        &&& 0 <= sources(offers)[k] < offers.len()
        &&& accepted(offers)[k] == project(offer.record)
        &&& offer.present
        &&& offer.record.folder_name is Some
        &&& offer.record.audio is Some
    } by {
        assert(first_usable(offers, from[k]));
    }
}

/// The position of the first usable offer that has the identity key of the
/// usable offer `i`.
pub proof fn lemma_first_of_key(offers: Seq<Offer>, i: int) -> (first: int)
    requires
        0 <= i < offers.len(),
        usable(offers[i]),
    ensures
        0 <= first <= i,
        first_usable(offers, first),
        identity_key(offers[first].record) == identity_key(offers[i].record),
    decreases i,
{
    if first_usable(offers, i) {
        i
    } else {
        let j = choose|j: int|
            0 <= j < i && usable(#[trigger] offers[j]) && identity_key(offers[j].record)
                == identity_key(offers[i].record);
        lemma_first_of_key(offers, j)
    }
}

/// Of the usable offers that share an identity key, the first one is the
/// one that becomes a song: each usable offer has a song of its key, and
/// that song comes from the first usable offer of the key, which is at or
/// before it.
pub proof fn lemma_first_encountered_wins(offers: Seq<Offer>, i: int)
    requires
        0 <= i < offers.len(),
        usable(offers[i]),
    ensures
        exists|k: int|
            {
                &&& 0 <= k < accepted(offers).len()
                &&& song_key(#[trigger] accepted(offers)[k]) == identity_key(offers[i].record)
                &&& sources(offers)[k] <= i
                &&& first_usable(offers, sources(offers)[k])
            },
{
    let first = lemma_first_of_key(offers, i);
    lemma_sources_exact(offers);
    let k = choose|k: int| 0 <= k < sources(offers).len() && sources(offers)[k] == first;
    assert(song_key(accepted(offers)[k]) == identity_key(offers[i].record));
}

/// The validator's answer counts only where it is asked for. Two runs over
/// the same records, whose answers agree on every record that awaits
/// validation when its turn comes, give the same songs and mark the same
/// keys as seen.
pub proof fn lemma_unasked_answers_are_ignored(first: Seq<Offer>, second: Seq<Offer>)
    requires
        first.len() == second.len(),
        forall|i: int| 0 <= i < first.len() ==> (#[trigger] first[i]).record == second[i].record,
        forall|i: int|
            0 <= i < first.len() && awaits_validation(first.take(i), (#[trigger] first[i]).record)
                ==> first[i].present == second[i].present,
    ensures
        accepted(first) == accepted(second),
        seen_keys(first) == seen_keys(second),
    decreases first.len(),
{
    if first.len() > 0 {
        let n = first.len() - 1;
        let a = first.drop_last();
        let b = second.drop_last();
        assert forall|i: int|
            0 <= i < a.len() && awaits_validation(a.take(i), (#[trigger] a[i]).record) implies a[i].present
            == b[i].present by {
            assert(a.take(i) =~= first.take(i));
        }
        lemma_unasked_answers_are_ignored(a, b);
        assert(a.push(first[n]) =~= first);
        assert(b.push(second[n]) =~= second);
        lemma_accepted_push(a, first[n]);
        lemma_accepted_push(b, second[n]);
        lemma_seen_keys_push(a, first[n]);
        lemma_seen_keys_push(b, second[n]);
    }
}

/// Deduplicates and batches the validated songs of one run.
pub struct Engine {
    seen: StringHashSet,
    batch: Vec<SongData>,
    capacity: usize,
    offers: Ghost<Seq<Offer>>,
    flushed: Ghost<Seq<SongView>>,
}

impl View for Engine {
    type V = EngineView;

    closed spec fn view(&self) -> EngineView {
        EngineView {
            capacity: self.capacity as nat,
            offers: self.offers@,
            flushed: self.flushed@,
            batch: song_views(self.batch@),
        }
    }
}

impl Engine {
    /// The keys marked as seen are those of the usable offers; the songs
    /// handed out and those in the batch are, together, the songs that the
    /// offers give; and a batch that has reached its capacity has left.
    pub closed spec fn wf(&self) -> bool {
        &&& self.seen@ == seen_keys(self.offers@)
        &&& self.flushed@ + song_views(self.batch@) == accepted(self.offers@)
        &&& self.batch@.len() == 0 || self.batch@.len() < self.capacity
    }

    /// What the engine has handed out and what waits in its batch are,
    /// together, the songs that its offers give, whatever its capacity; and
    /// the batch is below the capacity unless it is empty.
    pub proof fn lemma_songs_so_far(&self)
        requires
            self.wf(),
        ensures
            self@.flushed + self@.batch == accepted(self@.offers),
            self@.batch.len() == 0 || self@.batch.len() < self@.capacity,
    {
    }

    /// A run is determined by its offers: two engines that took the same
    /// offers hold the same songs in the same order, whatever their
    /// capacities.
    pub proof fn lemma_run_is_determined(&self, other: &Engine)
        requires
            self.wf(),
            other.wf(),
            self@.offers == other@.offers,
        ensures
            self@.flushed + self@.batch == other@.flushed + other@.batch,
    {
    }

    /// An engine that has taken no offer and flushes batches of `capacity`
    /// songs.
    pub fn new(capacity: usize) -> (engine: Engine)
        ensures
            engine.wf(),
            engine@ == (EngineView {
                capacity: capacity as nat,
                offers: Seq::empty(),
                flushed: Seq::empty(),
                batch: Seq::empty(),
            }),
    {
        let engine = Engine {
            seen: StringHashSet::new(),
            batch: Vec::new(),
            capacity,
            offers: Ghost(Seq::empty()),
            flushed: Ghost(Seq::empty()),
        };
        assert(engine.seen@ =~= seen_keys(engine.offers@));
        assert(engine.flushed@ + song_views(engine.batch@) =~= accepted(engine.offers@));
        engine
    }

    /// The asset that has to be validated before `record` can be taken: its
    /// folder and its audio file name. `None` where the record is skipped
    /// whatever the validator would say, because its key is marked as seen
    /// or it does not name its asset.
    pub fn asset_to_validate<'a>(&self, record: &BeatmapRecord<'a>) -> (asset: Option<
        (&'a str, &'a str),
    >)
        requires
            self.wf(),
        ensures
            asset is Some <==> awaits_validation(self@.offers, record@),
            asset matches Some((folder, audio)) ==> record@.folder_name == Some(folder@)
                && record@.audio == Some(audio@),
    {
        let key = record.identity_key();
        if self.seen.contains(key.as_str()) {
            return None;
        }
        match (record.folder_name, record.audio) {
            (Some(folder), Some(audio)) => Some((folder, audio)),
            _ => None,
        }
    }

    /// Takes the next record of the catalog with the validator's answer.
    /// The answer counts only where [`Engine::asset_to_validate`] asks for
    /// one. Returns the songs to send now, in order: the whole batch once it
    /// is full, nothing otherwise.
    pub fn step(&mut self, record: &BeatmapRecord<'_>, present: bool) -> (out: Vec<SongData>)
        requires
            old(self).wf(),
        ensures
            final(self).wf(),
            (final(self)@, song_views(out@)) == take(
                old(self)@,
                Offer { record: record@, present },
            ),
            out@.len() == 0 || out@.len() == batch_size(old(self)@.capacity),
    {
        let ghost offer = Offer { record: record@, present };
        proof {
            lemma_seen_keys_push(self.offers@, offer);
            lemma_accepted_push(self.offers@, offer);
        }
        let key = record.identity_key();
        let skip = self.seen.contains(key.as_str()) || record.folder_name.is_none()
            || record.audio.is_none() || !present;
        self.offers = Ghost(self.offers@.push(offer));
        if skip {
            let out: Vec<SongData> = Vec::new();
            assert(self.seen@ =~= seen_keys(self.offers@));
            return out;
        }
        self.seen.insert(key);
        let song = SongData::from_record(record);
        self.batch.push(song);
        assert(song_views(self.batch@) =~= song_views(old(self).batch@).push(project(record@)));
        let mut out: Vec<SongData> = Vec::new();
        if self.batch.len() >= self.capacity {
            core::mem::swap(&mut self.batch, &mut out);
            self.flushed = Ghost(self.flushed@ + song_views(out@));
            assert(song_views(self.batch@) =~= Seq::<SongView>::empty());
        }
        out
    }

    /// Ends the run: returns the songs left in the batch, which are the last
    /// to send before the stream is closed.
    pub fn finish(self) -> (rest: Vec<SongData>)
        requires
            self.wf(),
        ensures
            song_views(rest@) == self@.batch,
            self@.flushed + song_views(rest@) == accepted(self@.offers),
    {
        self.batch
    }
}

} // verus!
