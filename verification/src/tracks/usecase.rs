//! The track-list lifecycle: retrieval, saving with id assignment, and
//! the dispatch of one stem-separation job per qualifying track.
//!
//! As in the song usecase, each operation is a short sequence of
//! decisions between external calls; the embedding runtime performs the
//! call an outcome asks for and feeds the result into the next function.

use crate::ident;
use crate::songs::entity::Song;
use crate::store::StoreError;
use crate::tracks::entity::{is_split_type, stamped, Track, TrackList};
use crate::users::entity::User;
use vstd::prelude::*;

verus! {

/// One domain error of the track usecase.
#[derive(Debug)]
pub enum Error {
    /// A structurally invalid identifier was supplied where one is
    /// required.
    InvalidIDError { id: String },
    /// The identity token could not be verified.
    GoogleVerificationError { msg: String },
    /// The authenticated identity does not own the song.
    WrongOwnerError,
    /// The track store failed.
    DatastoreError { msg: String },
    /// The song this track list belongs to could not be fetched.
    GetSongError { source: StoreError },
    /// A job message could not be enqueued after a successful save.
    PublishError { msg: String },
}

/// One pending stem-separation job: which track of which track list to
/// split.
pub struct SplitRequestTrack {
    pub tracklist_id: String,
    pub track_id: String,
}

/// The first step of fetching a track list: either the id can be looked
/// up, or the request is already settled.
pub enum GetTrackListStep {
    /// Ask the store for this song's track list.
    Fetch { id: String },
    /// Done without touching the store.
    Done { tracklist: TrackList },
}

/// Decides whether a track-list lookup is worth a store round-trip. An
/// id that is not a well-formed UUID cannot name a stored song, so its
/// (necessarily absent) track list is answered as the empty list without
/// invoking the store.
pub fn get_tracklist_plan(song_id: &str) -> (r: GetTrackListStep)
    ensures
        ident::is_valid_uuid(song_id@) ==> (r matches GetTrackListStep::Fetch { id } && id@
            == song_id@),
        !ident::is_valid_uuid(song_id@) ==> (r matches GetTrackListStep::Done { tracklist }
            && tracklist.song_id@ == song_id@ && tracklist.tracks@.len() == 0),
{
    if !ident::is_uuid_str(song_id) {
        GetTrackListStep::Done { tracklist: TrackList::empty(song_id) }
    } else {
        GetTrackListStep::Fetch { id: song_id.to_owned() }
    }
}

/// Settles a track-list fetch. Absence is a valid state — "no tracks
/// yet" — and becomes the empty list, never an error.
pub fn get_tracklist_finish(song_id: &str, fetched: Result<TrackList, StoreError>) -> (r: Result<
    TrackList,
    Error,
>)
    ensures
        fetched matches Ok(tl) ==> (r matches Ok(t) && t == tl),
        fetched matches Err(StoreError::NotFound) ==> (r matches Ok(t) && t.song_id@ == song_id@
            && t.tracks@.len() == 0),
        fetched matches Err(StoreError::Infra { detail }) ==> (r matches Err(
            Error::DatastoreError { msg },
        ) && msg@ == detail@),
        fetched matches Err(StoreError::AlreadyExists) ==> (r matches Err(e)
            && e is DatastoreError),
{
    match fetched {
        Ok(tl) => Ok(tl),
        Err(StoreError::NotFound) => Ok(TrackList::empty(song_id)),
        Err(StoreError::Infra { detail }) => Err(Error::DatastoreError { msg: detail }),
        Err(StoreError::AlreadyExists) => Err(Error::DatastoreError {
            msg: "Failed to get track from data store".to_owned(),
        }),
    }
}

/// Decides a save request before any external call: the incoming track
/// list must name its song, and must name the same song as the request
/// path.
pub fn set_tracklist_checked(path_song_id: &str, tracklist: TrackList) -> (r: Result<
    TrackList,
    Error,
>)
    ensures
        tracklist.song_id@.len() == 0 || tracklist.song_id@ != path_song_id@ ==> (r matches Err(
            Error::InvalidIDError { id },
        ) && id@ == tracklist.song_id@),
        tracklist.song_id@.len() != 0 && tracklist.song_id@ == path_song_id@ ==> (r matches Ok(t)
            && t == tracklist),
{
    if !tracklist.has_valid_id() {
        let id = tracklist.song_id;
        return Err(Error::InvalidIDError { id });
    }
    if tracklist.song_id != path_song_id.to_owned() {
        let id = tracklist.song_id;
        return Err(Error::InvalidIDError { id });
    }
    Ok(tracklist)
}

/// Decides a save request once the owning song (or the failure to fetch
/// it) is known. The fetch confirms the song exists and names its owner;
/// the authenticated identity must be that owner before anything is
/// written.
pub fn set_tracklist_verified(
    ident_outcome: Result<User, String>,
    song_id: &str,
    tracklist: TrackList,
    fetched: Result<Song, StoreError>,
) -> (r: Result<TrackList, Error>)
    ensures
        fetched matches Err(e) ==> (r matches Err(Error::GetSongError { source }) && source == e),
        fetched matches Ok(song) ==> {
            if song.summary.id@ != song_id@ {
                r matches Err(Error::InvalidIDError { id }) && id@ == song_id@
            } else {
                &&& ident_outcome matches Err(m) ==> (r matches Err(
                    Error::GoogleVerificationError { msg },
                ) && msg == m)
                &&& ident_outcome matches Ok(user) ==> {
                    if song.summary.owner@ != user.id@ {
                        r matches Err(e) && e is WrongOwnerError
                    } else {
                        r matches Ok(t) && t == tracklist
                    }
                }
            }
        },
{
    let song = match fetched {
        Ok(song) => song,
        Err(e) => {
            return Err(Error::GetSongError { source: e });
        },
    };
    if song.summary.id != song_id.to_owned() {
        return Err(Error::InvalidIDError { id: song_id.to_owned() });
    }
    let user = match ident_outcome {
        Ok(user) => user,
        Err(m) => {
            return Err(Error::GoogleVerificationError { msg: m });
        },
    };
    if song.summary.owner != user.id {
        return Err(Error::WrongOwnerError);
    }
    Ok(tracklist)
}

/// A track that will receive an id in this save and whose type requests
/// a stem-separation job.
pub open spec fn needs_split_job(t: Track) -> bool {
    t.id@.len() == 0 && is_split_type(t.track_type@)
}

/// How one incoming track relates to its saved form. A track that
/// already carries an id is never touched. A new track gets a fresh
/// UUID; if its type requests a split job its contents are additionally
/// stamped with the initial job state.
pub open spec fn prepared_track(before: Track, after: Track) -> bool {
    if before.id@.len() != 0 {
        after == before
    } else {
        &&& ident::is_hyphenated_uuid(after.id@)
        &&& after.track_type == before.track_type
        &&& if is_split_type(before.track_type@) {
            stamped(before.contents@, after.contents@)
        } else {
            after.contents == before.contents
        }
    }
}

/// The positions, in order, of the tracks that will receive an id and a
/// split job in this save.
pub open spec fn split_indices(ts: Seq<Track>) -> Seq<int>
    decreases ts.len(),
{
    if ts.len() == 0 {
        Seq::empty()
    } else if needs_split_job(ts.last()) {
        split_indices(ts.drop_last()).push(ts.len() - 1)
    } else {
        split_indices(ts.drop_last())
    }
}

proof fn lemma_split_indices_range(ts: Seq<Track>)
    ensures
        forall|j: int|
            0 <= j < split_indices(ts).len() ==> 0 <= #[trigger] split_indices(ts)[j] < ts.len(),
    decreases ts.len(),
{
    if ts.len() > 0 {
        lemma_split_indices_range(ts.drop_last());
        let rec = split_indices(ts.drop_last());
        assert forall|j: int|
            0 <= j < split_indices(ts).len() implies 0 <= #[trigger] split_indices(ts)[j]
            < ts.len() by {
            if needs_split_job(ts.last()) {
                assert(split_indices(ts) == rec.push(ts.len() - 1));
                if j < rec.len() {
                    assert(split_indices(ts)[j] == rec[j]);
                } else {
                    assert(split_indices(ts)[j] == ts.len() - 1);
                }
            } else {
                assert(split_indices(ts) == rec);
            }
        }
    }
}

/// What `split_indices` lists: exactly the positions of the tracks that
/// will receive an id and a split job, each exactly once, in track
/// order. Together with the save's contract this is the dispatch law:
/// one pending job per qualifying track, none for any other.
pub proof fn lemma_split_indices_exact(ts: Seq<Track>)
    ensures
        forall|a: int, b: int|
            #![trigger split_indices(ts)[a], split_indices(ts)[b]]
            0 <= a < b < split_indices(ts).len() ==> split_indices(ts)[a] < split_indices(ts)[b],
        forall|j: int|
            0 <= j < split_indices(ts).len() ==> 0 <= #[trigger] split_indices(ts)[j] < ts.len()
                && needs_split_job(ts[split_indices(ts)[j]]),
        forall|i: int|
            0 <= i < ts.len() && #[trigger] needs_split_job(ts[i]) ==> split_indices(ts).contains(
                i,
            ),
    decreases ts.len(),
{
    if ts.len() > 0 {
        let rest = ts.drop_last();
        let r = split_indices(rest);
        lemma_split_indices_exact(rest);
        lemma_split_indices_range(rest);
        assert(forall|i: int| 0 <= i < rest.len() ==> rest[i] == ts[i]);
        if needs_split_job(ts.last()) {
            assert(split_indices(ts) == r.push(ts.len() - 1));
            assert forall|j: int|
                0 <= j < split_indices(ts).len() implies 0 <= #[trigger] split_indices(ts)[j]
                < ts.len() && needs_split_job(ts[split_indices(ts)[j]]) by {
                if j < r.len() {
                    assert(split_indices(ts)[j] == r[j]);
                } else {
                    assert(split_indices(ts)[j] == ts.len() - 1);
                }
            }
            assert forall|i: int|
                0 <= i < ts.len() && #[trigger] needs_split_job(ts[i]) implies split_indices(
                ts,
            ).contains(i) by {
                if i == ts.len() - 1 {
                    assert(split_indices(ts)[r.len() as int] == i);
                } else {
                    assert(r.contains(i));
                    let k = choose|k: int| 0 <= k < r.len() && r[k] == i;
                    assert(split_indices(ts)[k] == i);
                }
            }
        } else {
            assert(split_indices(ts) == r);
            assert forall|i: int|
                0 <= i < ts.len() && #[trigger] needs_split_job(ts[i]) implies split_indices(
                ts,
            ).contains(i) by {
                assert(i < ts.len() - 1);
                assert(r.contains(i));
                let k = choose|k: int| 0 <= k < r.len() && r[k] == i;
                assert(split_indices(ts)[k] == i);
            }
        }
    }
}

proof fn lemma_split_indices_step(ts: Seq<Track>, i: int)
    requires
        0 <= i < ts.len(),
    ensures
        needs_split_job(ts[i]) ==> split_indices(ts.take(i + 1)) == split_indices(
            ts.take(i),
        ).push(i),
        !needs_split_job(ts[i]) ==> split_indices(ts.take(i + 1)) == split_indices(ts.take(i)),
{
    assert(ts.take(i + 1).drop_last() =~= ts.take(i));
    assert(ts.take(i + 1).last() == ts[i]);
}

/// Walks the incoming track list: every track without an id receives a
/// fresh UUID; tracks that already carry an id are left exactly as they
/// are. Each freshly assigned track whose type requests a split job is
/// stamped with the initial job state and yields exactly one pending
/// job, in track order, whose `track_id` is the id just assigned;
/// no other track yields a job.
pub fn ensure_track_ids_and_collect_split_requests(tracklist: &mut TrackList) -> (jobs: Vec<
    SplitRequestTrack,
>)
    ensures
        final(tracklist).song_id == old(tracklist).song_id,
        final(tracklist).tracks@.len() == old(tracklist).tracks@.len(),
        forall|j: int|
            0 <= j < old(tracklist).tracks@.len() ==> prepared_track(
                old(tracklist).tracks@[j],
                #[trigger] final(tracklist).tracks@[j],
            ),
        jobs@.len() == split_indices(old(tracklist).tracks@).len(),
        forall|j: int|
            0 <= j < jobs@.len() ==> {
                &&& (#[trigger] jobs@[j]).tracklist_id@ == old(tracklist).song_id@
                &&& jobs@[j].track_id@ == final(tracklist).tracks@[split_indices(
                    old(tracklist).tracks@,
                )[j]].id@
            },
{
    let mut jobs: Vec<SplitRequestTrack> = Vec::new();
    let n = tracklist.tracks.len();
    proof {
        assert(old(tracklist).tracks@.take(0) =~= Seq::<Track>::empty());
    }
    let mut i: usize = 0;
    while i < n
        invariant
            0 <= i <= n,
            n == tracklist.tracks@.len(),
            tracklist.song_id == old(tracklist).song_id,
            tracklist.tracks@.len() == old(tracklist).tracks@.len(),
            forall|j: int|
                i <= j < n ==> #[trigger] tracklist.tracks@[j] == old(tracklist).tracks@[j],
            forall|j: int|
                0 <= j < i ==> prepared_track(
                    old(tracklist).tracks@[j],
                    #[trigger] tracklist.tracks@[j],
                ),
            jobs@.len() == split_indices(old(tracklist).tracks@.take(i as int)).len(),
            forall|j: int|
                0 <= j < jobs@.len() ==> 0 <= #[trigger] split_indices(
                    old(tracklist).tracks@.take(i as int),
                )[j] < i,
            forall|j: int|
                0 <= j < jobs@.len() ==> {
                    &&& (#[trigger] jobs@[j]).tracklist_id@ == old(tracklist).song_id@
                    &&& jobs@[j].track_id@ == tracklist.tracks@[split_indices(
                        old(tracklist).tracks@.take(i as int),
                    )[j]].id@
                },
        decreases n - i,
    {
        let ghost prefix = old(tracklist).tracks@.take(i as int);
        let ghost this_track = old(tracklist).tracks@[i as int];
        let mut t = Track { id: String::new(), track_type: String::new(), contents: Vec::new() };
        tracklist.tracks.set_and_swap(i, &mut t);
        if t.is_new() {
            t.create_id();
            if t.is_split_request() {
                t.init_split_request();
                let tracklist_id = tracklist.song_id.clone();
                let track_id = t.id.clone();
                jobs.push(SplitRequestTrack { tracklist_id, track_id });
            }
        }
        tracklist.tracks.set_and_swap(i, &mut t);
        proof {
            lemma_split_indices_step(old(tracklist).tracks@, i as int);
            lemma_split_indices_range(old(tracklist).tracks@.take(i as int));
            assert(prepared_track(this_track, tracklist.tracks@[i as int]));
        }
        i = i + 1;
    }
    proof {
        assert(old(tracklist).tracks@.take(n as int) =~= old(tracklist).tracks@);
    }
    jobs
}

/// Settles the track-list write. The write is unconditional — a track
/// list simply replaces its predecessor — so absence signals cannot
/// occur and any failure is a store failure.
pub fn set_tracklist_persisted(tracklist: TrackList, write: Result<(), StoreError>) -> (r: Result<
    TrackList,
    Error,
>)
    ensures
        write is Ok ==> (r matches Ok(t) && t == tracklist),
        write matches Err(StoreError::Infra { detail }) ==> (r matches Err(
            Error::DatastoreError { msg },
        ) && msg@ == detail@),
        write is Err ==> (r matches Err(e) && e is DatastoreError),
{
    match write {
        Ok(()) => Ok(tracklist),
        Err(StoreError::Infra { detail }) => Err(Error::DatastoreError { msg: detail }),
        Err(_) => Err(Error::DatastoreError {
            msg: "Failed to update song in data store".to_owned(),
        }),
    }
}

/// Settles the job dispatch that follows a successful save. A failed
/// enqueue is fatal for the request — it surfaces as `PublishError` —
/// but the saved track list is not rolled back.
pub fn set_tracklist_published(tracklist: TrackList, publish_ok: bool) -> (r: Result<
    TrackList,
    Error,
>)
    ensures
        publish_ok ==> (r matches Ok(t) && t == tracklist),
        !publish_ok ==> (r matches Err(e) && e is PublishError),
{
    if publish_ok {
        Ok(tracklist)
    } else {
        Err(Error::PublishError { msg: "Failed to publish message to RabbitMQ".to_owned() })
    }
}

} // verus!
