//! Tracks and track lists.
//!
//! A track list is the ordered set of tracks belonging to one song.
//! Tracks whose type names a stem-separation ("split") job get their
//! contents stamped with the initial job state the moment the usecase
//! assigns their id and requests the job.

use crate::ident;
use crate::values::{
    kv_get, kv_put, kv_set, lemma_kv_get_set_other, lemma_kv_get_set_same, FieldValue, Fields,
};
use vstd::prelude::*;

verus! {

pub struct Track {
    /// Empty exactly until the track's first save; once assigned, a UUID
    /// that never changes.
    pub id: String,
    /// The track's type name; a fixed set of types requests a split job.
    pub track_type: String,
    /// Opaque contents, carried through except for job-state stamping.
    pub contents: Fields,
}

pub struct TrackList {
    /// The id of the song this list belongs to, one list per song.
    pub song_id: String,
    pub tracks: Vec<Track>,
}

/// The fixed set of track types that request a stem-separation job.
pub open spec fn is_split_type(t: Seq<char>) -> bool {
    ||| t == "split_2stems"@
    ||| t == "split_4stems"@
    ||| t == "split_5stems"@
}

/// The content keys owned by job-state stamping.
pub open spec fn is_job_key(k: Seq<char>) -> bool {
    ||| k == "job_status"@
    ||| k == "job_status_message"@
    ||| k == "job_status_debug_log"@
    ||| k == "job_progress"@
}

/// What freshly stamped contents look like, relative to the contents
/// before: the four job fields hold the initial job state, and every
/// other key is bound exactly as before.
pub open spec fn stamped(before: Seq<(String, FieldValue)>, after: Seq<(String, FieldValue)>) -> bool {
    &&& kv_get(after, "job_status"@) matches Some(FieldValue::Text(s)) && s@ == "requested"@
    &&& kv_get(after, "job_status_message"@) matches Some(FieldValue::Text(s)) && s@
        == "The splitting job for the audio has been requested"@
    &&& kv_get(after, "job_status_debug_log"@) matches Some(FieldValue::Text(s)) && s@.len() == 0
    &&& kv_get(after, "job_progress"@) == Some(FieldValue::Number(5))
    &&& forall|k: Seq<char>| !is_job_key(k) ==> #[trigger] kv_get(after, k) == kv_get(before, k)
}

proof fn lemma_job_keys_distinct()
    ensures
        "job_status"@ != "job_status_message"@,
        "job_status"@ != "job_status_debug_log"@,
        "job_status"@ != "job_progress"@,
        "job_status_message"@ != "job_status_debug_log"@,
        "job_status_message"@ != "job_progress"@,
        "job_status_debug_log"@ != "job_progress"@,
{
    reveal_strlit("job_status");
    reveal_strlit("job_status_message");
    reveal_strlit("job_status_debug_log");
    reveal_strlit("job_progress");
    assert("job_status"@.len() == 10);
    assert("job_status_message"@.len() == 18);
    assert("job_status_debug_log"@.len() == 20);
    assert("job_progress"@.len() == 12);
}

impl Track {
    /// A track is new exactly while it has no id.
    pub fn is_new(&self) -> (r: bool)
        ensures
            r == (self.id@.len() == 0),
    {
        self.id.as_str().is_empty()
    }

    /// Assigns a fresh UUID. Only a track that never had an id may
    /// receive one: an assigned id is immutable.
    pub fn create_id(&mut self)
        requires
            old(self).id@.len() == 0,
        ensures
            ident::is_hyphenated_uuid(final(self).id@),
            final(self).track_type == old(self).track_type,
            final(self).contents == old(self).contents,
    {
        self.id = ident::fresh_uuid();
    }

    /// Whether this track's type requests a stem-separation job.
    pub fn is_split_request(&self) -> (r: bool)
        ensures
            r == is_split_type(self.track_type@),
    {
        if self.track_type == "split_2stems".to_owned() {
            return true;
        }
        if self.track_type == "split_4stems".to_owned() {
            return true;
        }
        if self.track_type == "split_5stems".to_owned() {
            return true;
        }
        false
    }

    /// Stamps the initial job state onto the track's contents: status
    /// "requested", a human-readable message, an empty debug log, and
    /// the initial progress value. Everything else is left bound as it
    /// was. Only a split-type track carries job state.
    pub fn init_split_request(&mut self)
        requires
            is_split_type(old(self).track_type@),
        ensures
            final(self).id == old(self).id,
            final(self).track_type == old(self).track_type,
            stamped(old(self).contents@, final(self).contents@),
    {
        let ghost c0 = self.contents@;

        let k1 = "job_status".to_owned();
        let ghost k1v = k1;
        let v1 = FieldValue::Text("requested".to_owned());
        let ghost v1v = v1;
        kv_put(&mut self.contents, k1, v1);
        let ghost c1 = self.contents@;

        let k2 = "job_status_message".to_owned();
        let ghost k2v = k2;
        let v2 = FieldValue::Text(
            "The splitting job for the audio has been requested".to_owned(),
        );
        let ghost v2v = v2;
        kv_put(&mut self.contents, k2, v2);
        let ghost c2 = self.contents@;

        let k3 = "job_status_debug_log".to_owned();
        let ghost k3v = k3;
        let v3 = FieldValue::Text("".to_owned());
        let ghost v3v = v3;
        kv_put(&mut self.contents, k3, v3);
        let ghost c3 = self.contents@;

        let k4 = "job_progress".to_owned();
        let ghost k4v = k4;
        let v4 = FieldValue::Number(5);
        kv_put(&mut self.contents, k4, v4);
        let ghost c4 = self.contents@;

        proof {
            lemma_job_keys_distinct();
            reveal_strlit("");

            // "job_status" survives the three later bindings.
            lemma_kv_get_set_same(c0, k1v, v1v);
            lemma_kv_get_set_other(c1, k2v, v2v, "job_status"@);
            lemma_kv_get_set_other(c2, k3v, v3v, "job_status"@);
            lemma_kv_get_set_other(c3, k4v, FieldValue::Number(5), "job_status"@);

            // "job_status_message" survives the two later bindings.
            lemma_kv_get_set_same(c1, k2v, v2v);
            lemma_kv_get_set_other(c2, k3v, v3v, "job_status_message"@);
            lemma_kv_get_set_other(c3, k4v, FieldValue::Number(5), "job_status_message"@);

            // "job_status_debug_log" survives the last binding.
            lemma_kv_get_set_same(c2, k3v, v3v);
            lemma_kv_get_set_other(c3, k4v, FieldValue::Number(5), "job_status_debug_log"@);

            lemma_kv_get_set_same(c3, k4v, FieldValue::Number(5));

            // Every non-job key is bound as before.
            assert forall|k: Seq<char>| !is_job_key(k) implies #[trigger] kv_get(c4, k) == kv_get(
                c0,
                k,
            ) by {
                lemma_kv_get_set_other(c0, k1v, v1v, k);
                lemma_kv_get_set_other(c1, k2v, v2v, k);
                lemma_kv_get_set_other(c2, k3v, v3v, k);
                lemma_kv_get_set_other(c3, k4v, FieldValue::Number(5), k);
            }
        }
    }
}

impl TrackList {
    /// A track list is addressable when it names its song.
    pub fn has_valid_id(&self) -> (r: bool)
        ensures
            r == (self.song_id@.len() != 0),
    {
        !self.song_id.as_str().is_empty()
    }

    /// The empty track list of a song: what "no tracks stored yet"
    /// denotes.
    pub fn empty(song_id: &str) -> (r: TrackList)
        ensures
            r.song_id@ == song_id@,
            r.tracks@.len() == 0,
    {
        TrackList { song_id: song_id.to_owned(), tracks: Vec::new() }
    }
}

} // verus!
