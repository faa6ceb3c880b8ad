//! The song entity: a persisted user project document.
//!
//! The document is a grab-bag of attributes whose canonical form is its
//! serialized representation; the orchestration layer reads and writes
//! only the summary fields (`id`, `owner`, `last_saved_at`) and carries
//! everything else through untouched.

use crate::clock;
use crate::ident;
use crate::values::{FieldValue, Fields};
use vstd::prelude::*;

verus! {

/// The lightweight projection of a song used for list and ownership
/// queries: everything but the (possibly large) element payload.
pub struct SongSummary {
    /// Empty exactly while the song has never been persisted; once
    /// assigned, a UUID that never changes.
    pub id: String,
    /// The owning user's id; set by the creator, immutable afterwards.
    pub owner: String,
    /// Unix seconds of the last successful save; stamped by the usecase,
    /// never trusted from the caller.
    pub last_saved_at: Option<i64>,
    /// Opaque descriptive attributes.
    pub metadata: Fields,
}

pub struct Song {
    pub summary: SongSummary,
    /// The ordered, opaque element payload.
    pub elements: Vec<FieldValue>,
    /// Any further opaque attributes of the document.
    pub extra: Fields,
}

/// `s` with its id replaced and every other part unchanged.
pub open spec fn with_id(s: Song, id: String) -> Song {
    Song {
        summary: SongSummary {
            id: id,
            owner: s.summary.owner,
            last_saved_at: s.summary.last_saved_at,
            metadata: s.summary.metadata,
        },
        elements: s.elements,
        extra: s.extra,
    }
}

/// `s` with its save stamp replaced and every other part unchanged.
pub open spec fn with_saved_at(s: Song, t: Option<i64>) -> Song {
    Song {
        summary: SongSummary {
            id: s.summary.id,
            owner: s.summary.owner,
            last_saved_at: t,
            metadata: s.summary.metadata,
        },
        elements: s.elements,
        extra: s.extra,
    }
}

impl Song {
    /// Whether `song_id` is addressable at all: a well-formed UUID in
    /// canonical hyphenated form.
    pub fn is_valid_id(song_id: &str) -> (r: bool)
        ensures
            r == ident::is_valid_uuid(song_id@),
    {
        ident::is_uuid_str(song_id)
    }

    /// A song is new exactly while it has no id.
    pub fn is_new(&self) -> (r: bool)
        ensures
            r == (self.summary.id@.len() == 0),
    {
        self.summary.id.as_str().is_empty()
    }

    /// Assigns a fresh UUID. Only a song that never had an id may
    /// receive one: an assigned id is immutable.
    pub fn create_id(&mut self)
        requires
            old(self).summary.id@.len() == 0,
        ensures
            *final(self) == with_id(*old(self), final(self).summary.id),
            ident::is_hyphenated_uuid(final(self).summary.id@),
    {
        self.summary.id = ident::fresh_uuid();
    }

    /// Stamps the current wall-clock time, in whole seconds, as the
    /// moment of this save.
    pub fn set_saved_time(&mut self)
        ensures
            *final(self) == with_saved_at(*old(self), final(self).summary.last_saved_at),
            final(self).summary.last_saved_at is Some,
    {
        self.summary.last_saved_at = Some(clock::now_secs());
    }
}

} // verus!
