//! The song lifecycle: retrieval, creation, update with overwrite
//! protection, and deletion.
//!
//! Each operation is a short sequence of decisions between external
//! calls (token verification, store reads and writes). The decisions are
//! the functions of this module; the embedding runtime performs the
//! external call an `Ok` or `Fetch` outcome asks for and feeds the
//! result into the next function. An error outcome means the operation
//! is over and nothing further — in particular no store write — is
//! requested.

use crate::ident;
use crate::songs::entity::{with_id, with_saved_at, Song};
use crate::store::StoreError;
use crate::users::entity::User;
use vstd::prelude::*;

verus! {

/// One domain error of the song usecase.
#[derive(Debug)]
pub enum Error {
    /// The identity token could not be verified; the detail is the
    /// verifier's message.
    GoogleVerificationError { msg: String },
    /// A create was attempted on a song that already has an id.
    ExistingSongError,
    /// The path identifier and the payload identifier disagree.
    WrongIDError { song_id_1: String, song_id_2: String },
    /// The incoming save is based on a state older than the store's
    /// current state; accepting it would discard a save.
    OverwriteError,
    /// The authenticated identity does not own the song.
    WrongOwnerError,
    /// The store failed in a way the usecase does not interpret.
    DatastoreError { msg: String },
    /// The song is absent, or its id is not addressable at all.
    NotFoundError { id: String },
}

/// How a store outcome surfaces as a domain error: absence becomes
/// `NotFoundError` for the id at hand, anything else a store failure.
pub open spec fn maps_datastore_error(err: StoreError, song_id: Seq<char>, out: Error) -> bool {
    match err {
        StoreError::NotFound => out matches Error::NotFoundError { id } && id@ == song_id,
        StoreError::AlreadyExists => out is DatastoreError,
        StoreError::Infra { detail } => out matches Error::DatastoreError { msg } && msg@
            == detail@,
    }
}

/// Maps a store outcome for the song with `song_id` to a domain error.
pub fn map_datastore_error(err: StoreError, song_id: &str) -> (r: Error)
    ensures
        maps_datastore_error(err, song_id@, r),
{
    match err {
        StoreError::NotFound => Error::NotFoundError { id: song_id.to_owned() },
        StoreError::AlreadyExists => Error::DatastoreError {
            msg: "Failed to put song into data store".to_owned(),
        },
        StoreError::Infra { detail } => Error::DatastoreError { msg: detail },
    }
}

/// The first step of fetching a song: either the id can be looked up, or
/// the request is already settled.
pub enum GetSongStep {
    /// Ask the store for this id.
    Fetch { id: String },
    /// Done without touching the store.
    Fail { err: Error },
}

/// Decides whether a song id is worth a store round-trip. An id that is
/// not a well-formed UUID cannot name a stored song, so the lookup is
/// answered negatively without invoking the store.
pub fn get_song_plan(id: &str) -> (r: GetSongStep)
    ensures
        ident::is_valid_uuid(id@) ==> (r matches GetSongStep::Fetch { id: q } && q@ == id@),
        !ident::is_valid_uuid(id@) ==> (r matches GetSongStep::Fail { err } && (err matches
            Error::NotFoundError { id: e } && e@ == id@)),
{
    if !Song::is_valid_id(id) {
        GetSongStep::Fail { err: Error::NotFoundError { id: id.to_owned() } }
    } else {
        GetSongStep::Fetch { id: id.to_owned() }
    }
}

/// Settles a song fetch: a found song is returned as-is; store absence
/// becomes `NotFoundError` for the requested id.
pub fn get_song_finish(id: &str, fetched: Result<Song, StoreError>) -> (r: Result<Song, Error>)
    ensures
        fetched matches Ok(song) ==> (r matches Ok(s) && s == song),
        fetched matches Err(e) ==> (r matches Err(out) && maps_datastore_error(e, id@, out)),
{
    match fetched {
        Ok(song) => Ok(song),
        Err(e) => Err(map_datastore_error(e, id)),
    }
}

/// Decides a create request, before any store call.
///
/// Order of checks: the identity must verify; the song must be new (a
/// non-empty id is rejected regardless of who owns it); the declared
/// owner must be the authenticated identity, established before any
/// store mutation. Only then is a fresh UUID assigned and the save time
/// stamped; the returned song is what the store is asked to create with
/// a fail-if-exists write.
pub fn create_song_checked(ident_outcome: Result<User, String>, song: Song) -> (r: Result<
    Song,
    Error,
>)
    ensures
        ident_outcome matches Err(m) ==> (r matches Err(Error::GoogleVerificationError { msg })
            && msg == m),
        ident_outcome matches Ok(user) ==> {
            if song.summary.id@.len() != 0 {
                r matches Err(e) && e is ExistingSongError
            } else if song.summary.owner@ != user.id@ {
                r matches Err(e) && e is WrongOwnerError
            } else {
                r matches Ok(s) && {
                    &&& s == with_saved_at(with_id(song, s.summary.id), s.summary.last_saved_at)
                    &&& ident::is_hyphenated_uuid(s.summary.id@)
                    &&& s.summary.last_saved_at is Some
                }
            }
        },
{
    let user = match ident_outcome {
        Ok(user) => user,
        Err(m) => {
            return Err(Error::GoogleVerificationError { msg: m });
        },
    };
    if !song.is_new() {
        return Err(Error::ExistingSongError);
    }
    if song.summary.owner != user.id {
        return Err(Error::WrongOwnerError);
    }
    let mut song = song;
    song.create_id();
    song.set_saved_time();
    Ok(song)
}

/// Decides an update request, before any store call.
///
/// Order of checks: the identity must verify; an empty path id is not
/// addressable; the path id and the payload id must agree; the declared
/// owner must be the authenticated identity; and the incoming song must
/// declare the save it is based on — a client that cannot say what it is
/// updating from is rejected as a conflict before the store is even
/// read. An `Ok` result is the unchanged song, ready for the
/// overwrite-protection read.
pub fn update_song_checked(ident_outcome: Result<User, String>, song_id: &str, song: Song) -> (r:
    Result<Song, Error>)
    ensures
        ident_outcome matches Err(m) ==> (r matches Err(Error::GoogleVerificationError { msg })
            && msg == m),
        ident_outcome matches Ok(user) ==> {
            if song_id@.len() == 0 {
                r matches Err(Error::NotFoundError { id }) && id@.len() == 0
            } else if song_id@ != song.summary.id@ {
                r matches Err(Error::WrongIDError { song_id_1, song_id_2 }) && song_id_1@
                    == song_id@ && song_id_2@ == song.summary.id@
            } else if song.summary.owner@ != user.id@ {
                r matches Err(e) && e is WrongOwnerError
            } else if song.summary.last_saved_at is None {
                r matches Err(e) && e is OverwriteError
            } else {
                r matches Ok(s) && s == song
            }
        },
{
    let user = match ident_outcome {
        Ok(user) => user,
        Err(m) => {
            return Err(Error::GoogleVerificationError { msg: m });
        },
    };
    if song_id.is_empty() {
        return Err(Error::NotFoundError { id: String::new() });
    }
    if song_id.to_owned() != song.summary.id {
        return Err(Error::WrongIDError {
            song_id_1: song_id.to_owned(),
            song_id_2: song.summary.id.clone(),
        });
    }
    if song.summary.owner != user.id {
        return Err(Error::WrongOwnerError);
    }
    if song.summary.last_saved_at.is_none() {
        return Err(Error::OverwriteError);
    }
    Ok(song)
}

/// The overwrite-protection rule. A save is rejected when it declares no
/// basis at all, or when the store's current save stamp is strictly
/// newer than the declared basis — in that case the store holds a save
/// the client never saw, and accepting the write would discard it. A
/// store record without a stamp (legacy state) blocks nothing.
pub open spec fn overwrite_rejected(basis: Option<i64>, current: Option<i64>) -> bool {
    match basis {
        Option::None => true,
        Option::Some(b) => match current {
            Option::None => false,
            Option::Some(c) => c > b,
        },
    }
}

/// Applies the checks that need the store's current copy — the owner may
/// never change, and the save must not overwrite one the client never
/// saw — then stamps the new save time.
///
/// A fetch error settles the update with that error. A song's owner is
/// immutable once set, so an incoming song whose owner differs from the
/// stored one is rejected as `WrongOwnerError` (the earlier check only
/// matched the payload's owner against the authenticated identity).
/// After that the update proceeds exactly when the overwrite rule does
/// not reject it, and the `Ok` result is the incoming song with a fresh
/// save stamp — what the store is asked to write with a fail-if-absent
/// put.
pub fn update_song_apply(song: Song, current: Result<Song, Error>) -> (r: Result<Song, Error>)
    ensures
        current matches Err(e) ==> r == Err::<Song, Error>(e),
        current matches Ok(c) ==> {
            if song.summary.owner@ != c.summary.owner@ {
                r matches Err(e) && e is WrongOwnerError
            } else if overwrite_rejected(song.summary.last_saved_at, c.summary.last_saved_at) {
                r matches Err(e) && e is OverwriteError
            } else {
                r matches Ok(s) && {
                    &&& s == with_saved_at(song, s.summary.last_saved_at)
                    &&& s.summary.last_saved_at is Some
                }
            }
        },
{
    let current_song = match current {
        Ok(c) => c,
        Err(e) => {
            return Err(e);
        },
    };
    if song.summary.owner != current_song.summary.owner {
        return Err(Error::WrongOwnerError);
    }
    let basis = match song.summary.last_saved_at {
        Option::Some(b) => b,
        Option::None => {
            return Err(Error::OverwriteError);
        },
    };
    match current_song.summary.last_saved_at {
        Option::Some(c) => {
            if c > basis {
                return Err(Error::OverwriteError);
            }
        },
        Option::None => {},
    }
    let mut song = song;
    song.set_saved_time();
    Ok(song)
}

/// Settles a create or update after the store write reported back: a
/// successful write returns the song as persisted; a failed one maps to
/// the domain error for the song's own id.
pub fn persist_song_finish(song: Song, write: Result<(), StoreError>) -> (r: Result<Song, Error>)
    ensures
        write is Ok ==> (r matches Ok(s) && s == song),
        write matches Err(e) ==> (r matches Err(out) && maps_datastore_error(
            e,
            song.summary.id@,
            out,
        )),
{
    match write {
        Ok(()) => Ok(song),
        Err(e) => {
            let out = map_datastore_error(e, song.summary.id.as_str());
            Err(out)
        },
    }
}

/// Decides a delete request once the current song (or the failure to
/// fetch it) is known.
///
/// The fetch doubles as the existence check, so a fetch error settles
/// the request first; then the stored song's id must match the path
/// (a store inconsistency surfaces as `WrongIDError`); then the identity
/// must verify and must own the song. Only then is the store asked to
/// delete, and the `Ok` result names the id to delete.
pub fn delete_song_checked(
    ident_outcome: Result<User, String>,
    song_id: &str,
    fetched: Result<Song, Error>,
) -> (r: Result<String, Error>)
    ensures
        fetched matches Err(e) ==> r == Err::<String, Error>(e),
        fetched matches Ok(song) ==> {
            if song_id@ != song.summary.id@ {
                r matches Err(Error::WrongIDError { song_id_1, song_id_2 }) && song_id_1@
                    == song_id@ && song_id_2@ == song.summary.id@
            } else {
                &&& ident_outcome matches Err(m) ==> (r matches Err(
                    Error::GoogleVerificationError { msg },
                ) && msg == m)
                &&& ident_outcome matches Ok(user) ==> {
                    if song.summary.owner@ != user.id@ {
                        r matches Err(e) && e is WrongOwnerError
                    } else {
                        r matches Ok(id) && id@ == song_id@
                    }
                }
            }
        },
{
    let song = match fetched {
        Ok(song) => song,
        Err(e) => {
            return Err(e);
        },
    };
    if song_id.to_owned() != song.summary.id {
        return Err(Error::WrongIDError {
            song_id_1: song_id.to_owned(),
            song_id_2: song.summary.id,
        });
    }
    let user = match ident_outcome {
        Ok(user) => user,
        Err(m) => {
            return Err(Error::GoogleVerificationError { msg: m });
        },
    };
    if song.summary.owner != user.id {
        return Err(Error::WrongOwnerError);
    }
    Ok(song_id.to_owned())
}

/// Settles a delete after the store reported back.
pub fn delete_song_finish(song_id: &str, write: Result<(), StoreError>) -> (r: Result<(), Error>)
    ensures
        write is Ok ==> r is Ok,
        write matches Err(e) ==> (r matches Err(out) && maps_datastore_error(e, song_id@, out)),
{
    match write {
        Ok(()) => Ok(()),
        Err(e) => Err(map_datastore_error(e, song_id)),
    }
}

/// The overwrite law. Against a stored stamp, a strictly older basis is
/// rejected, the unchanged stamp or any newer basis is let through, and
/// a missing basis is always rejected.
pub proof fn lemma_overwrite_law(basis: i64, current: i64)
    ensures
        basis < current ==> overwrite_rejected(Some(basis), Some(current)),
        basis >= current ==> !overwrite_rejected(Some(basis), Some(current)),
        overwrite_rejected(None::<i64>, Some(current)),
        !overwrite_rejected(Some(basis), None::<i64>),
{
}

} // verus!
