//! Login (account upsert) and listing a user's songs.

use crate::songs::entity::SongSummary;
use crate::store::StoreError;
use crate::users::entity::User;
use vstd::prelude::*;

verus! {

/// One domain error of the user usecase.
#[derive(Debug)]
pub enum Error {
    /// The identity token could not be validated.
    GoogleValidationError { detail: String, msg: String },
    /// A user asked for another user's resources.
    OwnerVerificationError,
    /// The store failed.
    DatastoreError { msg: String },
}

/// Decides a login before any store call: only a verified identity is
/// worth an account upsert. The `Ok` result is the account record to
/// upsert, exactly as the verifier reported it.
pub fn login_checked(ident_outcome: Result<User, String>) -> (r: Result<User, Error>)
    ensures
        ident_outcome matches Ok(user) ==> r == Ok::<User, Error>(user),
        ident_outcome matches Err(m) ==> (r matches Err(
            Error::GoogleValidationError { detail, msg },
        ) && msg == m && detail@ == "Failed Google user verification"@),
{
    match ident_outcome {
        Ok(user) => Ok(user),
        Err(m) => Err(Error::GoogleValidationError {
            detail: "Failed Google user verification".to_owned(),
            msg: m,
        }),
    }
}

/// The stored record after upserting `incoming` over `existing`: the
/// record is keyed by the incoming id; a name supplied by the provider
/// replaces the stored one, and an absent name leaves the stored fields
/// as they were.
pub open spec fn upserted(existing: Option<User>, incoming: User) -> User {
    User {
        id: incoming.id,
        name: if incoming.name is Some {
            incoming.name
        } else {
            match existing {
                Option::Some(e) => e.name,
                Option::None => Option::None,
            }
        },
    }
}

/// The account-upsert rule itself: creates the record if absent, updates
/// the name when the provider supplied one, and keeps stored fields
/// otherwise. Total — an upsert cannot fail with a conflict.
pub fn upsert_apply(existing: Option<User>, incoming: &User) -> (u: User)
    ensures
        u == upserted(existing, *incoming),
{
    let name = match &incoming.name {
        Option::Some(n) => Option::Some(n.clone()),
        Option::None => match existing {
            Option::Some(e) => e.name,
            Option::None => Option::None,
        },
    };
    User { id: incoming.id.clone(), name }
}

/// Logging in twice with the same identity converges: the second upsert
/// leaves the record of the first exactly as it is — in particular the
/// id never changes — and, the rule being total, the second login can
/// never fail with a conflict.
pub proof fn lemma_login_idempotent(existing: Option<User>, incoming: User)
    ensures
        upserted(Some(upserted(existing, incoming)), incoming) == upserted(existing, incoming),
        upserted(Some(upserted(existing, incoming)), incoming).id == upserted(
            existing,
            incoming,
        ).id,
{
}

/// Settles a login after the store upsert reported back.
pub fn login_finish(stored: Result<User, StoreError>) -> (r: Result<User, Error>)
    ensures
        stored matches Ok(user) ==> r == Ok::<User, Error>(user),
        stored matches Err(StoreError::Infra { detail }) ==> (r matches Err(
            Error::DatastoreError { msg },
        ) && msg@ == detail@),
        stored is Err ==> (r matches Err(e) && e is DatastoreError),
{
    match stored {
        Ok(user) => Ok(user),
        Err(StoreError::Infra { detail }) => Err(Error::DatastoreError { msg: detail }),
        Err(_) => Err(Error::DatastoreError { msg: "Data store failed".to_owned() }),
    }
}

/// Decides a song-listing request before any store call: a user may list
/// only their own songs, so the store is queried only when the verified
/// identity is the requested owner.
pub fn songs_for_user_checked(ident_outcome: Result<User, String>, owner_id: &str) -> (r: Result<
    String,
    Error,
>)
    ensures
        ident_outcome matches Err(m) ==> (r matches Err(
            Error::GoogleValidationError { detail, msg },
        ) && msg == m),
        ident_outcome matches Ok(user) ==> {
            if user.id@ != owner_id@ {
                r matches Err(e) && e is OwnerVerificationError
            } else {
                r matches Ok(id) && id@ == owner_id@
            }
        },
{
    let user = match ident_outcome {
        Ok(user) => user,
        Err(m) => {
            return Err(Error::GoogleValidationError {
                detail: "Failed Google user verification".to_owned(),
                msg: m,
            });
        },
    };
    if user.id != owner_id.to_owned() {
        return Err(Error::OwnerVerificationError);
    }
    Ok(user.id)
}

/// Settles a song listing after the store reported back. An empty list
/// is a perfectly good answer; only a store failure is an error.
pub fn songs_for_user_finish(result: Result<Vec<SongSummary>, StoreError>) -> (r: Result<
    Vec<SongSummary>,
    Error,
>)
    ensures
        result matches Ok(list) ==> (r matches Ok(l) && l == list),
        result matches Err(StoreError::Infra { detail }) ==> (r matches Err(
            Error::DatastoreError { msg },
        ) && msg@ == detail@),
        result is Err ==> (r matches Err(e) && e is DatastoreError),
{
    match result {
        Ok(list) => Ok(list),
        Err(StoreError::Infra { detail }) => Err(Error::DatastoreError { msg: detail }),
        Err(_) => Err(Error::DatastoreError { msg: "Data store failed".to_owned() }),
    }
}

} // verus!
