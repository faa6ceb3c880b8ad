//! The wire-facing error taxonomy.
//!
//! Every domain error maps to exactly one HTTP status, a machine-readable
//! code, and a human-readable message. The kinds form a closed, tagged
//! union; the embedding server turns one into a JSON reply.

use vstd::prelude::*;

verus! {

/// Client mistakes in the request body: HTTP 400.
#[derive(Debug)]
pub enum BadRequestError {
    /// A create carried a song that already has an id.
    CreateSongExists { msg: String },
    /// A save was based on a state older than the store's.
    UpdateSongOverwrite { msg: String },
    /// The path identifier and the payload identifier disagree.
    UpdateSongWrongId { msg: String },
    /// A structurally invalid identifier was supplied.
    InvalidID { msg: String },
}

/// The addressed entity does not exist: HTTP 404.
#[derive(Debug)]
pub enum NotFoundError {
    SongNotFound { msg: String },
}

/// The caller is not authenticated: HTTP 401.
#[derive(Debug)]
pub enum UnauthorizedError {
    FailedGoogleVerification { msg: String },
}

/// The caller is authenticated but not allowed: HTTP 403.
#[derive(Debug)]
pub enum ForbiddenError {
    GetSongsForUserNotAllowed { msg: String },
    UpdateSongOwnerNotAllowed { msg: String },
}

/// The service itself failed: HTTP 500.
#[derive(Debug)]
pub enum InternalServerError {
    DatastoreError { msg: String },
    PublishQueueError { msg: String },
}

impl BadRequestError {
    pub fn status_code(&self) -> (c: u16)
        ensures
            c == 400,
    {
        400
    }
}

impl NotFoundError {
    pub fn status_code(&self) -> (c: u16)
        ensures
            c == 404,
    {
        404
    }
}

impl UnauthorizedError {
    pub fn status_code(&self) -> (c: u16)
        ensures
            c == 401,
    {
        401
    }
}

impl ForbiddenError {
    pub fn status_code(&self) -> (c: u16)
        ensures
            c == 403,
    {
        403
    }
}

impl InternalServerError {
    pub fn status_code(&self) -> (c: u16)
        ensures
            c == 500,
    {
        500
    }
}

/// One wire-facing error: the closed union of the five kinds.
#[derive(Debug)]
pub enum GatewayError {
    BadRequest(BadRequestError),
    NotFound(NotFoundError),
    Unauthorized(UnauthorizedError),
    Forbidden(ForbiddenError),
    Internal(InternalServerError),
}

/// The HTTP status each kind maps to.
pub open spec fn status_of(e: GatewayError) -> int {
    match e {
        GatewayError::BadRequest(_) => 400,
        GatewayError::NotFound(_) => 404,
        GatewayError::Unauthorized(_) => 401,
        GatewayError::Forbidden(_) => 403,
        GatewayError::Internal(_) => 500,
    }
}

/// The machine-readable code of each variant.
pub open spec fn code_of(e: GatewayError) -> Seq<char> {
    match e {
        GatewayError::BadRequest(BadRequestError::CreateSongExists { .. }) => "create_song_exists"@,
        GatewayError::BadRequest(
            BadRequestError::UpdateSongOverwrite { .. },
        ) => "update_song_overwrite"@,
        GatewayError::BadRequest(
            BadRequestError::UpdateSongWrongId { .. },
        ) => "update_song_wrong_id"@,
        GatewayError::BadRequest(BadRequestError::InvalidID { .. }) => "invalid_id"@,
        GatewayError::NotFound(NotFoundError::SongNotFound { .. }) => "song_not_found"@,
        GatewayError::Unauthorized(
            UnauthorizedError::FailedGoogleVerification { .. },
        ) => "failed_google_verification"@,
        GatewayError::Forbidden(
            ForbiddenError::GetSongsForUserNotAllowed { .. },
        ) => "get_songs_for_user_not_allowed"@,
        GatewayError::Forbidden(
            ForbiddenError::UpdateSongOwnerNotAllowed { .. },
        ) => "update_song_owner_not_allowed"@,
        GatewayError::Internal(InternalServerError::DatastoreError { .. }) => "datastore_error"@,
        GatewayError::Internal(
            InternalServerError::PublishQueueError { .. },
        ) => "publish_queue_error"@,
    }
}

/// The human-readable message each variant carries.
pub open spec fn message_of(e: GatewayError) -> Seq<char> {
    match e {
        GatewayError::BadRequest(BadRequestError::CreateSongExists { msg }) => msg@,
        GatewayError::BadRequest(BadRequestError::UpdateSongOverwrite { msg }) => msg@,
        GatewayError::BadRequest(BadRequestError::UpdateSongWrongId { msg }) => msg@,
        GatewayError::BadRequest(BadRequestError::InvalidID { msg }) => msg@,
        GatewayError::NotFound(NotFoundError::SongNotFound { msg }) => msg@,
        GatewayError::Unauthorized(UnauthorizedError::FailedGoogleVerification { msg }) => msg@,
        GatewayError::Forbidden(ForbiddenError::GetSongsForUserNotAllowed { msg }) => msg@,
        GatewayError::Forbidden(ForbiddenError::UpdateSongOwnerNotAllowed { msg }) => msg@,
        GatewayError::Internal(InternalServerError::DatastoreError { msg }) => msg@,
        GatewayError::Internal(InternalServerError::PublishQueueError { msg }) => msg@,
    }
}

impl GatewayError {
    /// The HTTP status this error is answered with.
    pub fn status_code(&self) -> (c: u16)
        ensures
            c == status_of(*self),
    {
        match self {
            GatewayError::BadRequest(e) => e.status_code(),
            GatewayError::NotFound(e) => e.status_code(),
            GatewayError::Unauthorized(e) => e.status_code(),
            GatewayError::Forbidden(e) => e.status_code(),
            GatewayError::Internal(e) => e.status_code(),
        }
    }

    /// The machine-readable code of this error.
    pub fn code(&self) -> (s: String)
        ensures
            s@ == code_of(*self),
    {
        match self {
            GatewayError::BadRequest(BadRequestError::CreateSongExists { .. }) => {
                "create_song_exists".to_owned()
            },
            GatewayError::BadRequest(BadRequestError::UpdateSongOverwrite { .. }) => {
                "update_song_overwrite".to_owned()
            },
            GatewayError::BadRequest(BadRequestError::UpdateSongWrongId { .. }) => {
                "update_song_wrong_id".to_owned()
            },
            GatewayError::BadRequest(BadRequestError::InvalidID { .. }) => "invalid_id".to_owned(),
            GatewayError::NotFound(NotFoundError::SongNotFound { .. }) => {
                "song_not_found".to_owned()
            },
            GatewayError::Unauthorized(UnauthorizedError::FailedGoogleVerification { .. }) => {
                "failed_google_verification".to_owned()
            },
            GatewayError::Forbidden(ForbiddenError::GetSongsForUserNotAllowed { .. }) => {
                "get_songs_for_user_not_allowed".to_owned()
            },
            GatewayError::Forbidden(ForbiddenError::UpdateSongOwnerNotAllowed { .. }) => {
                "update_song_owner_not_allowed".to_owned()
            },
            GatewayError::Internal(InternalServerError::DatastoreError { .. }) => {
                "datastore_error".to_owned()
            },
            GatewayError::Internal(InternalServerError::PublishQueueError { .. }) => {
                "publish_queue_error".to_owned()
            },
        }
    }

    /// The human-readable message of this error.
    pub fn message(&self) -> (s: String)
        ensures
            s@ == message_of(*self),
    {
        match self {
            GatewayError::BadRequest(BadRequestError::CreateSongExists { msg }) => msg.clone(),
            GatewayError::BadRequest(BadRequestError::UpdateSongOverwrite { msg }) => msg.clone(),
            GatewayError::BadRequest(BadRequestError::UpdateSongWrongId { msg }) => msg.clone(),
            GatewayError::BadRequest(BadRequestError::InvalidID { msg }) => msg.clone(),
            GatewayError::NotFound(NotFoundError::SongNotFound { msg }) => msg.clone(),
            GatewayError::Unauthorized(UnauthorizedError::FailedGoogleVerification { msg }) => {
                msg.clone()
            },
            GatewayError::Forbidden(ForbiddenError::GetSongsForUserNotAllowed { msg }) => {
                msg.clone()
            },
            GatewayError::Forbidden(ForbiddenError::UpdateSongOwnerNotAllowed { msg }) => {
                msg.clone()
            },
            GatewayError::Internal(InternalServerError::DatastoreError { msg }) => msg.clone(),
            GatewayError::Internal(InternalServerError::PublishQueueError { msg }) => msg.clone(),
        }
    }
}

} // verus!
