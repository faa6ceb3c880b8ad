//! How song-usecase errors appear on the wire.

use crate::gateway::{
    BadRequestError, ForbiddenError, GatewayError, InternalServerError, NotFoundError,
    UnauthorizedError,
};
use crate::songs::usecase::Error;
use vstd::prelude::*;
use vstd::string::StringExecFns;

verus! {

/// Maps each song-usecase error to its wire form: absence is 404,
/// client mistakes (an existing id, a mismatched id, a stale save) are
/// 400, a failed token verification is 401, foreign ownership is 403,
/// and a store failure is 500.
pub fn map_usecase_errors(err: Error) -> (r: GatewayError)
    ensures
        err matches Error::GoogleVerificationError { msg } ==> (r matches GatewayError::Unauthorized(
            UnauthorizedError::FailedGoogleVerification { msg: m },
        ) && m == msg),
        err is ExistingSongError ==> r matches GatewayError::BadRequest(
            BadRequestError::CreateSongExists { .. },
        ),
        err is OverwriteError ==> r matches GatewayError::BadRequest(
            BadRequestError::UpdateSongOverwrite { .. },
        ),
        err matches Error::WrongIDError { song_id_1, song_id_2 } ==> (r matches
            GatewayError::BadRequest(BadRequestError::UpdateSongWrongId { msg }) && msg@
            == "The requested resource ID and the payload ID do not match: "@ + song_id_1@ + ", "@
            + song_id_2@),
        err is WrongOwnerError ==> r matches GatewayError::Forbidden(
            ForbiddenError::UpdateSongOwnerNotAllowed { .. },
        ),
        err matches Error::NotFoundError { id } ==> (r matches GatewayError::NotFound(
            NotFoundError::SongNotFound { msg },
        ) && msg@ == "Song ID not found: "@ + id@),
        err matches Error::DatastoreError { msg } ==> (r matches GatewayError::Internal(
            InternalServerError::DatastoreError { msg: m },
        ) && m == msg),
{
    match err {
        Error::GoogleVerificationError { msg } => GatewayError::Unauthorized(
            UnauthorizedError::FailedGoogleVerification { msg },
        ),
        Error::ExistingSongError => GatewayError::BadRequest(
            BadRequestError::CreateSongExists {
                msg: "Cannot create a song that already exists".to_owned(),
            },
        ),
        Error::OverwriteError => GatewayError::BadRequest(
            BadRequestError::UpdateSongOverwrite {
                msg:
                    "Cannot update this song - contents will be clobbered. Please refresh the song and try again".to_owned(),
            },
        ),
        Error::WrongIDError { song_id_1, song_id_2 } => {
            let mut msg = "The requested resource ID and the payload ID do not match: ".to_owned();
            msg.append(song_id_1.as_str());
            msg.append(", ");
            msg.append(song_id_2.as_str());
            GatewayError::BadRequest(BadRequestError::UpdateSongWrongId { msg })
        },
        Error::WrongOwnerError => GatewayError::Forbidden(
            ForbiddenError::UpdateSongOwnerNotAllowed {
                msg: "You do not have permission to modify this user's songs".to_owned(),
            },
        ),
        Error::NotFoundError { id } => {
            let mut msg = "Song ID not found: ".to_owned();
            msg.append(id.as_str());
            GatewayError::NotFound(NotFoundError::SongNotFound { msg })
        },
        Error::DatastoreError { msg } => GatewayError::Internal(
            InternalServerError::DatastoreError { msg },
        ),
    }
}

} // verus!
