//! How track-usecase errors appear on the wire.

use crate::gateway::{
    BadRequestError, ForbiddenError, GatewayError, InternalServerError, UnauthorizedError,
};
use crate::store::StoreError;
use crate::tracks::usecase::Error;
use vstd::prelude::*;

verus! {

/// Maps each track-usecase error to its wire form: an invalid id is 400,
/// a failed token verification is 401, foreign ownership is 403, and
/// store or queue failures — including a failure to fetch the owning
/// song — are 500.
pub fn map_usecase_errors(err: Error) -> (r: GatewayError)
    ensures
        err matches Error::DatastoreError { msg } ==> (r matches GatewayError::Internal(
            InternalServerError::DatastoreError { msg: m },
        ) && m == msg),
        err matches Error::PublishError { msg } ==> (r matches GatewayError::Internal(
            InternalServerError::PublishQueueError { msg: m },
        ) && m == msg),
        err matches Error::GoogleVerificationError { msg } ==> (r matches GatewayError::Unauthorized(
            UnauthorizedError::FailedGoogleVerification { msg: m },
        ) && m == msg),
        err is WrongOwnerError ==> r matches GatewayError::Forbidden(
            ForbiddenError::UpdateSongOwnerNotAllowed { .. },
        ),
        err matches Error::InvalidIDError { .. } ==> r matches GatewayError::BadRequest(
            BadRequestError::InvalidID { .. },
        ),
        err matches Error::GetSongError { source } ==> (r matches GatewayError::Internal(
            InternalServerError::DatastoreError { msg: m },
        ) && (source matches StoreError::Infra { detail } ==> m@ == detail@)),
{
    match err {
        Error::DatastoreError { msg } => GatewayError::Internal(
            InternalServerError::DatastoreError { msg },
        ),
        Error::PublishError { msg } => GatewayError::Internal(
            InternalServerError::PublishQueueError { msg },
        ),
        Error::GoogleVerificationError { msg } => GatewayError::Unauthorized(
            UnauthorizedError::FailedGoogleVerification { msg },
        ),
        Error::WrongOwnerError => GatewayError::Forbidden(
            ForbiddenError::UpdateSongOwnerNotAllowed {
                msg: "You do not have permission to modify this user's songs".to_owned(),
            },
        ),
        Error::InvalidIDError { .. } => GatewayError::BadRequest(
            BadRequestError::InvalidID { msg: "Invalid song ID provided".to_owned() },
        ),
        Error::GetSongError { source } => {
            let msg = match source {
                StoreError::Infra { detail } => detail,
                StoreError::NotFound => "Song ID not found".to_owned(),
                StoreError::AlreadyExists => "Failed to fetch song for this track".to_owned(),
            };
            GatewayError::Internal(InternalServerError::DatastoreError { msg })
        },
    }
}

} // verus!
