//! How user-usecase errors appear on the wire.

use crate::gateway::{ForbiddenError, GatewayError, InternalServerError, UnauthorizedError};
use crate::users::usecase::Error;
use vstd::prelude::*;
use vstd::string::StringExecFns;

verus! {

/// Maps each user-usecase error to its wire form: a failed token
/// validation is 401, asking for another user's songs is 403, and a
/// store failure is 500.
pub fn map_usecase_errors(err: Error) -> (r: GatewayError)
    ensures
        err matches Error::GoogleValidationError { detail, msg } ==> (r matches
            GatewayError::Unauthorized(UnauthorizedError::FailedGoogleVerification { msg: m })
            && m@ == detail@ + ": "@ + msg@),
        err is OwnerVerificationError ==> r matches GatewayError::Forbidden(
            ForbiddenError::GetSongsForUserNotAllowed { .. },
        ),
        err matches Error::DatastoreError { msg } ==> (r matches GatewayError::Internal(
            InternalServerError::DatastoreError { msg: m },
        ) && m == msg),
{
    match err {
        Error::GoogleValidationError { detail, msg } => {
            let mut m = detail;
            m.append(": ");
            m.append(msg.as_str());
            GatewayError::Unauthorized(UnauthorizedError::FailedGoogleVerification { msg: m })
        },
        Error::OwnerVerificationError => GatewayError::Forbidden(
            ForbiddenError::GetSongsForUserNotAllowed {
                msg: "This authenticated user cannot access this user's resources".to_owned(),
            },
        ),
        Error::DatastoreError { msg } => GatewayError::Internal(
            InternalServerError::DatastoreError { msg },
        ),
    }
}

} // verus!
