//! Classification of HTTP status codes.

use vstd::prelude::*;

verus! {

/// A status code for which the service documents a cause: the code that is
/// reported and the cause in words.
#[derive(Debug, Clone, Copy, PartialEq, Eq)]
pub struct ApiRequestError(pub u32, pub &'static str);

/// What a status code means for the call that received it.
#[derive(Debug, Clone, Copy, PartialEq, Eq)]
pub enum StatusOutcome {
    /// A 2xx status: the body is to be decoded.
    Success,
    /// One of the statuses with a documented cause.
    Rejected(ApiRequestError),
    /// Any other status: the failure is the transport's to report.
    Unclassified,
}

impl ApiRequestError {
    /// The statuses with a documented cause, each with the error it stands for.
    pub open spec fn documented(status_code: u16) -> Option<ApiRequestError> {
        if status_code == 400 {
            Some(
                ApiRequestError(
                    400,
                    "Invalid request, please make sure you follow the documentation for proper syntax.",
                ),
            )
        } else if status_code == 401 {
            Some(ApiRequestError(401, "Problem authenticating the user."))
        } else if status_code == 403 {
            Some(
                ApiRequestError(
                    403,
                    "User was authenticated, but access denied due to lack of permission or rate limiting.",
                ),
            )
        } else if status_code == 502 {
            Some(ApiRequestError(502, "Pocket's sync server is down for scheduled maintenance."))
        } else {
            None
        }
    }

    /// The outcome of every status code: a documented cause wins, then the
    /// 2xx range is success, and everything else is left to the transport.
    pub open spec fn outcome(status_code: u16) -> StatusOutcome {
        match Self::documented(status_code) {
            Some(err) => StatusOutcome::Rejected(err),
            None => if 200 <= status_code <= 299 {
                StatusOutcome::Success
            } else {
                StatusOutcome::Unclassified
            },
        }
    }

    /// Fails exactly on the statuses with a documented cause, with that cause.
    /// `Ok` does not mean success: it means that this table has nothing to
    /// say, and [`ApiRequestError::classify`] tells the 2xx range from the rest.
    pub fn handler_status(status_code: u16) -> (r: Result<(), ApiRequestError>)
        ensures
            match Self::documented(status_code) {
                Some(err) => r == Err::<(), ApiRequestError>(err),
                None => r == Ok::<(), ApiRequestError>(()),
            },
            status_code == 403 ==> r.is_err() && r.unwrap_err().0 == 403,
    {
        if status_code == 400 {
            Err(
                ApiRequestError(
                    400,
                    "Invalid request, please make sure you follow the documentation for proper syntax.",
                ),
            )
        } else if status_code == 401 {
            Err(ApiRequestError(401, "Problem authenticating the user."))
        } else if status_code == 403 {
            Err(
                ApiRequestError(
                    403,
                    "User was authenticated, but access denied due to lack of permission or rate limiting.",
                ),
            )
        } else if status_code == 502 {
            Err(ApiRequestError(502, "Pocket's sync server is down for scheduled maintenance."))
        } else {
            Ok(())
        }
    }

    /// Classifies a status code.
    pub fn classify(status_code: u16) -> (r: StatusOutcome)
        ensures
            r == Self::outcome(status_code),
    {
        match Self::handler_status(status_code) {
            Err(err) => StatusOutcome::Rejected(err),
            Ok(()) => if 200 <= status_code && status_code <= 299 {
                StatusOutcome::Success
            } else {
                StatusOutcome::Unclassified
            },
        }
    }
}

/// The three outcomes part the status codes between them. A body is decoded
/// for the 2xx range and for nothing else; the four statuses with a
/// documented cause are rejected, each under its own number, and are
/// therefore neither decoded nor left to the transport; whatever remains is
/// the transport's.
pub proof fn lemma_classification(status_code: u16)
    ensures
        ApiRequestError::outcome(status_code) is Success <==> 200 <= status_code <= 299,
        ApiRequestError::outcome(status_code) is Rejected <==> (status_code == 400 || status_code
            == 401 || status_code == 403 || status_code == 502),
        ApiRequestError::outcome(status_code) matches StatusOutcome::Rejected(err) ==> err.0
            == status_code,
{
}

} // verus!
