use vstd::prelude::*;

use crate::errors::{AppError, ErrorKind};
use crate::models::Hours;

verus! {

/// What came back from one bounded call to the duration-prediction service.
#[derive(Debug, Clone, Copy, PartialEq, Eq, Structural)]
pub enum EstimateReply {
    /// The request could not be sent, or no answer came before the timeout.
    Unreachable,
    /// The service answered with an HTTP `status`; `predicted_hours` is the number
    /// found under that key in the body, if the body held one.
    Answered { status: u16, predicted_hours: Option<Hours> },
}

/// A 2xx status.
pub open spec fn is_success(status: u16) -> bool {
    200 <= status < 300
}

/// The strict reading of a reply: the prediction, or why there is none.
pub open spec fn spec_prediction(reply: EstimateReply) -> Result<Hours, ErrorKind> {
    match reply {
        EstimateReply::Unreachable => Err(ErrorKind::Internal),
        EstimateReply::Answered { status, predicted_hours } => if !is_success(status) {
            Err(ErrorKind::Internal)
        } else {
            match predicted_hours {
                Some(h) => Ok(h),
                None => Err(ErrorKind::Internal),
            }
        },
    }
}

/// Which step of the call failed, as the strict reading reports it.
pub open spec fn failure_message(reply: EstimateReply) -> Seq<char> {
    match reply {
        EstimateReply::Unreachable => "ML service unavailable"@,
        EstimateReply::Answered { status, .. } => if !is_success(status) {
            "ML service error"@
        } else {
            "Invalid ML response"@
        },
    }
}

/// The best-effort reading of a reply: every failure becomes `None`.
pub open spec fn spec_prediction_or_none(reply: EstimateReply) -> Option<Hours> {
    match spec_prediction(reply) {
        Ok(h) => Some(h),
        Err(_) => None,
    }
}

/// The endpoint of the prediction service under `base_url`.
pub fn predict_url(base_url: &str) -> (r: String)
    ensures
        r@ == base_url@ + "/predict"@,
{
    String::from_str(base_url).concat("/predict")
}

/// Strict reading of a reply, for diagnostics: each failure is an internal error
/// that says which step failed. Never used on the task-creation path.
pub fn prediction_from_reply(reply: EstimateReply) -> (r: Result<Hours, AppError>)
    ensures
        match spec_prediction(reply) {
            Ok(h) => r == Ok::<Hours, AppError>(h),
            Err(k) => r matches Err(e) && e.spec_kind() == k,
        },
        r matches Err(e) ==> e.spec_message() == failure_message(reply),
{
    match reply {
        EstimateReply::Unreachable => Err(
            AppError::Internal(String::from_str("ML service unavailable")),
        ),
        EstimateReply::Answered { status, predicted_hours } => {
            if status < 200 || status >= 300 {
                return Err(AppError::Internal(String::from_str("ML service error")));
            }
            match predicted_hours {
                Some(h) => Ok(h),
                None => Err(AppError::Internal(String::from_str("Invalid ML response"))),
            }
        },
    }
}

/// Best-effort reading of a reply: never fails, a failed call gives no estimate.
pub fn prediction_or_none(reply: EstimateReply) -> (r: Option<Hours>)
    ensures
        r == spec_prediction_or_none(reply),
{
    match prediction_from_reply(reply) {
        Ok(h) => Some(h),
        Err(_) => None,
    }
}

} // verus!
