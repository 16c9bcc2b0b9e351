//! Turning the provider's answer (status and decoded body) into candidate
//! commit messages or a typed error, whichever provider answered.

use vstd::prelude::*;
use crate::error::CommitError;
use crate::request::ApiMessage;
use crate::text::{candidate_lines, extract_candidates, views};

verus! {

/// One completion choice.
pub struct Choice {
    pub message: ApiMessage,
}

/// A successful completion: its choices, in order.
pub struct ChatCompletionResponse {
    pub choices: Vec<Choice>,
}

/// The detail of a provider's structured error.
pub struct ErrorDetail {
    pub message: String,
    pub error_type: String,
}

/// A provider's structured error body.
pub struct APIError {
    pub error: ErrorDetail,
}

/// A 2xx status.
pub open spec fn is_success_status(status: u16) -> bool {
    200 <= status && status < 300
}

/// Whether `status` is a success (2xx) status.
pub fn status_is_success(status: u16) -> (r: bool)
    ensures
        r == is_success_status(status),
{
    200 <= status && status < 300
}

/// Reconciles an HTTP answer. `as_completion` is the body decoded as a
/// completion, or the decoder's diagnostic; `as_error` is the body decoded as
/// a structured error, if it is one.
///
/// On a 2xx status: an undecodable body is `MalformedSuccess` (with the
/// diagnostic and the raw body), a completion without choices is
/// `EmptyCompletion`, and otherwise the first choice's content gives the
/// candidates. On any other status: a structured error is `ProviderError`,
/// anything else `HttpError` with the body verbatim.
pub fn reconcile(
    status: u16,
    body: String,
    as_completion: Result<ChatCompletionResponse, String>,
    as_error: Option<APIError>,
) -> (r: Result<Vec<String>, CommitError>)
    ensures
        is_success_status(status) && as_completion is Err ==> r == Err::<Vec<String>, CommitError>(
            CommitError::MalformedSuccess { diagnostic: as_completion->Err_0, body },
        ),
        is_success_status(status) && as_completion is Ok && as_completion->Ok_0.choices@.len()
            == 0 ==> r == Err::<Vec<String>, CommitError>(CommitError::EmptyCompletion),
        is_success_status(status) && as_completion is Ok && as_completion->Ok_0.choices@.len()
            > 0 ==> r is Ok && views(r->Ok_0@) == candidate_lines(
            as_completion->Ok_0.choices@[0].message.content@,
        ),
        !is_success_status(status) && as_error is Some ==> r == Err::<Vec<String>, CommitError>(
            CommitError::ProviderError {
                error_type: as_error->Some_0.error.error_type,
                message: as_error->Some_0.error.message,
            },
        ),
        !is_success_status(status) && as_error is None ==> r == Err::<Vec<String>, CommitError>(
            CommitError::HttpError { status, body },
        ),
{
    if status_is_success(status) {
        match as_completion {
            Err(diagnostic) => Err(CommitError::MalformedSuccess { diagnostic, body }),
            Ok(response) => {
                if response.choices.len() == 0 {
                    Err(CommitError::EmptyCompletion)
                } else {
                    Ok(extract_candidates(response.choices[0].message.content.as_str()))
                }
            },
        }
    } else {
        match as_error {
            Some(e) => Err(
                CommitError::ProviderError {
                    error_type: e.error.error_type,
                    message: e.error.message,
                },
            ),
            None => Err(CommitError::HttpError { status, body }),
        }
    }
}

/// The candidate at a 1-based position, if there is one.
pub fn pick_candidate(candidates: &Vec<String>, position: usize) -> (r: Option<String>)
    ensures
        1 <= position <= candidates@.len() ==> r == Some(candidates@[position - 1]),
        !(1 <= position <= candidates@.len()) ==> r is None,
{
    if position >= 1 && position <= candidates.len() {
        Some(candidates[position - 1].clone())
    } else {
        None
    }
}

} // verus!
