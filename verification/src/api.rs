//! Answers of the operator API.

use vstd::prelude::*;

verus! {

/// Why a request is refused, by the status code of the answer.
#[derive(Clone, Copy, Debug, PartialEq, Eq, Structural)]
pub enum ApiError {
    BadRequest,
    Unauthorized,
    NotFound,
    Internal,
}

impl ApiError {
    /// The HTTP status code of the answer.
    pub fn status_code(&self) -> (code: u16)
        ensures
            code == match self {
                ApiError::BadRequest => 400u16,
                ApiError::Unauthorized => 401u16,
                ApiError::NotFound => 404u16,
                ApiError::Internal => 500u16,
            },
    {
        match self {
            ApiError::BadRequest => 400,
            ApiError::Unauthorized => 401,
            ApiError::NotFound => 404,
            ApiError::Internal => 500,
        }
    }
}

/// The answer to a request that may queue a job.
#[derive(Debug)]
pub struct EnqueueResponse {
    pub accepted: bool,
    pub job_id: Option<u128>,
    pub message: String,
}

/// What an answer says.
pub struct ResponseView {
    pub accepted: bool,
    pub job_id: Option<u128>,
    pub message: Seq<char>,
}

impl View for EnqueueResponse {
    type V = ResponseView;

    open spec fn view(&self) -> ResponseView {
        ResponseView { accepted: self.accepted, job_id: self.job_id, message: self.message@ }
    }
}

/// The answer that a job was queued, or its cancellation asked for.
pub open spec fn accepted(id: u128, message: Seq<char>) -> ResponseView {
    ResponseView { accepted: true, job_id: Some(id), message }
}

/// The answer that nothing was queued.
pub open spec fn declined(message: Seq<char>) -> ResponseView {
    ResponseView { accepted: false, job_id: None, message }
}

/// Answers that a job was queued, or its cancellation asked for.
pub fn accept(id: u128, message: &str) -> (response: EnqueueResponse)
    ensures
        response@ == accepted(id, message@),
{
    EnqueueResponse { accepted: true, job_id: Some(id), message: message.to_owned() }
}

/// Answers that nothing was queued.
pub fn decline(message: String) -> (response: EnqueueResponse)
    ensures
        response@ == declined(message@),
{
    EnqueueResponse { accepted: false, job_id: None, message }
}

/// Law: an answer says whether a job was queued, which one, and the message given.
pub proof fn answers_say_what_was_done(id: u128, message: Seq<char>, response: EnqueueResponse)
    ensures
        accepted(id, message).accepted,
        accepted(id, message).job_id == Some(id),
        accepted(id, message).message == message,
        !declined(message).accepted,
        declined(message).job_id is None,
        declined(message).message == message,
        response@.accepted == response.accepted,
        response@.job_id == response.job_id,
        response@.message == response.message@,
{
}

} // verus!
