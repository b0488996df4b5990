//! Verification tasks, as they stand in the queue, and what can go wrong with them.

use std::collections::HashMap;

use vstd::prelude::*;
use vstd::string::*;

use crate::check_email::CheckEmailInput;

verus! {

/// A verification that stands in the queue.
#[derive(Debug)]
pub struct CheckEmailTask {
    pub input: CheckEmailInput,
    pub job_id: CheckEmailJobId,
    pub webhook: Option<TaskWebhook>,
    /// Stable identity of a queued task (the number of its UUID), so a redelivered message cannot
    /// store a second result. Absent on messages published before it existed.
    pub task_id: Option<u128>,
}

#[derive(Debug, Clone, Copy, PartialEq, Eq, Structural)]
pub enum CheckEmailJobId {
    /// Single-shot email verification, they won't have an actual job id.
    SingleShot,
    /// Job id of the bulk verification.
    Bulk(i32),
}

#[derive(Debug, Clone)]
pub struct TaskWebhook {
    pub on_each_email: Option<Webhook>,
}

#[derive(Debug, Clone)]
pub struct Webhook {
    pub url: String,
    pub headers: HashMap<String, String>,
    pub extra: Option<serde_json::Value>,
}

/// The errors that can occur when processing a task, each with what there is to say about it.
#[derive(Debug)]
pub enum TaskError {
    /// The worker is at full capacity and cannot accept more tasks. This error only occurs for
    /// single-shot tasks: a bulk task simply stays in the queue until a worker is ready for it.
    Throttle(String),
    /// The message broker failed.
    Lapin(String),
    /// The request to the webhook failed.
    Reqwest(String),
    /// The headers of the webhook are not proper headers.
    Headers(String),
}

impl TaskError {
    /// The status code for the client: 429 when the worker is at full capacity, else 500.
    pub open spec fn status(self) -> u16 {
        if self is Throttle {
            429
        } else {
            500
        }
    }

    /// The error in words.
    pub open spec fn message(self) -> Seq<char> {
        match self {
            TaskError::Throttle(wait) => "Worker at full capacity, wait "@ + wait@,
            TaskError::Lapin(error) => "Lapin error: "@ + error@,
            TaskError::Reqwest(error) => "Reqwest error during webhook: "@ + error@,
            TaskError::Headers(error) => "Error converting headers: "@ + error@,
        }
    }

    /// Returns the status code that should be returned to the client.
    pub fn status_code(&self) -> (code: u16)
        ensures
            code == self.status(),
    {
        match self {
            TaskError::Throttle(_) => 429,
            TaskError::Lapin(_) => 500,
            TaskError::Reqwest(_) => 500,
            TaskError::Headers(_) => 500,
        }
    }

    /// The error in words, which is also how it is serialized.
    pub fn to_string(&self) -> (text: String)
        ensures
            text@ == self.message(),
    {
        match self {
            TaskError::Throttle(wait) => "Worker at full capacity, wait ".to_owned().concat(
                wait.as_str(),
            ),
            TaskError::Lapin(error) => "Lapin error: ".to_owned().concat(error.as_str()),
            TaskError::Reqwest(error) => "Reqwest error during webhook: ".to_owned().concat(
                error.as_str(),
            ),
            TaskError::Headers(error) => "Error converting headers: ".to_owned().concat(
                error.as_str(),
            ),
        }
    }
}

/// A client is told to come back later exactly where the worker is at full capacity; any other error
/// is an internal one.
pub proof fn only_full_capacity_is_too_many_requests(error: TaskError)
    ensures
        error is Throttle ==> error.status() == 429,
        !(error is Throttle) ==> error.status() == 500,
{
}

/// An error in words says what kind it is and then the whole of its detail.
pub proof fn messages_end_with_the_detail(error: TaskError)
    ensures
        match error {
            TaskError::Throttle(detail) => error.message() == "Worker at full capacity, wait "@
                + detail@,
            TaskError::Lapin(detail) => error.message() == "Lapin error: "@ + detail@,
            TaskError::Reqwest(detail) => error.message() == "Reqwest error during webhook: "@
                + detail@,
            TaskError::Headers(detail) => error.message() == "Error converting headers: "@
                + detail@,
        },
{
}

} // verus!
