//! Sending the result of a verification to a webhook: what is sent, and when sending is tried
//! again.

use vstd::prelude::*;
use vstd::string::*;

use crate::headers;
use crate::task::{CheckEmailTask, TaskError, Webhook};
use crate::task_id;

verus! {

/// Maximum time for one webhook request, in seconds.
pub const WEBHOOK_TIMEOUT_SECS: u64 = 10;

/// Webhook delivery attempts before giving up.
pub const WEBHOOK_ATTEMPTS: u32 = 3;

/// Base delay between webhook attempts, in seconds; multiplied by the attempt number.
pub const WEBHOOK_RETRY_DELAY_SECS: u64 = 2;

/// The header that carries the identity of the task. It lets the receiver discard duplicate
/// deliveries.
pub const TASK_ID_HEADER: &'static str = "x-reacher-task-id";

/// What is sent to a webhook besides the result: each attempt sends the same.
#[derive(Debug)]
pub struct WebhookRequest<'a> {
    pub url: &'a str,
    /// The headers that the webhook asks for.
    pub headers: http::HeaderMap,
    /// The value of the header `TASK_ID_HEADER`, where the task has an identity.
    pub task_id: Option<String>,
    /// What the webhook wants to be told along with the result.
    pub extra: &'a Option<serde_json::Value>,
}

impl<'a> WebhookRequest<'a> {
    /// Whether this is sent to `webhook` on behalf of the task with this identity, besides the
    /// headers that the webhook asks for.
    pub open spec fn is_for(self, webhook: Webhook, task_id: Option<u128>) -> bool {
        &&& self.url@ == webhook.url@
        &&& self.task_id.deep_view() == match task_id {
            Some(id) => Some(task_id::hyphenated(id)),
            None => None,
        }
        &&& *self.extra == webhook.extra
    }

    /// What is sent to `webhook` on behalf of the task with this identity, where `headers` are the
    /// headers that the webhook asks for.
    pub fn new(webhook: &'a Webhook, headers: http::HeaderMap, task_id: Option<u128>) -> (request:
        WebhookRequest<'a>)
        ensures
            request.is_for(*webhook, task_id),
            request.headers == headers,
    {
        let task_id: Option<String> = match task_id {
            Some(id) => Some(task_id::task_id_text(id)),
            None => None,
        };
        WebhookRequest { url: webhook.url.as_str(), headers, task_id, extra: &webhook.extra }
    }
}

/// The webhook that is told about the result of a task.
pub open spec fn webhook_of(task: CheckEmailTask) -> Option<Webhook> {
    match task.webhook {
        Some(webhook) => webhook.on_each_email,
        None => None,
    }
}

/// What is sent to the webhook of a task, if it has one. It fails where the headers that the
/// webhook asks for are not proper headers.
pub fn prepare_webhook<'a>(task: &'a CheckEmailTask) -> (request: Result<
    Option<WebhookRequest<'a>>,
    TaskError,
>)
    requires
        webhook_of(*task) matches Some(webhook) ==> webhook.headers@.len() <= headers::MAX_HEADERS,
    ensures
        match (request, webhook_of(*task)) {
            (Ok(None), None) => true,
            (Ok(Some(request)), Some(webhook)) => {
                &&& headers::all_proper(webhook.headers@)
                &&& request.is_for(webhook, task.task_id)
                &&& forall|header: (Seq<char>, Seq<u8>)| #[trigger]
                    headers::held_headers(request.headers).count(header) == headers::times_sent(
                        webhook.headers@,
                        header,
                    )
            },
            (Err(TaskError::Headers(message)), Some(webhook)) => {
                &&& !headers::all_proper(webhook.headers@)
                &&& headers::is_complaint_about(message@, webhook.headers@)
            },
            _ => false,
        },
{
    let webhook: &Webhook = match &task.webhook {
        Some(task_webhook) => match &task_webhook.on_each_email {
            Some(webhook) => webhook,
            None => {
                return Ok(None);
            },
        },
        None => {
            return Ok(None);
        },
    };
    let headers: http::HeaderMap = match headers::header_map(&webhook.headers) {
        Ok(headers) => headers,
        Err(error) => {
            return Err(TaskError::Headers(headers::error_message(&error)));
        },
    };
    Ok(Some(WebhookRequest::new(webhook, headers, task.task_id)))
}

/// How one attempt to reach a webhook ended.
#[derive(Debug)]
pub enum Attempt {
    /// The webhook answered with a status code; `detail` describes the answer.
    Answered { status: u16, detail: String },
    /// There was no answer, be it for a timeout or any other reason; `detail` names it.
    Failed { detail: String },
}

impl Attempt {
    /// Whether the result was delivered: the webhook answered with a 2xx status.
    pub open spec fn delivered(self) -> bool {
        self matches Attempt::Answered { status, .. } && 200 <= status < 300
    }

    /// What there is to say about the attempt.
    pub open spec fn detail(self) -> String {
        match self {
            Attempt::Answered { detail, .. } => detail,
            Attempt::Failed { detail } => detail,
        }
    }
}

/// What follows an attempt.
#[derive(Debug)]
pub enum WebhookAction {
    /// The result is delivered.
    Done,
    /// Wait that many seconds, then make another attempt.
    RetryAfter { secs: u64 },
    /// No more attempts are made.
    GiveUp(TaskError),
}

/// What follows the attempt with the number `attempt`, counted from one.
pub open spec fn after_attempt(attempt: int, outcome: Attempt) -> WebhookAction {
    if outcome.delivered() {
        WebhookAction::Done
    } else if attempt < WEBHOOK_ATTEMPTS {
        WebhookAction::RetryAfter { secs: (WEBHOOK_RETRY_DELAY_SECS * attempt) as u64 }
    } else {
        WebhookAction::GiveUp(TaskError::Reqwest(outcome.detail()))
    }
}

/// A delivery under way.
#[derive(Debug)]
pub struct WebhookDelivery {
    attempt: u32,
}

impl WebhookDelivery {
    #[verifier::type_invariant]
    spec fn within_attempts(self) -> bool {
        1 <= self.attempt <= WEBHOOK_ATTEMPTS
    }

    /// The number of the attempt that is being made, counted from one.
    pub closed spec fn attempt(self) -> int {
        self.attempt as int
    }

    /// A delivery whose first attempt is being made.
    pub fn new() -> (delivery: WebhookDelivery)
        ensures
            delivery.attempt() == 1,
    {
        WebhookDelivery { attempt: 1 }
    }

    /// Takes note of how the attempt ended and says what follows.
    pub fn on_attempt(&mut self, outcome: Attempt) -> (action: WebhookAction)
        ensures
            1 <= old(self).attempt() <= WEBHOOK_ATTEMPTS,
            action == after_attempt(old(self).attempt(), outcome),
            final(self).attempt() == if action is RetryAfter {
                old(self).attempt() + 1
            } else {
                old(self).attempt()
            },
    {
        proof {
            use_type_invariant(&*self);
        }
        let detail: String = match outcome {
            Attempt::Answered { status, detail } => {
                if 200 <= status && status < 300 {
                    return WebhookAction::Done;
                }
                detail
            },
            Attempt::Failed { detail } => detail,
        };
        if self.attempt < WEBHOOK_ATTEMPTS {
            let secs: u64 = WEBHOOK_RETRY_DELAY_SECS * (self.attempt as u64);
            self.attempt = self.attempt + 1;
            WebhookAction::RetryAfter { secs }
        } else {
            WebhookAction::GiveUp(TaskError::Reqwest(detail))
        }
    }
}

/// What a delivery comes to.
pub struct DeliveryRun {
    /// How many attempts were made.
    pub attempts: nat,
    /// How many seconds were waited between them.
    pub waited: nat,
    /// How it ended; nothing while it is under way.
    pub result: Option<Result<(), TaskError>>,
}

/// What a delivery comes to that stands at the attempt with the number `attempt`, where the
/// attempts end as `outcomes` says.
pub open spec fn delivery_run(attempt: int, outcomes: Seq<Attempt>) -> DeliveryRun
    decreases outcomes.len(),
{
    if outcomes.len() == 0 {
        DeliveryRun { attempts: 0, waited: 0, result: None }
    } else {
        match after_attempt(attempt, outcomes[0]) {
            WebhookAction::Done => DeliveryRun { attempts: 1, waited: 0, result: Some(Ok(())) },
            WebhookAction::GiveUp(error) => DeliveryRun {
                attempts: 1,
                waited: 0,
                result: Some(Err(error)),
            },
            WebhookAction::RetryAfter { secs } => {
                let rest = delivery_run(attempt + 1, outcomes.drop_first());
                DeliveryRun {
                    attempts: 1 + rest.attempts,
                    waited: secs as nat + rest.waited,
                    result: rest.result,
                }
            },
        }
    }
}

/// A delivery makes at most three attempts, waits two seconds after the first failure and four
/// after the second, succeeds exactly where one of these attempts succeeds, and else fails with
/// the error of the last one.
pub proof fn webhook_delivery_is_bounded(outcomes: Seq<Attempt>)
    requires
        outcomes.len() >= WEBHOOK_ATTEMPTS,
    ensures
        ({
            let run = delivery_run(1, outcomes);
            let first = outcomes[0].delivered();
            let second = outcomes[1].delivered();
            let third = outcomes[2].delivered();
            &&& run.attempts == (if first {
                1nat
            } else if second {
                2
            } else {
                3
            })
            &&& run.waited == (if first {
                0nat
            } else if second {
                2
            } else {
                6
            })
            &&& run.result == Some(
                if first || second || third {
                    Ok(())
                } else {
                    Err(TaskError::Reqwest(outcomes[2].detail()))
                },
            )
        }),
{
    reveal_with_fuel(delivery_run, 4);
    let later = outcomes.drop_first();
    assert(later[0] == outcomes[1]);
    assert(later.drop_first()[0] == outcomes[2]);
}

/// Each wait between two attempts is longer than the one before.
pub proof fn webhook_waits_grow(attempt: int, outcome: Attempt, next_outcome: Attempt)
    requires
        1 <= attempt,
        after_attempt(attempt, outcome) is RetryAfter,
        after_attempt(attempt + 1, next_outcome) is RetryAfter,
    ensures
        after_attempt(attempt, outcome)->secs < after_attempt(attempt + 1, next_outcome)->secs,
{
}

/// What a task comes to that includes telling its webhook: the output of the verification, or the
/// error of a webhook that could not be told.
pub fn check_email_and_send_result<T>(output: T, webhook: Result<(), TaskError>) -> (result: Result<
    T,
    TaskError,
>)
    ensures
        match webhook {
            Ok(_) => result == Ok::<T, TaskError>(output),
            Err(error) => result == Err::<T, TaskError>(error),
        },
{
    match webhook {
        Ok(_) => Ok(output),
        Err(error) => Err(error),
    }
}

/// Only an answer with a status from 200 to 299 delivers the result. An attempt without an answer
/// never does.
pub proof fn only_2xx_delivers(attempt: int, status: u16, detail: String)
    ensures
        after_attempt(attempt, Attempt::Answered { status, detail }) is Done <==> 200 <= status
            <= 299,
        !(after_attempt(attempt, Attempt::Failed { detail }) is Done),
{
}

/// What follows an attempt that did not deliver the result: two seconds after the first and four
/// after the second there is another one, and the third is the last, whose detail becomes the error.
pub proof fn course_after_failed_attempt(attempt: int, outcome: Attempt, detail: String)
    requires
        1 <= attempt <= 3,
        outcome == (Attempt::Failed { detail }) || (outcome matches Attempt::Answered {
            status,
            detail: told,
        } && (status < 200 || status > 299) && told == detail),
    ensures
        after_attempt(attempt, outcome) == if attempt == 1 {
            WebhookAction::RetryAfter { secs: 2 }
        } else if attempt == 2 {
            WebhookAction::RetryAfter { secs: 4 }
        } else {
            WebhookAction::GiveUp(TaskError::Reqwest(detail))
        },
{
}

/// The webhook of a task is the one that it names for each email, and there is none where it names
/// none.
pub proof fn named_webhook_is_told(task: CheckEmailTask)
    ensures
        task.webhook is None ==> webhook_of(task) is None,
        task.webhook matches Some(named) ==> webhook_of(task) == named.on_each_email,
{
}

/// A request goes to the URL of its webhook, with the extra that the webhook wants, and names the
/// task exactly where it has an identity, so that different tasks are named differently.
pub proof fn requests_name_their_task(
    request: WebhookRequest,
    webhook: Webhook,
    task_id: Option<u128>,
    other_request: WebhookRequest,
    other_webhook: Webhook,
    other_task_id: Option<u128>,
)
    requires
        request.is_for(webhook, task_id),
        other_request.is_for(other_webhook, other_task_id),
    ensures
        request.url@ == webhook.url@,
        *request.extra == webhook.extra,
        request.task_id is Some <==> task_id is Some,
        task_id matches Some(id) ==> request.task_id->0@ == task_id::hyphenated(id),
        request.task_id.deep_view() == other_request.task_id.deep_view() <==> task_id
            == other_task_id,
{
    if task_id is Some && other_task_id is Some && task_id::hyphenated(task_id->0)
        == task_id::hyphenated(other_task_id->0) {
        task_id::task_id_texts_are_unique(task_id->0, other_task_id->0);
    }
}

} // verus!
