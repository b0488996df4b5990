//! The messages of the queue: how the identity of a task is read from its message.

use vstd::prelude::*;

use crate::check_email::CheckEmailInput;
use crate::json;
use crate::json::Json;
use crate::storage;
use crate::storage::TaskResultRow;
use crate::task::{CheckEmailJobId, CheckEmailTask, TaskError, TaskWebhook};
use crate::task_id;

verus! {

/// Why a message holds no task.
#[derive(Debug, Clone, Copy, PartialEq, Eq, Structural)]
pub enum MessageError {
    /// Its `task_id` is neither a text nor `null`.
    IdentityNotText,
    /// Its `task_id` is a text that stands for no UUID.
    IdentityNotUuid,
}

/// Whether `identity` is what a message says about the identity of its task. The entry `task_id` is
/// absent on messages published before it existed; such a task has no identity.
pub open spec fn is_identity_in(
    message: Json,
    identity: Result<Option<u128>, MessageError>,
) -> bool {
    match message.at("task_id"@) {
        Json::Null => identity == Ok::<Option<u128>, MessageError>(None),
        Json::Text(text) => match identity {
            Ok(Some(id)) => task_id::stands_for(text, id),
            Ok(None) => false,
            Err(error) => error is IdentityNotUuid && forall|id: u128| !task_id::stands_for(text, id),
        },
        _ => identity == Err::<Option<u128>, MessageError>(MessageError::IdentityNotText),
    }
}

/// The entry `task_id` of a message that is published for a task with this identity.
pub open spec fn identity_entry(identity: Option<u128>) -> Json {
    match identity {
        Some(id) => Json::Text(task_id::hyphenated(id)),
        None => Json::Null,
    }
}

/// The identity that a message gives its task.
pub fn identity_in(message: &serde_json::Value) -> (identity: Result<Option<u128>, MessageError>)
    ensures
        is_identity_in(json::document(*message), identity),
{
    let entry: &serde_json::Value = json::value_at(message, "task_id");
    if json::value_is_null(entry) {
        return Ok(None);
    }
    match json::value_as_str(entry) {
        Some(text) => match task_id::parse_task_id(text) {
            Ok(id) => Ok(Some(id)),
            Err(_) => Err(MessageError::IdentityNotUuid),
        },
        None => Err(MessageError::IdentityNotText),
    }
}

/// The task that a message holds, where `input`, `job_id` and `webhook` are what it says about the
/// rest.
pub fn decode_task(
    message: &serde_json::Value,
    input: CheckEmailInput,
    job_id: CheckEmailJobId,
    webhook: Option<TaskWebhook>,
) -> (task: Result<CheckEmailTask, MessageError>)
    ensures
        match task {
            Ok(task) => {
                &&& task.input == input
                &&& task.job_id == job_id
                &&& task.webhook == webhook
                &&& is_identity_in(json::document(*message), Ok(task.task_id))
            },
            Err(error) => is_identity_in(json::document(*message), Err(error)),
        },
{
    match identity_in(message) {
        Ok(task_id) => Ok(CheckEmailTask { input, job_id, webhook, task_id }),
        Err(error) => Err(error),
    }
}

/// A message says one thing about the identity of its task.
pub proof fn identity_is_unambiguous(
    message: Json,
    a: Result<Option<u128>, MessageError>,
    b: Result<Option<u128>, MessageError>,
)
    requires
        is_identity_in(message, a),
        is_identity_in(message, b),
    ensures
        a == b,
{
    if let Json::Text(text) = message.at("task_id"@) {
        if a is Ok && b is Ok {
            task_id::text_stands_for_one_task_id(text, a->Ok_0->0, b->Ok_0->0);
        }
    }
}

/// The identity of a task survives its way through the queue: what is read from a message is what
/// it was published with.
pub proof fn identity_survives_the_queue(
    message: Json,
    published: Option<u128>,
    read: Result<Option<u128>, MessageError>,
)
    requires
        message.at("task_id"@) == identity_entry(published),
        is_identity_in(message, read),
    ensures
        read == Ok::<Option<u128>, MessageError>(published),
{
    if let Some(id) = published {
        task_id::sent_text_stands_for_its_task_id(id);
        identity_is_unambiguous(message, read, Ok(published));
    }
}

/// A message published before identities existed still holds a task, one without an identity.
pub proof fn old_messages_are_decoded(
    message: Json,
    identity: Result<Option<u128>, MessageError>,
)
    requires
        message.member("task_id"@) is None,
        is_identity_in(message, identity),
    ensures
        identity == Ok::<Option<u128>, MessageError>(None),
{
}

/// Each time the task of such an old message is stored, the table gains exactly one row, under no
/// identity and for the job of the task, and the rows that it held stay as they are.
pub proof fn old_messages_store_a_row_each_time(
    table: Seq<TaskResultRow>,
    message: Json,
    task: CheckEmailTask,
    row: TaskResultRow,
    payload: serde_json::Value,
    worker_output: Result<serde_json::Value, TaskError>,
    extra: Option<serde_json::Value>,
)
    requires
        message.member("task_id"@) is None,
        is_identity_in(message, Ok(task.task_id)),
        storage::is_row_for(row, task, payload, worker_output, extra),
    ensures
        row.task_id is None,
        row.job_id == storage::job_of(task.job_id),
        storage::rows_inserted(table, row) == 1,
        storage::after_insert(table, row) == table.push(row),
{
    old_messages_are_decoded(message, Ok(task.task_id));
    storage::rows_without_identity_never_conflict(table, row);
}

/// Whatever the form in which a message names the identity of its task, letters in either case, that
/// identity is read.
pub proof fn identities_are_read_in_every_form(
    message: Json,
    text: Seq<char>,
    id: u128,
    read: Result<Option<u128>, MessageError>,
)
    requires
        message.member("task_id"@) == Some(Json::Text(text)),
        ({
            let lower = task_id::lowered(text);
            let hyphenated = task_id::hyphenated(id);
            ||| lower == hyphenated
            ||| lower == task_id::unhyphenated(id)
            ||| lower == seq!['{'] + hyphenated + seq!['}']
            ||| lower == "urn:uuid:"@ + hyphenated
        }),
        is_identity_in(message, read),
    ensures
        read == Ok::<Option<u128>, MessageError>(Some(id)),
{
    identity_is_unambiguous(message, read, Ok(Some(id)));
}

/// A message whose `task_id` is neither missing nor `null` never holds a task without an identity:
/// what is no UUID is refused, and said to be no text where it is none.
pub proof fn improper_identities_are_refused(
    message: Json,
    entry: Json,
    read: Result<Option<u128>, MessageError>,
)
    requires
        message.member("task_id"@) == Some(entry),
        !(entry is Null),
        is_identity_in(message, read),
    ensures
        !(entry is Text) ==> read == Err::<Option<u128>, MessageError>(
            MessageError::IdentityNotText,
        ),
        entry matches Json::Text(text) ==> match read {
            Ok(Some(id)) => task_id::stands_for(text, id),
            Ok(None) => false,
            Err(error) => error is IdentityNotUuid && forall|id: u128| !task_id::stands_for(text, id),
        },
{
}

/// A `task_id` of `null` gives no identity, as a missing one does.
pub proof fn null_gives_no_identity(message: Json, read: Result<Option<u128>, MessageError>)
    requires
        message.member("task_id"@) == Some(Json::Null),
        is_identity_in(message, read),
    ensures
        read == Ok::<Option<u128>, MessageError>(None),
{
}

} // verus!
