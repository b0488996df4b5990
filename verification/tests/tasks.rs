use std::collections::HashMap;

use reacher_backend::check_email::{CheckEmailInput, WebdriverConfig};
use reacher_backend::headers::MAX_HEADERS;
use reacher_backend::message::{decode_task, identity_in, MessageError};
use reacher_backend::reachability::Reachable;
use reacher_backend::storage::{stored, task_result_row, Stored};
use reacher_backend::task::{CheckEmailJobId, CheckEmailTask, TaskError, TaskWebhook, Webhook};
use reacher_backend::verif_method::VerifMethod;
use reacher_backend::webhook::{
    check_email_and_send_result, prepare_webhook, Attempt, WebhookAction, WebhookDelivery,
    WebhookRequest, TASK_ID_HEADER,
};
use reacher_backend::worker::{Ending, Outcome, Work, WorkAction, WorkState};

fn input() -> CheckEmailInput {
    CheckEmailInput {
        to_email: "test@example.org".into(),
        verif_method: VerifMethod::new_with_same_config_for_all(
            None,
            "localhost".into(),
            "reacher@gmail.com".into(),
            25,
            None,
            1,
        ),
        sentry_dsn: None,
        backend_name: "backend".into(),
        webdriver_config: WebdriverConfig { binary: None },
        webdriver_addr: "http://localhost:9515".into(),
        check_gravatar: false,
        haveibeenpwned_api_key: None,
    }
}

fn task(webhook: Option<TaskWebhook>, task_id: Option<u128>) -> CheckEmailTask {
    CheckEmailTask { input: input(), job_id: CheckEmailJobId::Bulk(1), webhook, task_id }
}

fn webhook(headers: &[(&str, &str)]) -> Option<TaskWebhook> {
    let headers: HashMap<String, String> =
        headers.iter().map(|(k, v)| (k.to_string(), v.to_string())).collect();
    Some(TaskWebhook {
        on_each_email: Some(Webhook { url: "http://127.0.0.1:1/".into(), headers, extra: None }),
    })
}

fn answered(status: u16) -> Attempt {
    Attempt::Answered { status, detail: format!("HTTP status {}", status) }
}

fn failed(detail: &str) -> Attempt {
    Attempt::Failed { detail: detail.into() }
}

#[test]
fn webhook_retries_failed_status_and_sends_task_id() {
    // Fails the first request with 500, accepts the second.
    let task_id = uuid::Uuid::new_v4();
    let task = task(webhook(&[]), Some(task_id.as_u128()));
    let mut hits = 0;
    let mut seen_ids = Vec::new();
    let request = prepare_webhook(&task).unwrap().unwrap();
    let mut delivery = WebhookDelivery::new();
    loop {
        seen_ids.push(request.task_id.clone());
        let status = if hits == 0 { 500 } else { 200 };
        hits += 1;
        match delivery.on_attempt(answered(status)) {
            WebhookAction::Done => break,
            WebhookAction::RetryAfter { secs } => assert_eq!(secs, 2),
            WebhookAction::GiveUp(error) => panic!("{}", error.to_string()),
        }
    }
    assert_eq!(hits, 2);
    let expected = Some(task_id.to_string());
    assert_eq!(seen_ids, vec![expected.clone(), expected]);
}

#[test]
fn webhook_gives_up_after_three_attempts() {
    let mut delivery = WebhookDelivery::new();
    assert!(matches!(
        delivery.on_attempt(failed("connection refused")),
        WebhookAction::RetryAfter { secs: 2 }
    ));
    assert!(matches!(delivery.on_attempt(answered(404)), WebhookAction::RetryAfter { secs: 4 }));
    match delivery.on_attempt(answered(503)) {
        WebhookAction::GiveUp(TaskError::Reqwest(detail)) => assert_eq!(detail, "HTTP status 503"),
        other => panic!("{:?}", other),
    }
}

#[test]
fn only_2xx_counts_as_delivered() {
    for status in [200, 204, 299] {
        assert!(matches!(WebhookDelivery::new().on_attempt(answered(status)), WebhookAction::Done));
    }
    for status in [100, 199, 300, 304, 400, 500] {
        assert!(matches!(
            WebhookDelivery::new().on_attempt(answered(status)),
            WebhookAction::RetryAfter { secs: 2 }
        ));
    }
}

#[test]
fn nothing_is_sent_without_a_webhook() {
    assert!(prepare_webhook(&task(None, None)).unwrap().is_none());
    let silent = Some(TaskWebhook { on_each_email: None });
    assert!(prepare_webhook(&task(silent, Some(1))).unwrap().is_none());
}

#[test]
fn webhook_headers_are_sent() {
    let mut asked = webhook(&[("X-Custom", "a b"), ("Authorization", "Bearer \u{e9}")]);
    asked.as_mut().unwrap().on_each_email.as_mut().unwrap().extra =
        Some(serde_json::Value::Bool(true));
    let task = task(asked, None);
    let request = prepare_webhook(&task).unwrap().unwrap();
    assert_eq!(request.url, "http://127.0.0.1:1/");
    assert_eq!(request.task_id, None);
    assert_eq!(*request.extra, Some(serde_json::Value::Bool(true)));
    assert_eq!(request.headers.len(), 2);
    let names: Vec<&str> = request.headers.keys().map(|name| name.as_str()).collect();
    assert!(names.contains(&"x-custom") && names.contains(&"authorization"));
    assert_eq!(request.headers["x-custom"].as_bytes(), b"a b");
    assert_eq!(request.headers["authorization"].as_bytes(), "Bearer \u{e9}".as_bytes());
}

#[test]
fn names_that_differ_in_case_are_both_sent() {
    let task = task(webhook(&[("X-A", "1"), ("x-a", "2")]), None);
    let request = prepare_webhook(&task).unwrap().unwrap();
    let mut values: Vec<&[u8]> =
        request.headers.get_all("x-a").iter().map(|value| value.as_bytes()).collect();
    values.sort();
    assert_eq!(values, vec![b"1", b"2"]);
}

#[test]
fn improper_headers_are_an_error() {
    let message = |headers: &[(&str, &str)]| {
        let task = task(webhook(headers), None);
        let error = prepare_webhook(&task).unwrap_err();
        assert_eq!(error.status_code(), 500);
        error.to_string()
    };
    let bad_name = "Error converting headers: invalid HTTP header name";
    let bad_value = "Error converting headers: failed to parse header value";
    assert_eq!(message(&[("", "x")]), bad_name);
    assert_eq!(message(&[("a b", "x")]), bad_name);
    assert_eq!(message(&[("\u{e9}", "x")]), bad_name);
    assert_eq!(message(&[("a:b", "x")]), bad_name);
    assert_eq!(message(&[("ok", "a\nb")]), bad_value);
    assert_eq!(message(&[("ok", "\u{7f}")]), bad_value);
    assert_eq!(message(&[("a b", "a\nb")]), bad_name);
}

#[test]
fn every_proper_name_character_is_accepted() {
    let name = "!#$%&'*+-.^_`|~09azAZ";
    let task = task(webhook(&[(name, "\t ~")]), None);
    let request = prepare_webhook(&task).unwrap().unwrap();
    assert_eq!(request.headers.keys().next().unwrap().as_str(), "!#$%&'*+-.^_`|~09azaz");
}

#[test]
fn header_names_have_a_limit() {
    let longest = "n".repeat(65535);
    assert!(prepare_webhook(&task(webhook(&[(longest.as_str(), "x")]), None)).is_ok());
    let too_long = "n".repeat(65536);
    assert!(prepare_webhook(&task(webhook(&[(too_long.as_str(), "x")]), None)).is_err());
}

#[test]
fn as_many_headers_as_allowed_are_converted() {
    let headers: HashMap<String, String> =
        (0..MAX_HEADERS).map(|i| (format!("x-{}", i), i.to_string())).collect();
    let asked = Some(TaskWebhook {
        on_each_email: Some(Webhook { url: "http://a/".into(), headers, extra: None }),
    });
    let task = task(asked, None);
    let request = prepare_webhook(&task).unwrap().unwrap();
    assert_eq!(request.headers.len(), MAX_HEADERS);
}

#[test]
fn task_ids_are_sent_hyphenated() {
    assert_eq!(TASK_ID_HEADER, "x-reacher-task-id");
    let id: u128 = 0x0123456789abcdef_fedcba9876543210;
    let task = task(webhook(&[]), Some(id));
    let request = prepare_webhook(&task).unwrap().unwrap();
    assert_eq!(request.task_id.as_deref(), Some("01234567-89ab-cdef-fedc-ba9876543210"));
}

#[test]
fn a_webhook_failure_fails_the_task_that_waits_for_it() {
    assert_eq!(check_email_and_send_result(7, Ok(())).unwrap(), 7);
    let error = check_email_and_send_result(7, Err(TaskError::Reqwest("down".into()))).unwrap_err();
    assert_eq!(error.to_string(), "Reqwest error during webhook: down");
}

#[test]
fn task_errors_have_a_status_and_a_text() {
    let throttle = TaskError::Throttle("3s".into());
    assert_eq!(throttle.status_code(), 429);
    assert_eq!(throttle.to_string(), "Worker at full capacity, wait 3s");
    let lapin = TaskError::Lapin("closed".into());
    assert_eq!(lapin.status_code(), 500);
    assert_eq!(lapin.to_string(), "Lapin error: closed");
    let reqwest = TaskError::Reqwest("refused".into());
    assert_eq!(reqwest.status_code(), 500);
    assert_eq!(reqwest.to_string(), "Reqwest error during webhook: refused");
    let headers = TaskError::Headers("bad".into());
    assert_eq!(headers.status_code(), 500);
    assert_eq!(headers.to_string(), "Error converting headers: bad");
}

#[test]
fn rows_hold_the_outcome_or_the_error() {
    let mut task = task(None, Some(5));
    let payload = serde_json::Value::String("payload".into());
    let output = serde_json::Value::Bool(true);
    let extra = Some(serde_json::Value::Null);
    let row = task_result_row(&task, payload.clone(), Ok(output.clone()), extra.clone());
    assert_eq!(row.task_id, Some(5));
    assert_eq!(row.payload, payload);
    assert_eq!(row.job_id, Some(1));
    assert_eq!(row.extra, extra);
    assert_eq!(row.result, Some(output));
    assert_eq!(row.error, None);

    task.job_id = CheckEmailJobId::SingleShot;
    let error = Err(TaskError::Lapin("closed".into()));
    let row = task_result_row(&task, payload, error, None);
    assert_eq!(row.task_id, Some(5));
    assert_eq!(row.job_id, None);
    assert_eq!(row.extra, None);
    assert_eq!(row.result, None);
    assert_eq!(row.error.as_deref(), Some("Lapin error: closed"));
}

#[test]
fn untouched_rows_mean_a_duplicate() {
    assert_eq!(stored(0), Stored::Duplicate);
    assert_eq!(stored(1), Stored::Written);
}

/// Carries out the work, where the actions in turn succeed or fail as `successes` says and succeed
/// beyond that.
fn carry_out(work: Work, successes: &[bool]) -> (Vec<WorkAction>, Ending) {
    let mut actions = Vec::new();
    let mut state = work.begin();
    loop {
        if let WorkState::Finished(ending) = state {
            assert_eq!(state.action(), WorkAction::Nothing);
            return (actions, ending);
        }
        let succeeded = successes.get(actions.len()).copied().unwrap_or(true);
        actions.push(state.action());
        state = work.advance(state, succeeded);
    }
}

fn work(job_id: CheckEmailJobId, redelivered: bool, outcome: Outcome) -> Work {
    Work { job_id, redelivered, outcome }
}

const SAFE: Outcome = Outcome::Checked(Reachable::Safe);
const UNKNOWN: Outcome = Outcome::Checked(Reachable::Unknown);
const REQUEUE: WorkAction = WorkAction::Reject { requeue: true };
const DROP: WorkAction = WorkAction::Reject { requeue: false };

#[test]
fn inconclusive_results_are_requeued_once() {
    for outcome in [UNKNOWN, Outcome::Failed] {
        let first = work(CheckEmailJobId::Bulk(1), false, outcome);
        assert_eq!(carry_out(first, &[]), (vec![REQUEUE], Ending::Success));
        assert_eq!(carry_out(first, &[false]), (vec![REQUEUE], Ending::ActionFailed));
    }
    let second = work(CheckEmailJobId::Bulk(1), true, UNKNOWN);
    assert_eq!(
        carry_out(second, &[]),
        (
            vec![
                WorkAction::Store,
                WorkAction::Ack,
                WorkAction::SendWebhook,
                WorkAction::Report
            ],
            Ending::Success
        )
    );
    let failed = work(CheckEmailJobId::Bulk(1), true, Outcome::Failed);
    assert_eq!(
        carry_out(failed, &[]),
        (vec![WorkAction::Store, WorkAction::Ack, WorkAction::Report], Ending::Success)
    );
}

#[test]
fn results_are_stored_before_they_are_acknowledged() {
    let single = work(CheckEmailJobId::SingleShot, false, SAFE);
    assert_eq!(
        carry_out(single, &[]),
        (
            vec![
                WorkAction::Store,
                WorkAction::Ack,
                WorkAction::Reply,
                WorkAction::SendWebhook,
                WorkAction::Report
            ],
            Ending::Success
        )
    );
    let bulk = work(CheckEmailJobId::Bulk(1), false, SAFE);
    assert_eq!(
        carry_out(bulk, &[true, false]),
        (vec![WorkAction::Store, WorkAction::Ack], Ending::ActionFailed)
    );
}

#[test]
fn a_storage_failure_leaves_a_bulk_task_recoverable() {
    let bulk = work(CheckEmailJobId::Bulk(1), true, SAFE);
    let pause = WorkAction::Sleep { secs: 5 };
    assert_eq!(
        carry_out(bulk, &[false]),
        (vec![WorkAction::Store, pause, REQUEUE], Ending::StorageFailed)
    );
    assert_eq!(
        carry_out(bulk, &[false, true, false]),
        (vec![WorkAction::Store, pause, REQUEUE], Ending::ActionFailed)
    );
}

#[test]
fn a_storage_failure_still_answers_a_single_shot_caller() {
    let single = work(CheckEmailJobId::SingleShot, false, SAFE);
    assert_eq!(
        carry_out(single, &[false]),
        (vec![WorkAction::Store, DROP, WorkAction::Reply], Ending::StorageFailed)
    );
    assert_eq!(
        carry_out(single, &[false, false]),
        (vec![WorkAction::Store, DROP], Ending::ActionFailed)
    );
    assert_eq!(
        carry_out(single, &[false, true, false]),
        (vec![WorkAction::Store, DROP, WorkAction::Reply], Ending::ActionFailed)
    );
}

#[test]
fn a_webhook_failure_does_not_fail_stored_work() {
    let bulk = work(CheckEmailJobId::Bulk(1), false, SAFE);
    let actions =
        vec![WorkAction::Store, WorkAction::Ack, WorkAction::SendWebhook, WorkAction::Report];
    assert_eq!(carry_out(bulk, &[true, true, false]), (actions.clone(), Ending::Success));
    assert_eq!(carry_out(bulk, &[true, true, true, false]), (actions, Ending::ActionFailed));
}

#[test]
fn redelivered_task_makes_rows_of_one_identity() {
    let queued = task(None, Some(9));
    let payload = serde_json::Value::Null;
    let first = task_result_row(&queued, payload.clone(), Ok(serde_json::Value::Bool(true)), None);
    let error = Err(TaskError::Reqwest("down".into()));
    let second = task_result_row(&queued, payload, error, None);
    assert_eq!(first.task_id, Some(9));
    assert_eq!(first.task_id, second.task_id);
    assert_eq!(first.job_id, second.job_id);
}

#[test]
fn a_request_is_made_of_given_headers() {
    let asked = webhook(&[("X-Ignored", "1")]).unwrap().on_each_email.unwrap();
    let mut headers = http::HeaderMap::new();
    headers.insert("x-given", http::HeaderValue::from_static("2"));
    let request = WebhookRequest::new(&asked, headers.clone(), Some(1));
    assert_eq!(request.url, "http://127.0.0.1:1/");
    assert_eq!(request.headers, headers);
    assert_eq!(request.task_id.as_deref(), Some("00000000-0000-0000-0000-000000000001"));
    assert_eq!(*request.extra, None);
    let anonymous = WebhookRequest::new(&asked, headers, None);
    assert_eq!(anonymous.task_id, None);
}

#[test]
fn webhooks_can_be_cloned() {
    let asked = webhook(&[("X-A", "1")]).unwrap();
    let copy = asked.clone().on_each_email.unwrap();
    let original = asked.on_each_email.unwrap();
    assert_eq!(copy.url, original.url);
    assert_eq!(copy.headers, original.headers);
    assert_eq!(copy.extra, original.extra);
}

#[test]
fn finished_work_is_settled_although_reply_or_report_fail() {
    let single = work(CheckEmailJobId::SingleShot, false, SAFE);
    assert_eq!(
        carry_out(single, &[true, true, false]),
        (vec![WorkAction::Store, WorkAction::Ack, WorkAction::Reply], Ending::ActionFailed)
    );
    let failed = work(CheckEmailJobId::Bulk(1), true, Outcome::Failed);
    assert_eq!(
        carry_out(failed, &[true, true, false]),
        (vec![WorkAction::Store, WorkAction::Ack, WorkAction::Report], Ending::ActionFailed)
    );
}

fn message(text: &str) -> serde_json::Value {
    serde_json::from_str(text).unwrap()
}

#[test]
fn decodes_messages_published_without_task_id() {
    let task_id = uuid::Uuid::new_v4();
    let mut json = message(&format!(
        r#"{{"input": {{}}, "job_id": {{"bulk": 1}}, "webhook": null, "task_id": "{}"}}"#,
        task_id
    ));
    let decoded = decode_task(&json, input(), CheckEmailJobId::Bulk(1), None).unwrap();
    assert_eq!(decoded.task_id, Some(task_id.as_u128()));
    json.as_object_mut().unwrap().remove("task_id");

    let decoded = decode_task(&json, input(), CheckEmailJobId::Bulk(1), None).unwrap();
    assert_eq!(decoded.task_id, None);
    assert_eq!(decoded.job_id, CheckEmailJobId::Bulk(1));
    assert_eq!(decoded.input.to_email, "test@example.org");
    assert!(decoded.webhook.is_none());
}

#[test]
fn identities_are_read_in_every_form() {
    let id: u128 = 0x0123456789abcdef_fedcba9876543210;
    for form in [
        "01234567-89ab-cdef-fedc-ba9876543210",
        "01234567-89AB-CDEF-FEDC-BA9876543210",
        "0123456789abcdeffedcba9876543210",
        "{01234567-89ab-cdef-fedc-ba9876543210}",
        "urn:uuid:01234567-89ab-cdef-fedc-ba9876543210",
        "URN:UUID:01234567-89ab-cdef-fedc-BA9876543210",
    ] {
        let json = message(&format!(r#"{{"task_id": "{}"}}"#, form));
        assert_eq!(identity_in(&json), Ok(Some(id)), "{form}");
    }
    assert_eq!(identity_in(&message(r#"{"task_id": null}"#)), Ok(None));
}

#[test]
fn improper_identities_are_an_error() {
    for form in [
        "",
        "01234567-89ab-cdef-fedc-ba987654321",
        "01234567-89ab-cdef-fedc-ba987654321g",
        "0123456789ab-cdef-fedc-ba98-76543210",
        "{0123456789abcdeffedcba9876543210}",
        "{01234567-89ab-cdef-fedc-ba9876543210",
        "uuid:urn:01234567-89ab-cdef-fedc-ba9876543210",
        "01234567-89ab-cdef-fedc-ba98765432\u{e9}",
        " 0123456789abcdeffedcba987654321",
    ] {
        let json = message(&format!(r#"{{"task_id": "{}"}}"#, form));
        assert_eq!(identity_in(&json), Err(MessageError::IdentityNotUuid), "{form}");
    }
    for entry in ["1", "true", "[]", "{}"] {
        let json = message(&format!(r#"{{"task_id": {}}}"#, entry));
        assert_eq!(identity_in(&json), Err(MessageError::IdentityNotText));
        assert!(decode_task(&json, input(), CheckEmailJobId::SingleShot, None).is_err());
    }
}
