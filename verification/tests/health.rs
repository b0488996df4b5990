use reacher_backend::health::{check_health, HealthResponse, Ping};

fn body(response: &HealthResponse) -> String {
    let checks: Vec<String> = response
        .checks
        .iter()
        .map(|(name, state)| format!(r#""{}":"{}""#, name, state))
        .collect();
    format!(r#"{{"status":"{}","checks":{{{}}}}}"#, response.status, checks.join(","))
}

#[test]
fn healthy_without_dependencies() {
    let (code, response) = check_health(None, false, None);
    assert_eq!(code, 200);
    assert_eq!(body(&response), r#"{"status":"ok","checks":{}}"#);
}

#[test]
fn unhealthy_when_worker_has_no_broker() {
    let (code, response) = check_health(None, true, None);
    assert_eq!(code, 503);
    assert_eq!(body(&response), r#"{"status":"error","checks":{"rabbitmq":"error"}}"#);
}

#[test]
fn healthy_with_all_dependencies() {
    let (code, response) = check_health(Some(Ping::Answered), true, Some(true));
    assert_eq!(code, 200);
    assert_eq!(body(&response), r#"{"status":"ok","checks":{"database":"ok","rabbitmq":"ok"}}"#);
}

#[test]
fn unhealthy_when_the_database_does_not_answer() {
    for ping in [Ping::Failed, Ping::TimedOut] {
        let (code, response) = check_health(Some(ping), true, Some(true));
        assert_eq!(code, 503);
        assert_eq!(
            body(&response),
            r#"{"status":"error","checks":{"database":"error","rabbitmq":"ok"}}"#
        );
    }
}

#[test]
fn unhealthy_when_the_broker_is_disconnected() {
    let (code, response) = check_health(Some(Ping::Answered), true, Some(false));
    assert_eq!(code, 503);
    assert_eq!(
        body(&response),
        r#"{"status":"error","checks":{"database":"ok","rabbitmq":"error"}}"#
    );
}

#[test]
fn a_backend_without_worker_does_not_look_at_the_broker() {
    let (code, response) = check_health(Some(Ping::Answered), false, Some(false));
    assert_eq!(code, 200);
    assert_eq!(body(&response), r#"{"status":"ok","checks":{"database":"ok"}}"#);
}
