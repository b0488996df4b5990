//! The `GET /health` endpoint, for load balancers and container health checks. It reports only
//! "ok" or "error" for each dependency, never error details.

use vstd::prelude::*;

verus! {

/// Maximum time for each dependency check, in seconds.
pub const CHECK_TIMEOUT_SECS: u64 = 3;

/// How the check of the database ended.
#[derive(Debug, Clone, Copy, PartialEq, Eq, Structural)]
pub enum Ping {
    Answered,
    Failed,
    TimedOut,
}

/// The body of the answer.
#[derive(Debug)]
pub struct HealthResponse {
    pub status: &'static str,
    /// Only dependencies this backend is configured to use are listed, in the order of their names.
    pub checks: Vec<(&'static str, &'static str)>,
}

/// "ok" or "error".
pub open spec fn state(ok: bool) -> Seq<char> {
    if ok {
        "ok"@
    } else {
        "error"@
    }
}

/// Whether the broker is there: a worker without a broker is as bad as one that lost it.
pub open spec fn broker_ok(broker_connected: Option<bool>) -> bool {
    broker_connected == Some(true)
}

/// The states of the dependencies that the backend is configured to use.
pub open spec fn dependency_checks(
    database: Option<Ping>,
    worker_enabled: bool,
    broker_connected: Option<bool>,
) -> Seq<(Seq<char>, Seq<char>)> {
    let database_check = match database {
        Some(ping) => seq![("database"@, state(ping is Answered))],
        None => seq![],
    };
    let broker_check = if worker_enabled {
        seq![("rabbitmq"@, state(broker_ok(broker_connected)))]
    } else {
        seq![]
    };
    database_check + broker_check
}

/// Whether every dependency that the backend is configured to use is there.
pub open spec fn is_healthy(
    database: Option<Ping>,
    worker_enabled: bool,
    broker_connected: Option<bool>,
) -> bool {
    &&& database matches Some(ping) ==> ping is Answered
    &&& worker_enabled ==> broker_ok(broker_connected)
}

/// The status code of the answer: 200 for a healthy backend, 503 for any other.
pub open spec fn status_code(healthy: bool) -> u16 {
    if healthy {
        200
    } else {
        503
    }
}

impl View for HealthResponse {
    type V = (Seq<char>, Seq<(Seq<char>, Seq<char>)>);

    open spec fn view(&self) -> (Seq<char>, Seq<(Seq<char>, Seq<char>)>) {
        (
            self.status@,
            self.checks@.map_values(|check: (&'static str, &'static str)| (check.0@, check.1@)),
        )
    }
}

/// "ok" or "error".
fn state_text(ok: bool) -> (text: &'static str)
    ensures
        text@ == state(ok),
{
    if ok {
        "ok"
    } else {
        "error"
    }
}

/// The status code and the body of the answer. `database` is how the check of the database ended,
/// where there is one. `broker_connected` says whether the broker is connected, where the worker
/// has one.
pub fn check_health(
    database: Option<Ping>,
    worker_enabled: bool,
    broker_connected: Option<bool>,
) -> (answer: (u16, HealthResponse))
    ensures
        answer.0 == status_code(is_healthy(database, worker_enabled, broker_connected)),
        answer.1@ == (
            state(is_healthy(database, worker_enabled, broker_connected)),
            dependency_checks(database, worker_enabled, broker_connected),
        ),
{
    let mut checks: Vec<(&'static str, &'static str)> = Vec::new();
    let mut healthy: bool = true;
    if let Some(ping) = database {
        let ok: bool = match ping {
            Ping::Answered => true,
            _ => false,
        };
        checks.push(("database", state_text(ok)));
        healthy = healthy && ok;
    }
    if worker_enabled {
        let ok: bool = match broker_connected {
            Some(connected) => connected,
            None => false,
        };
        checks.push(("rabbitmq", state_text(ok)));
        healthy = healthy && ok;
    }
    let code: u16 = if healthy {
        200
    } else {
        503
    };
    let body: HealthResponse = HealthResponse { status: state_text(healthy), checks };
    assert(body@.1 =~= dependency_checks(database, worker_enabled, broker_connected));
    (code, body)
}

/// The backend is healthy exactly where every listed dependency is "ok"; with none listed it is.
pub proof fn healthy_means_all_listed_are_ok(
    database: Option<Ping>,
    worker_enabled: bool,
    broker_connected: Option<bool>,
)
    ensures
        is_healthy(database, worker_enabled, broker_connected) <==> (forall|i: int|
            0 <= i < dependency_checks(database, worker_enabled, broker_connected).len() ==> (
            #[trigger] dependency_checks(database, worker_enabled, broker_connected)[i]).1
                == "ok"@),
{
    reveal_strlit("ok");
    reveal_strlit("error");
    let checks = dependency_checks(database, worker_enabled, broker_connected);
    assert("ok"@.len() != "error"@.len());
    if database is Some {
        assert(checks[0].1 == state(database->0 is Answered));
    }
    if worker_enabled {
        assert(checks[checks.len() - 1].1 == state(broker_ok(broker_connected)));
    }
}

/// Of each dependency only "ok" or "error" is told, and only of dependencies that the backend is
/// configured to use.
pub proof fn no_details_are_told(
    database: Option<Ping>,
    worker_enabled: bool,
    broker_connected: Option<bool>,
    i: int,
)
    requires
        0 <= i < dependency_checks(database, worker_enabled, broker_connected).len(),
    ensures
        ({
            let check = dependency_checks(database, worker_enabled, broker_connected)[i];
            &&& check.1 == "ok"@ || check.1 == "error"@
            &&& check.0 == "database"@ && database is Some || check.0 == "rabbitmq"@
                && worker_enabled
        }),
{
}

/// The answer over what was found. The database is listed exactly where there is one, and is ok
/// exactly where it answered. The broker is listed exactly where the worker is enabled, and is ok
/// exactly where it is connected. The database comes first. The status is 200 and "ok" where neither
/// is listed as an error, and else 503 and "error".
pub proof fn answer_over_what_was_found(
    database: Option<Ping>,
    worker_enabled: bool,
    broker_connected: Option<bool>,
)
    ensures
        ({
            let checks = dependency_checks(database, worker_enabled, broker_connected);
            let healthy = is_healthy(database, worker_enabled, broker_connected);
            let database_fails = database == Some(Ping::Failed) || database == Some(Ping::TimedOut);
            let broker_fails = worker_enabled && broker_connected != Some(true);
            let broker: int = if database is Some {
                1
            } else {
                0
            };
            &&& checks.len() == broker + if worker_enabled {
                1int
            } else {
                0
            }
            &&& database is Some ==> checks[0].0 == "database"@ && checks[0].1 == if database_fails {
                "error"@
            } else {
                "ok"@
            }
            &&& worker_enabled ==> checks[broker].0 == "rabbitmq"@ && checks[broker].1
                == if broker_fails {
                "error"@
            } else {
                "ok"@
            }
            &&& healthy <==> !database_fails && !broker_fails
            &&& status_code(healthy) == if database_fails || broker_fails {
                503u16
            } else {
                200
            }
            &&& state(healthy) == if database_fails || broker_fails {
                "error"@
            } else {
                "ok"@
            }
        }),
{
}

/// The body tells its status and lists its checks one by one, in their order.
pub proof fn bodies_are_read_check_by_check(response: HealthResponse)
    ensures
        response@.0 == response.status@,
        response@.1.len() == response.checks@.len(),
        forall|i: int|
            0 <= i < response.checks@.len() ==> (#[trigger] response@.1[i]).0
                == response.checks@[i].0@ && response@.1[i].1 == response.checks@[i].1@,
{
}

} // verus!
