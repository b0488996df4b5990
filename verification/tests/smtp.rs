use reacher_backend::reachability::{
    calculate_reachable, reachable, MiscDetails, Reachable, SmtpDetails, SmtpError,
};
use reacher_backend::smtp_probe::{
    ProbeAction, ProbeEvent, ProbePlan, ProbeState, ReplyClass, SmtpDebug, SmtpProbeStage,
    SmtpReply, QUIT_TIMEOUT_SECS,
};
use reacher_backend::smtp_script::{
    target_address, Fault, Reply, ScriptedServer, ServerAction, GREETING,
};
use reacher_backend::text::{same, starts_with, trim};

fn text(reply: &str) -> Reply {
    Reply::Text(reply.into())
}

fn parse(lines: &str) -> SmtpReply {
    let code = lines[..3].to_string();
    let messages = lines.lines().map(|line| line[4..].to_string()).collect();
    SmtpReply { code, messages }
}

/// Probes the target of the domain against a scripted server: one session for each connection.
fn probe(
    plan: ProbePlan,
    domain: &str,
    sessions: Vec<Vec<Reply>>,
) -> (Result<SmtpDetails, SmtpError>, SmtpDebug, Vec<String>) {
    let mut sessions = sessions.into_iter();
    let mut server = ScriptedServer::new();
    let mut open: Option<(usize, usize)> = None;
    let (mut state, mut debug) = plan.begin();
    loop {
        let (attempt, connection, stage) = match plan.action(state) {
            ProbeAction::Probe { attempt, connection, stage } => (attempt, connection, stage),
            ProbeAction::Nothing => break,
        };
        if open != Some((attempt, connection)) {
            if open.is_some() {
                server.on_line("QUIT\r\n");
                assert!(server.is_script_done(), "Expected probe was not sent");
            }
            server = server.begin_session(sessions.next().expect("Unexpected connection"));
            assert!(matches!(server.on_line("EHLO localhost\r\n"), ServerAction::Send(_)));
            assert!(matches!(server.on_line("MAIL FROM:<me@x.y>\r\n"), ServerAction::Send(_)));
            open = Some((attempt, connection));
        }
        let recipient = match stage {
            SmtpProbeStage::CatchAll => format!("random@{}", domain),
            SmtpProbeStage::Recipient => target_address(domain),
        };
        let event = match server.on_line(&format!("RCPT TO:<{}>\r\n", recipient)) {
            ServerAction::Send(reply) => ProbeEvent::Replied(parse(&reply)),
            ServerAction::Close => ProbeEvent::Interrupted("incomplete".into()),
            ServerAction::AwaitClose => ProbeEvent::TimedOut("timed out".into()),
            other => panic!("{:?}", other),
        };
        let action = plan.action(state);
        state = plan.advance(state, &event);
        debug.record(action, event);
    }
    assert!(server.is_script_done(), "Expected probe was not sent");
    assert!(sessions.next().is_none(), "Expected connection was not made");
    let result = match state {
        ProbeState::Finished(result) => result,
        _ => panic!("not finished"),
    };
    (result, debug, server.into_commands())
}

fn verify(
    domain: &str,
    sessions: Vec<Vec<Reply>>,
) -> (Result<SmtpDetails, SmtpError>, SmtpDebug, Vec<String>) {
    let plan = ProbePlan {
        skip_catch_all: domain == "gmail.com",
        isolate_recipient: false,
        retries: sessions.len(),
    };
    probe(plan, domain, sessions)
}

const MISSING: &str = "550 5.1.1 The email account that you tried to reach does not exist\r\n";
const ACCEPTED: &str = "250 2.1.5 OK\r\n";

#[test]
fn accepted_recipient_retains_both_replies() {
    let (result, debug, commands) = verify("example.com", vec![vec![text(MISSING), text(ACCEPTED)]]);
    assert_eq!(reachable(&result), Reachable::Safe);
    assert_eq!(debug.probes.len(), 2);
    assert_eq!(debug.probes[0].stage, SmtpProbeStage::CatchAll);
    assert_eq!(debug.probes[1].stage, SmtpProbeStage::Recipient);
    assert_eq!(debug.probes[0].response.as_ref().unwrap().code, "550");
    assert_eq!(debug.probes[1].response.as_ref().unwrap().messages[0], "2.1.5 OK");
    assert_eq!(debug.catch_all_skipped, false);
    assert!(commands.iter().all(|command| !command.starts_with("DATA")));
}

#[test]
fn rejected_recipient_is_invalid_with_original_multiline_reply() {
    let (result, debug, _) = verify("example.com", vec![vec![text(MISSING), text("550-5.1.1 The email account does not exist\r\n550 5.1.1 Please check the address\r\n")]]);
    assert_eq!(reachable(&result), Reachable::Invalid);
    let response = debug.probes[1].response.as_ref().unwrap();
    assert_eq!(response.code, "550");
    assert_eq!(response.messages.len(), 2);
}

#[test]
fn catch_all_is_risky_without_claiming_target_was_probed() {
    let (result, debug, commands) = verify("example.com", vec![vec![text(ACCEPTED)]]);
    assert_eq!(reachable(&result), Reachable::Risky);
    assert!(result.unwrap().is_catch_all);
    assert_eq!(debug.probes.len(), 1);
    assert!(!commands.iter().any(|command| command.contains("target@example.com")));
}

#[test]
fn catch_all_refusals_are_unknown_and_never_probe_target() {
    for reply in [
        "451 4.7.1 Try again later\r\n",
        "450 4.2.1 The user you are trying to contact is receiving mail at a rate that prevents delivery\r\n",
        "550 5.7.1 Recipient address rejected: Access denied\r\n",
        "550 5.7.1 Policy rejection\r\n",
        "450 4.1.1 User unknown, try later\r\n",
        "550 5.2.1 Account disabled\r\n",
        "452 4.2.2 The recipient's inbox is out of storage space\r\n",
        "550 Unable to verify user\r\n",
    ] {
        let (result, debug, commands) = verify("example.com", vec![vec![text(reply)]]);
        assert_eq!(reachable(&result), Reachable::Unknown, "{reply}");
        assert_eq!(debug.probes.len(), 1);
        assert!(debug.probes[0].response.is_some());
        assert!(!commands.iter().any(|command| command.contains("target@example.com")));
    }
}

#[test]
fn recipient_temporary_and_policy_failures_are_unknown() {
    for reply in [
        "451 4.7.1 Try again later\r\n",
        "450 4.2.1 The user you are trying to contact is receiving mail at a rate that prevents delivery\r\n",
        "550 5.7.1 Recipient address rejected: Access denied\r\n",
        "252 Cannot verify user\r\n",
    ] {
        let (result, debug, _) = verify("example.com", vec![vec![text(MISSING), text(reply)]]);
        assert_eq!(reachable(&result), Reachable::Unknown, "{reply}");
        assert_eq!(debug.probes.len(), 2);
        assert!(debug.probes[1].response.is_some());
    }
}

#[test]
fn failed_attempt_is_preserved_when_retry_succeeds() {
    let (result, debug, _) = verify(
        "example.com",
        vec![
            vec![text("451 4.7.1 Try again later\r\n")],
            vec![text(MISSING), text(ACCEPTED)],
        ],
    );
    assert_eq!(reachable(&result), Reachable::Safe);
    assert_eq!(
        debug.probes.iter().map(|probe| probe.attempt).collect::<Vec<_>>(),
        vec![1, 2, 2]
    );
    assert_eq!(debug.probes[0].response.as_ref().unwrap().code, "451");
}

#[test]
fn failed_catch_all_connection_and_timeout_are_unknown_with_evidence() {
    for reply in [Reply::Disconnect, Reply::Stall] {
        let (result, debug, _) = verify("example.com", vec![vec![reply]]);
        assert_eq!(reachable(&result), Reachable::Unknown);
        assert_eq!(debug.probes.len(), 1);
        assert!(debug.probes[0].error.is_some());
        assert!(debug.probes[0].response.is_none());
    }
}

#[test]
fn provider_skip_is_explicit_and_still_checks_target() {
    let (result, debug, commands) = verify("gmail.com", vec![vec![text(ACCEPTED)]]);
    assert_eq!(reachable(&result), Reachable::Safe);
    assert!(debug.catch_all_skipped);
    assert_eq!(debug.probes.len(), 1);
    assert_eq!(debug.probes[0].stage, SmtpProbeStage::Recipient);
    assert!(commands.iter().any(|command| command.contains("target@gmail.com")));
}

#[test]
fn target_full_inbox_stays_risky_and_disabled_stays_invalid() {
    for (reply, expected) in [
        ("452 4.2.2 The recipient's inbox is out of storage space\r\n", Reachable::Risky),
        ("550 5.2.1 The email account is disabled\r\n", Reachable::Invalid),
    ] {
        let (result, _, _) = verify("example.com", vec![vec![text(MISSING), text(reply)]]);
        assert_eq!(reachable(&result), expected);
    }
}

fn isolated(retries: usize) -> ProbePlan {
    ProbePlan::new(false, retries)
}

fn connections(debug: &SmtpDebug) -> Vec<(usize, usize, SmtpProbeStage)> {
    debug.probes.iter().map(|probe| (probe.attempt, probe.connection, probe.stage)).collect()
}

#[test]
fn an_isolated_recipient_is_probed_on_a_fresh_connection() {
    let (result, debug, _) =
        probe(isolated(1), "example.com", vec![vec![text(MISSING)], vec![text(ACCEPTED)]]);
    assert_eq!(reachable(&result), Reachable::Safe);
    assert_eq!(
        connections(&debug),
        vec![(1, 1, SmtpProbeStage::CatchAll), (1, 2, SmtpProbeStage::Recipient)]
    );
}

#[test]
fn a_reconnect_uses_the_third_connection() {
    let (result, debug, _) = probe(
        isolated(1),
        "example.com",
        vec![vec![text(MISSING)], vec![Reply::Disconnect], vec![text(MISSING)]],
    );
    assert_eq!(reachable(&result), Reachable::Invalid);
    assert_eq!(
        connections(&debug),
        vec![
            (1, 1, SmtpProbeStage::CatchAll),
            (1, 2, SmtpProbeStage::Recipient),
            (1, 3, SmtpProbeStage::Recipient)
        ]
    );
    assert!(debug.probes[1].error.is_some());
}

#[test]
fn there_is_one_reconnect_in_an_attempt_and_none_after_a_timeout() {
    let (result, debug, _) = probe(
        isolated(1),
        "example.com",
        vec![vec![text(MISSING)], vec![Reply::Disconnect], vec![Reply::Disconnect]],
    );
    assert_eq!(result, Err(SmtpError::Interrupted));
    assert_eq!(debug.probes.len(), 3);
    let (result, debug, _) =
        probe(isolated(1), "example.com", vec![vec![text(MISSING)], vec![Reply::Stall]]);
    assert_eq!(result, Err(SmtpError::TimedOut));
    assert_eq!(debug.probes.len(), 2);
}

#[test]
fn a_skipped_catch_all_keeps_the_first_connection() {
    let plan = ProbePlan::new(true, 1);
    let (result, debug, _) =
        probe(plan, "gmail.com", vec![vec![Reply::Disconnect], vec![text(ACCEPTED)]]);
    assert_eq!(reachable(&result), Reachable::Safe);
    assert_eq!(
        connections(&debug),
        vec![(1, 1, SmtpProbeStage::Recipient), (1, 2, SmtpProbeStage::Recipient)]
    );
}

#[test]
fn at_least_one_attempt_is_made() {
    let refusal = "451 4.7.1 Try again later\r\n";
    let (result, debug, _) = probe(isolated(0), "example.com", vec![vec![text(refusal)]]);
    assert_eq!(result, Err(SmtpError::Refused));
    assert_eq!(debug.probes.len(), 1);
}

#[test]
fn replies_are_classified_by_code_and_status() {
    let class = |lines: &str| parse(lines).classify();
    assert_eq!(class(ACCEPTED), ReplyClass::Accepted);
    assert_eq!(class("251 User not local\r\n"), ReplyClass::Inconclusive);
    assert_eq!(class(MISSING), ReplyClass::NoSuchMailbox);
    assert_eq!(class("550 5.1.1\r\n"), ReplyClass::NoSuchMailbox);
    assert_eq!(class("550 5.1.10 Recipient not found\r\n"), ReplyClass::Inconclusive);
    assert_eq!(class("450 5.1.1 odd\r\n"), ReplyClass::Inconclusive);
    assert_eq!(class("552 5.2.2 Over quota\r\n"), ReplyClass::FullInbox);
    assert_eq!(class("452 4.2.2 Over quota\r\n"), ReplyClass::FullInbox);
    assert_eq!(class("550 5.2.1 Disabled\r\n"), ReplyClass::Disabled);
    let silent = SmtpReply { code: "550".into(), messages: Vec::new() };
    assert_eq!(silent.classify(), ReplyClass::Inconclusive);
}

#[test]
fn rejection_outranks_flags_and_full_inbox_outranks_rejection() {
    let flagged = MiscDetails { is_disposable: true, is_role_account: true };
    let details = SmtpDetails {
        can_connect_smtp: true,
        has_full_inbox: false,
        is_catch_all: true,
        is_deliverable: true,
        is_disabled: false,
    };
    assert_eq!(calculate_reachable(&flagged, &Ok(details)), Reachable::Risky);
    let rejected = SmtpDetails { is_deliverable: false, ..details };
    assert_eq!(calculate_reachable(&flagged, &Ok(rejected)), Reachable::Invalid);
    let full = SmtpDetails { has_full_inbox: true, ..rejected };
    assert_eq!(calculate_reachable(&flagged, &Ok(full)), Reachable::Risky);
    let plain = SmtpDetails { is_catch_all: false, ..details };
    assert_eq!(reachable(&Ok(plain)), Reachable::Safe);
    let role = MiscDetails { is_disposable: false, is_role_account: true };
    assert_eq!(calculate_reachable(&role, &Ok(plain)), Reachable::Risky);
    assert_eq!(calculate_reachable(&flagged, &Err(SmtpError::TimedOut)), Reachable::Unknown);
}

#[test]
fn the_scripted_server_keeps_to_its_script() {
    assert_eq!(GREETING, "220 mock.example ESMTP\r\n");
    let mut server = ScriptedServer::new().begin_session(vec![text(ACCEPTED), Reply::Stall]);
    assert!(!server.is_script_done());
    assert!(matches!(server.on_line("EHLO me\r\n"), ServerAction::Send(t) if t == "250 mock.example OK\r\n"));
    assert!(matches!(server.on_line("MAIL FROM:<a>\r\n"), ServerAction::Send(t) if t == "250 mock.example OK\r\n"));
    assert!(matches!(server.on_line("RCPT TO:<b>\r\n"), ServerAction::Send(t) if t == ACCEPTED));
    assert!(matches!(server.on_line("RCPT TO:<c>\r\n"), ServerAction::AwaitClose));
    assert!(server.is_script_done());
    assert!(matches!(
        server.on_line("RCPT TO:<d>\r\n"),
        ServerAction::Fail(Fault::UnexpectedProbe)
    ));
    assert!(matches!(server.on_line("DATA\r\n"), ServerAction::Fail(Fault::UnexpectedCommand)));
    assert!(matches!(server.on_line("QUIT now\r\n"), ServerAction::Fail(Fault::UnexpectedCommand)));
    assert!(matches!(server.on_line("QUIT\r\n"), ServerAction::SendAndClose(t) if t == "221 bye\r\n"));
    assert!(matches!(server.on_line(""), ServerAction::Close));
    assert_eq!(
        server.into_commands(),
        vec![
            "EHLO me",
            "MAIL FROM:<a>",
            "RCPT TO:<b>",
            "RCPT TO:<c>",
            "RCPT TO:<d>",
            "DATA",
            "QUIT now",
            "QUIT"
        ]
    );
}

#[test]
fn texts_are_trimmed_and_compared() {
    for sample in ["", "  ", " a ", "\t\u{a0}b c\r\n", "\u{3000}\u{e9}\u{2028}", "\u{200b}x"] {
        assert_eq!(trim(sample), sample.trim());
    }
    assert!(starts_with("abc", "ab") && starts_with("abc", "") && !starts_with("ab", "abc"));
    assert!(!starts_with("xbc", "ab"));
    assert!(same("abc", "abc") && !same("abc", "abd") && !same("ab", "abc"));
}

#[test]
fn a_plan_isolates_the_recipient() {
    for skip_catch_all in [false, true] {
        let plan = ProbePlan::new(skip_catch_all, 4);
        assert_eq!(plan, ProbePlan { skip_catch_all, isolate_recipient: true, retries: 4 });
    }
}

#[test]
fn a_timeout_ends_the_attempt_on_either_connection() {
    assert_eq!(QUIT_TIMEOUT_SECS, 2);
    let (result, debug, _) = probe(
        isolated(2),
        "example.com",
        vec![vec![text(MISSING)], vec![Reply::Stall], vec![Reply::Stall]],
    );
    assert_eq!(result, Err(SmtpError::TimedOut));
    assert_eq!(
        connections(&debug),
        vec![
            (1, 1, SmtpProbeStage::CatchAll),
            (1, 2, SmtpProbeStage::Recipient),
            (2, 1, SmtpProbeStage::CatchAll)
        ]
    );
}

#[test]
fn each_scripted_reply_answers_one_probe() {
    let replies = ["250 1\r\n", "250 2\r\n", "250 3\r\n"];
    let script = replies.iter().map(|reply| text(reply)).collect();
    let mut server = ScriptedServer::new().begin_session(script);
    for reply in replies {
        assert!(!server.is_script_done());
        assert!(matches!(server.on_line("MAIL FROM:<a>\r\n"), ServerAction::Send(_)));
        assert!(matches!(server.on_line("RCPT TO:<b>\r\n"), ServerAction::Send(t) if t == reply));
    }
    assert!(server.is_script_done());
}
