//! How an address is probed over SMTP.
//!
//! The domain is first asked about a random address. Where it takes that, it takes anything, and
//! the address itself is not probed. Where it answers that there is no such mailbox, the address is
//! probed. Any other answer is inconclusive. The address can be given a connection of its own: a
//! server may judge the first recipient of a session differently from later ones.

use vstd::prelude::*;
use vstd::string::*;

use crate::reachability;
use crate::reachability::{MiscDetails, Reachable, SmtpDetails, SmtpError};
use crate::text;

verus! {

/// How long closing a connection may wait for the answer to QUIT, in seconds, before the socket is
/// dropped.
pub const QUIT_TIMEOUT_SECS: u64 = 2;

/// The reply of a server to a recipient probe.
#[derive(Debug)]
pub struct SmtpReply {
    /// The three digits of the reply code.
    pub code: String,
    /// The text of each line of the reply, behind the code.
    pub messages: Vec<String>,
}

/// What a reply says about the recipient.
#[derive(Debug, Clone, Copy, PartialEq, Eq, Structural)]
pub enum ReplyClass {
    /// The recipient is accepted.
    Accepted,
    /// There is no such mailbox.
    NoSuchMailbox,
    /// The mailbox takes nothing more for now.
    FullInbox,
    /// The mailbox takes nothing any more.
    Disabled,
    /// A temporary failure, a refusal by policy or anything else that says nothing about the
    /// mailbox.
    Inconclusive,
}

/// Whether a message begins with the enhanced status code `status`.
pub open spec fn has_status(message: Seq<char>, status: Seq<char>) -> bool {
    message == status || (status + seq![' ']).is_prefix_of(message)
}

/// Whether the first line of a reply begins with the enhanced status code `status`.
pub open spec fn reply_has_status(messages: Seq<Seq<char>>, status: Seq<char>) -> bool {
    messages.len() > 0 && has_status(messages[0], status)
}

/// What a reply says about the recipient. Only a 250 accepts it. A rejection counts as being about
/// the mailbox where its enhanced status code says so.
pub open spec fn reply_class(code: Seq<char>, messages: Seq<Seq<char>>) -> ReplyClass {
    let permanent = "5"@.is_prefix_of(code);
    let temporary = "4"@.is_prefix_of(code);
    if code == "250"@ {
        ReplyClass::Accepted
    } else if permanent && reply_has_status(messages, "5.1.1"@) {
        ReplyClass::NoSuchMailbox
    } else if permanent && reply_has_status(messages, "5.2.1"@) {
        ReplyClass::Disabled
    } else if permanent && reply_has_status(messages, "5.2.2"@) {
        ReplyClass::FullInbox
    } else if temporary && reply_has_status(messages, "4.2.2"@) {
        ReplyClass::FullInbox
    } else {
        ReplyClass::Inconclusive
    }
}

impl SmtpReply {
    /// What the reply says about the recipient.
    pub open spec fn class(self) -> ReplyClass {
        reply_class(self.code@, self.messages.deep_view())
    }

    /// Whether the first line begins with the enhanced status code `status`.
    fn has_status(&self, status: &str) -> (has: bool)
        ensures
            has == reply_has_status(self.messages.deep_view(), status@),
    {
        if self.messages.len() == 0 {
            return false;
        }
        let message: &str = self.messages[0].as_str();
        assert(self.messages.deep_view()[0] == message@);
        let followed: String = status.to_owned().concat(" ");
        proof {
            reveal_strlit(" ");
            assert(" "@ =~= seq![' ']);
        }
        text::same(message, status) || text::starts_with(message, followed.as_str())
    }

    /// What the reply says about the recipient.
    pub fn classify(&self) -> (class: ReplyClass)
        ensures
            class == self.class(),
    {
        let code: &str = self.code.as_str();
        let permanent: bool = text::starts_with(code, "5");
        let temporary: bool = text::starts_with(code, "4");
        if text::same(code, "250") {
            ReplyClass::Accepted
        } else if permanent && self.has_status("5.1.1") {
            ReplyClass::NoSuchMailbox
        } else if permanent && self.has_status("5.2.1") {
            ReplyClass::Disabled
        } else if permanent && self.has_status("5.2.2") {
            ReplyClass::FullInbox
        } else if temporary && self.has_status("4.2.2") {
            ReplyClass::FullInbox
        } else {
            ReplyClass::Inconclusive
        }
    }
}

/// Which recipient is probed.
#[derive(Debug, Clone, Copy, PartialEq, Eq, Structural)]
pub enum SmtpProbeStage {
    /// A random address of the domain.
    CatchAll,
    /// The address itself.
    Recipient,
}

/// How a probe ended.
#[derive(Debug)]
pub enum ProbeEvent {
    Replied(SmtpReply),
    /// The connection was closed or could not be made; the text says how.
    Interrupted(String),
    /// The time for the attempt was up; the text says so.
    TimedOut(String),
}

/// A probe that was made, as evidence: with the reply or with the failure.
#[derive(Debug)]
pub struct SmtpProbe {
    /// The number of the attempt, counted from one.
    pub attempt: usize,
    /// The number of the connection within the attempt, counted from one.
    pub connection: usize,
    pub stage: SmtpProbeStage,
    pub response: Option<SmtpReply>,
    pub error: Option<String>,
}

/// The evidence that a verification gathers.
#[derive(Debug)]
pub struct SmtpDebug {
    pub catch_all_skipped: bool,
    pub probes: Vec<SmtpProbe>,
}

/// How an address is to be probed.
#[derive(Debug, Clone, Copy, PartialEq, Eq, Structural)]
pub struct ProbePlan {
    /// Whether a rule for the provider says to leave out the catch-all probe.
    pub skip_catch_all: bool,
    /// Whether the address itself is probed on another connection than the random address.
    pub isolate_recipient: bool,
    /// How many attempts are made; at least one is.
    pub retries: usize,
}

/// How far the probing is.
#[derive(Debug, Clone, Copy)]
pub enum ProbeState {
    /// A random address is probed.
    CatchAll { attempt: usize },
    /// The address itself is probed, for the first time in this attempt or after the connection
    /// was interrupted.
    Recipient { attempt: usize, reconnected: bool },
    Finished(Result<SmtpDetails, SmtpError>),
}

/// What is to be done next.
#[derive(Debug, Clone, Copy, PartialEq, Eq, Structural)]
pub enum ProbeAction {
    /// Probe the recipient on the connection with this number, which counts the connections of the
    /// attempt from one. It is opened where it is not open yet.
    Probe { attempt: usize, connection: usize, stage: SmtpProbeStage },
    /// Nothing: the probing is over.
    Nothing,
}

/// What is known of a domain that takes any address.
pub open spec fn catch_all_details() -> SmtpDetails {
    SmtpDetails {
        can_connect_smtp: true,
        has_full_inbox: false,
        is_catch_all: true,
        is_deliverable: true,
        is_disabled: false,
    }
}

/// What is known of an address whose probe was answered by a reply of this class.
pub open spec fn recipient_details(class: ReplyClass) -> SmtpDetails {
    SmtpDetails {
        can_connect_smtp: true,
        has_full_inbox: class is FullInbox,
        is_catch_all: false,
        is_deliverable: class is Accepted,
        is_disabled: class is Disabled,
    }
}

/// Why a probe that ended this way came to no conclusion.
pub open spec fn probe_failure(event: ProbeEvent) -> SmtpError {
    match event {
        ProbeEvent::Replied(_) => SmtpError::Refused,
        ProbeEvent::Interrupted(_) => SmtpError::Interrupted,
        ProbeEvent::TimedOut(_) => SmtpError::TimedOut,
    }
}

impl ProbePlan {
    /// The plan by which a verification goes: the address itself is probed on a connection of its
    /// own. `skip_catch_all` says whether a rule for the provider leaves out the catch-all probe.
    pub open spec fn isolated(skip_catch_all: bool, retries: usize) -> ProbePlan {
        ProbePlan { skip_catch_all, isolate_recipient: true, retries }
    }

    /// The plan by which a verification goes: the address itself is probed on a connection of its
    /// own. `skip_catch_all` says whether a rule for the provider leaves out the catch-all probe.
    pub fn new(skip_catch_all: bool, retries: usize) -> (plan: ProbePlan)
        ensures
            plan == ProbePlan::isolated(skip_catch_all, retries),
    {
        ProbePlan { skip_catch_all, isolate_recipient: true, retries }
    }

    /// How an attempt begins.
    pub open spec fn first_state(self, attempt: usize) -> ProbeState {
        if self.skip_catch_all {
            ProbeState::Recipient { attempt, reconnected: false }
        } else {
            ProbeState::CatchAll { attempt }
        }
    }

    /// What follows an attempt that came to no conclusion: another one while there are attempts
    /// left.
    pub open spec fn after_failure(self, attempt: usize, error: SmtpError) -> ProbeState {
        if attempt < self.retries {
            self.first_state((attempt + 1) as usize)
        } else {
            ProbeState::Finished(Err(error))
        }
    }

    /// What follows a probe that ended this way.
    pub open spec fn next_state(self, state: ProbeState, event: ProbeEvent) -> ProbeState {
        match state {
            ProbeState::CatchAll { attempt } => match event {
                ProbeEvent::Replied(reply) if reply.class() is Accepted => ProbeState::Finished(
                    Ok(catch_all_details()),
                ),
                ProbeEvent::Replied(reply) if reply.class()
                    is NoSuchMailbox => ProbeState::Recipient { attempt, reconnected: false },
                _ => self.after_failure(attempt, probe_failure(event)),
            },
            ProbeState::Recipient { attempt, reconnected } => match event {
                ProbeEvent::Replied(reply) if !(reply.class()
                    is Inconclusive) => ProbeState::Finished(Ok(recipient_details(reply.class()))),
                ProbeEvent::Interrupted(_) if !reconnected => ProbeState::Recipient {
                    attempt,
                    reconnected: true,
                },
                _ => self.after_failure(attempt, probe_failure(event)),
            },
            ProbeState::Finished(result) => ProbeState::Finished(result),
        }
    }

    /// The connection, within its attempt, on which the address itself is probed.
    pub open spec fn recipient_connection(self, reconnected: bool) -> usize {
        let first: int = if self.skip_catch_all || !self.isolate_recipient {
            1
        } else {
            2
        };
        if reconnected {
            (first + 1) as usize
        } else {
            first as usize
        }
    }

    /// What is to be done in a state.
    pub open spec fn action_in(self, state: ProbeState) -> ProbeAction {
        match state {
            ProbeState::CatchAll { attempt } => ProbeAction::Probe {
                attempt,
                connection: 1,
                stage: SmtpProbeStage::CatchAll,
            },
            ProbeState::Recipient { attempt, reconnected } => ProbeAction::Probe {
                attempt,
                connection: self.recipient_connection(reconnected),
                stage: SmtpProbeStage::Recipient,
            },
            ProbeState::Finished(_) => ProbeAction::Nothing,
        }
    }

    /// Begins the probing, and with it the evidence.
    pub fn begin(&self) -> (begun: (ProbeState, SmtpDebug))
        ensures
            begun.0 == self.first_state(1),
            is_complete_evidence(begun.1, *self, Seq::empty()),
    {
        (
            self.begin_attempt(1),
            SmtpDebug { catch_all_skipped: self.skip_catch_all, probes: Vec::new() },
        )
    }

    fn begin_attempt(&self, attempt: usize) -> (state: ProbeState)
        ensures
            state == self.first_state(attempt),
    {
        if self.skip_catch_all {
            ProbeState::Recipient { attempt, reconnected: false }
        } else {
            ProbeState::CatchAll { attempt }
        }
    }

    fn fail(&self, attempt: usize, event: &ProbeEvent) -> (state: ProbeState)
        ensures
            state == self.after_failure(attempt, probe_failure(*event)),
    {
        let error: SmtpError = match event {
            ProbeEvent::Replied(_) => SmtpError::Refused,
            ProbeEvent::Interrupted(_) => SmtpError::Interrupted,
            ProbeEvent::TimedOut(_) => SmtpError::TimedOut,
        };
        if attempt < self.retries {
            self.begin_attempt(attempt + 1)
        } else {
            ProbeState::Finished(Err(error))
        }
    }

    /// What is to be done in a state.
    pub fn action(&self, state: ProbeState) -> (action: ProbeAction)
        ensures
            action == self.action_in(state),
    {
        match state {
            ProbeState::CatchAll { attempt } => ProbeAction::Probe {
                attempt,
                connection: 1,
                stage: SmtpProbeStage::CatchAll,
            },
            ProbeState::Recipient { attempt, reconnected } => {
                let first: usize = if self.skip_catch_all || !self.isolate_recipient {
                    1
                } else {
                    2
                };
                let connection: usize = if reconnected {
                    first + 1
                } else {
                    first
                };
                ProbeAction::Probe { attempt, connection, stage: SmtpProbeStage::Recipient }
            },
            ProbeState::Finished(_) => ProbeAction::Nothing,
        }
    }

    /// Goes on after a probe that ended this way.
    pub fn advance(&self, state: ProbeState, event: &ProbeEvent) -> (next: ProbeState)
        ensures
            next == self.next_state(state, *event),
    {
        match state {
            ProbeState::CatchAll { attempt } => {
                if let ProbeEvent::Replied(reply) = event {
                    match reply.classify() {
                        ReplyClass::Accepted => {
                            return ProbeState::Finished(
                                Ok(
                                    SmtpDetails {
                                        can_connect_smtp: true,
                                        has_full_inbox: false,
                                        is_catch_all: true,
                                        is_deliverable: true,
                                        is_disabled: false,
                                    },
                                ),
                            );
                        },
                        ReplyClass::NoSuchMailbox => {
                            return ProbeState::Recipient { attempt, reconnected: false };
                        },
                        _ => {},
                    }
                }
                self.fail(attempt, event)
            },
            ProbeState::Recipient { attempt, reconnected } => {
                match event {
                    ProbeEvent::Replied(reply) => {
                        let class: ReplyClass = reply.classify();
                        let inconclusive: bool = match class {
                            ReplyClass::Inconclusive => true,
                            _ => false,
                        };
                        if !inconclusive {
                            return ProbeState::Finished(
                                Ok(
                                    SmtpDetails {
                                        can_connect_smtp: true,
                                        has_full_inbox: class == ReplyClass::FullInbox,
                                        is_catch_all: false,
                                        is_deliverable: class == ReplyClass::Accepted,
                                        is_disabled: class == ReplyClass::Disabled,
                                    },
                                ),
                            );
                        }
                    },
                    ProbeEvent::Interrupted(_) => {
                        if !reconnected {
                            return ProbeState::Recipient { attempt, reconnected: true };
                        }
                    },
                    ProbeEvent::TimedOut(_) => {},
                }
                self.fail(attempt, event)
            },
            ProbeState::Finished(result) => ProbeState::Finished(result),
        }
    }
}

/// Whether `probe` is the evidence for the probe that `action` asked for and that ended this way.
pub open spec fn is_evidence(probe: SmtpProbe, action: ProbeAction, event: ProbeEvent) -> bool {
    &&& action == ProbeAction::Probe {
        attempt: probe.attempt,
        connection: probe.connection,
        stage: probe.stage,
    }
    &&& match event {
        ProbeEvent::Replied(reply) => probe.response == Some(reply) && probe.error is None,
        ProbeEvent::Interrupted(error) => probe.response is None && probe.error == Some(error),
        ProbeEvent::TimedOut(error) => probe.response is None && probe.error == Some(error),
    }
}

/// Whether the evidence went from `before` to `after` by the probe that `action` asked for and that
/// ended this way: it was added, and what was gathered before stayed.
pub open spec fn has_recorded(
    before: SmtpDebug,
    after: SmtpDebug,
    action: ProbeAction,
    event: ProbeEvent,
) -> bool {
    &&& after.catch_all_skipped == before.catch_all_skipped
    &&& match action {
        ProbeAction::Probe { .. } => {
            &&& after.probes@.len() == before.probes@.len() + 1
            &&& after.probes@.drop_last() == before.probes@
            &&& is_evidence(after.probes@.last(), action, event)
        },
        ProbeAction::Nothing => after.probes@ == before.probes@,
    }
}

impl SmtpDebug {
    /// Adds the evidence for a probe: the reply as it came, or the failure. What was gathered
    /// before stays.
    pub fn record(&mut self, action: ProbeAction, event: ProbeEvent)
        ensures
            has_recorded(*old(self), *final(self), action, event),
    {
        if let ProbeAction::Probe { attempt, connection, stage } = action {
            let (response, error): (Option<SmtpReply>, Option<String>) = match event {
                ProbeEvent::Replied(reply) => (Some(reply), None),
                ProbeEvent::Interrupted(error) => (None, Some(error)),
                ProbeEvent::TimedOut(error) => (None, Some(error)),
            };
            let ghost before = self.probes@;
            self.probes.push(SmtpProbe { attempt, connection, stage, response, error });
            assert(self.probes@.drop_last() =~= before);
        }
    }
}

/// How far the probing is once the probes in turn ended as `events` says.
pub open spec fn probe_run(plan: ProbePlan, events: Seq<ProbeEvent>) -> ProbeState
    decreases events.len(),
{
    if events.len() == 0 {
        plan.first_state(1)
    } else {
        plan.next_state(probe_run(plan, events.drop_last()), events.last())
    }
}

/// Whether the evidence is complete once the probes in turn ended as `events` says: one entry for
/// each of them, in order, under its attempt, connection and stage, and with its reply or failure.
pub open spec fn is_complete_evidence(
    debug: SmtpDebug,
    plan: ProbePlan,
    events: Seq<ProbeEvent>,
) -> bool {
    &&& debug.catch_all_skipped == plan.skip_catch_all
    &&& debug.probes@.len() == events.len()
    &&& forall|i: int|
        0 <= i < events.len() ==> is_evidence(
            #[trigger] debug.probes@[i],
            plan.action_in(probe_run(plan, events.take(i))),
            events[i],
        )
}

/// The evidence stays complete: nothing that was gathered in a failed attempt is lost in a later
/// one, and no probe goes unrecorded.
pub proof fn evidence_stays_complete(
    before: SmtpDebug,
    after: SmtpDebug,
    plan: ProbePlan,
    events: Seq<ProbeEvent>,
    event: ProbeEvent,
)
    requires
        is_complete_evidence(before, plan, events),
        !(probe_run(plan, events) is Finished),
        has_recorded(before, after, plan.action_in(probe_run(plan, events)), event),
    ensures
        is_complete_evidence(after, plan, events.push(event)),
{
    let more = events.push(event);
    assert forall|i: int| 0 <= i < more.len() implies is_evidence(
        #[trigger] after.probes@[i],
        plan.action_in(probe_run(plan, more.take(i))),
        more[i],
    ) by {
        assert(more.take(i) == events.take(i));
        if i < events.len() {
            assert(after.probes@.drop_last()[i] == before.probes@[i]);
        } else {
            assert(events.take(i) == events);
        }
    }
}

/// Whether a probe was answered by a reply of this class.
pub open spec fn answered_by(event: ProbeEvent, class: ReplyClass) -> bool {
    event matches ProbeEvent::Replied(reply) && reply.class() == class
}

/// The address itself is probed only right after the random address was answered with "no such
/// mailbox", or again after its own probe was interrupted. (Where the catch-all probe is not
/// skipped.)
pub proof fn recipient_follows_negative_catch_all(
    plan: ProbePlan,
    state: ProbeState,
    event: ProbeEvent,
)
    requires
        !plan.skip_catch_all,
        plan.next_state(state, event) is Recipient,
    ensures
        (state is CatchAll && answered_by(event, ReplyClass::NoSuchMailbox)) || (state is Recipient
            && event is Interrupted),
{
}

/// A domain that never answers the random address with "no such mailbox" never hears of the address
/// itself, in any attempt.
pub proof fn refused_catch_all_never_probes_recipient(plan: ProbePlan, events: Seq<ProbeEvent>)
    requires
        !plan.skip_catch_all,
        forall|i: int|
            0 <= i < events.len() ==> !answered_by(#[trigger] events[i], ReplyClass::NoSuchMailbox),
    ensures
        !(probe_run(plan, events) is Recipient),
    decreases events.len(),
{
    if events.len() > 0 {
        assert forall|i: int| 0 <= i < events.drop_last().len() implies !answered_by(
            #[trigger] events.drop_last()[i],
            ReplyClass::NoSuchMailbox,
        ) by {
            assert(events.drop_last()[i] == events[i]);
        }
        refused_catch_all_never_probes_recipient(plan, events.drop_last());
        assert(events.last() == events[events.len() - 1]);
    }
}

/// An isolated recipient is probed on a fresh connection: the second of its attempt, behind the
/// catch-all probe on the first, and the third after an interruption.
pub proof fn isolated_recipient_has_its_own_connection(
    plan: ProbePlan,
    attempt: usize,
    reconnected: bool,
)
    requires
        plan.isolate_recipient,
        !plan.skip_catch_all,
    ensures
        plan.action_in(ProbeState::CatchAll { attempt }) == (ProbeAction::Probe {
            attempt,
            connection: 1,
            stage: SmtpProbeStage::CatchAll,
        }),
        plan.action_in(ProbeState::Recipient { attempt, reconnected }) == (ProbeAction::Probe {
            attempt,
            connection: if reconnected {
                3
            } else {
                2
            },
            stage: SmtpProbeStage::Recipient,
        }),
{
}

/// After a negative catch-all probe, a verification probes the address itself on a fresh connection
/// of the same attempt, and where that is interrupted, once more on another.
pub proof fn fresh_connection_after_negative_catch_all(
    retries: usize,
    attempt: usize,
    negative: ProbeEvent,
    interruption: ProbeEvent,
)
    requires
        answered_by(negative, ReplyClass::NoSuchMailbox),
        interruption is Interrupted,
    ensures
        ({
            let plan = ProbePlan::isolated(false, retries);
            let first = ProbeState::CatchAll { attempt };
            let second = plan.next_state(first, negative);
            let third = plan.next_state(second, interruption);
            let stage = SmtpProbeStage::Recipient;
            &&& plan.action_in(first) == ProbeAction::Probe {
                attempt,
                connection: 1,
                stage: SmtpProbeStage::CatchAll,
            }
            &&& plan.action_in(second) == ProbeAction::Probe { attempt, connection: 2, stage }
            &&& plan.action_in(third) == ProbeAction::Probe { attempt, connection: 3, stage }
        }),
{
}

/// The timeout of an attempt bounds all of its connections: once the time is up, no other probe is
/// made in that attempt, whichever probe it was and on whichever connection.
pub proof fn timeout_ends_the_attempt(
    plan: ProbePlan,
    attempt: usize,
    reconnected: bool,
    event: ProbeEvent,
)
    requires
        event is TimedOut,
    ensures
        plan.next_state(ProbeState::CatchAll { attempt }, event) == plan.after_failure(
            attempt,
            SmtpError::TimedOut,
        ),
        plan.next_state(ProbeState::Recipient { attempt, reconnected }, event)
            == plan.after_failure(attempt, SmtpError::TimedOut),
        plan.action_in(plan.after_failure(attempt, SmtpError::TimedOut)) matches ProbeAction::Probe {
            attempt: next,
            ..
        } ==> next == attempt + 1,
{
}

/// With the catch-all probe skipped, the recipient is probed on the first connection of its
/// attempt, and on the second after an interruption.
pub proof fn skipped_catch_all_keeps_the_first_connection(
    plan: ProbePlan,
    attempt: usize,
    reconnected: bool,
)
    requires
        plan.skip_catch_all,
    ensures
        plan.action_in(ProbeState::Recipient { attempt, reconnected }) == (ProbeAction::Probe {
            attempt,
            connection: if reconnected {
                2
            } else {
                1
            },
            stage: SmtpProbeStage::Recipient,
        }),
{
}

/// Where the catch-all probe is skipped, it is never made.
pub proof fn skipped_catch_all_is_never_probed(plan: ProbePlan, events: Seq<ProbeEvent>)
    requires
        plan.skip_catch_all,
    ensures
        !(probe_run(plan, events) is CatchAll),
    decreases events.len(),
{
    if events.len() > 0 {
        skipped_catch_all_is_never_probed(plan, events.drop_last());
    }
}

/// The verdict on an address of which nothing is known besides the SMTP conversation.
pub open spec fn plain_verdict(result: Result<SmtpDetails, SmtpError>) -> Reachable {
    reachability::verdict(MiscDetails { is_disposable: false, is_role_account: false }, result)
}

/// A random address that is accepted makes the address risky. One that is refused for any other
/// reason than that there is no such mailbox, or whose probe fails, makes it unknown, unless there
/// are attempts left.
pub proof fn verdict_after_catch_all(plan: ProbePlan, attempt: usize, event: ProbeEvent)
    requires
        !answered_by(event, ReplyClass::NoSuchMailbox),
    ensures
        ({
            let next = plan.next_state(ProbeState::CatchAll { attempt }, event);
            if answered_by(event, ReplyClass::Accepted) {
                next matches ProbeState::Finished(result) && plain_verdict(result)
                    == Reachable::Risky
            } else if attempt < plan.retries {
                next == plan.first_state((attempt + 1) as usize)
            } else {
                next matches ProbeState::Finished(result) && plain_verdict(result)
                    == Reachable::Unknown
            }
        }),
{
}

/// A reply to the probe of the address itself makes it safe where it is accepted, invalid where
/// there is no such mailbox or it is disabled, risky where its inbox is full. A temporary failure
/// or a refusal by policy makes it unknown, unless there are attempts left.
pub proof fn verdict_after_recipient(
    plan: ProbePlan,
    attempt: usize,
    reconnected: bool,
    reply: SmtpReply,
)
    ensures
        ({
            let next = plan.next_state(
                ProbeState::Recipient { attempt, reconnected },
                ProbeEvent::Replied(reply),
            );
            match reply.class() {
                ReplyClass::Accepted => next matches ProbeState::Finished(result) && plain_verdict(
                    result,
                ) == Reachable::Safe,
                ReplyClass::NoSuchMailbox => next matches ProbeState::Finished(result)
                    && plain_verdict(result) == Reachable::Invalid,
                ReplyClass::Disabled => next matches ProbeState::Finished(result) && plain_verdict(
                    result,
                ) == Reachable::Invalid,
                ReplyClass::FullInbox => next matches ProbeState::Finished(result)
                    && plain_verdict(result) == Reachable::Risky,
                ReplyClass::Inconclusive => if attempt < plan.retries {
                    next == plan.first_state((attempt + 1) as usize)
                } else {
                    next matches ProbeState::Finished(result) && plain_verdict(result)
                        == Reachable::Unknown
                },
            }
        }),
{
}

/// Only an accepted probe of the address itself makes it safe.
pub proof fn safe_needs_an_accepted_recipient(plan: ProbePlan, events: Seq<ProbeEvent>)
    requires
        events.len() > 0,
        !(probe_run(plan, events.drop_last()) is Finished),
        probe_run(plan, events) matches ProbeState::Finished(result) && plain_verdict(result)
            == Reachable::Safe,
    ensures
        probe_run(plan, events.drop_last()) is Recipient,
        answered_by(events.last(), ReplyClass::Accepted),
{
}

/// How many attempts are made at most.
pub open spec fn max_attempts(plan: ProbePlan) -> int {
    if plan.retries > 1 {
        plan.retries as int
    } else {
        1
    }
}

/// How many probes are left to be made at most.
spec fn probes_left(plan: ProbePlan, state: ProbeState) -> int {
    match state {
        ProbeState::CatchAll { attempt } => 3 * (max_attempts(plan) - attempt) + 3,
        ProbeState::Recipient { attempt, reconnected } => 3 * (max_attempts(plan) - attempt)
            + if reconnected {
            1int
        } else {
            2
        },
        ProbeState::Finished(_) => 0,
    }
}

/// Whether a state belongs to an attempt that is made.
pub open spec fn within_attempts(plan: ProbePlan, state: ProbeState) -> bool {
    match state {
        ProbeState::CatchAll { attempt } => 1 <= attempt <= max_attempts(plan),
        ProbeState::Recipient { attempt, .. } => 1 <= attempt <= max_attempts(plan),
        ProbeState::Finished(_) => true,
    }
}

proof fn lemma_probes_left(plan: ProbePlan, events: Seq<ProbeEvent>)
    ensures
        within_attempts(plan, probe_run(plan, events)),
        probes_left(plan, probe_run(plan, events)) >= 0,
        probe_run(plan, events) is Finished || probes_left(plan, probe_run(plan, events)) > 0,
        probe_run(plan, events) is Finished || probes_left(plan, probe_run(plan, events)) <= 3
            * max_attempts(plan) - events.len(),
    decreases events.len(),
{
    if events.len() > 0 {
        lemma_probes_left(plan, events.drop_last());
    }
}

/// No attempt is made beyond the ones that are planned, and each makes at most three probes, so the
/// probing comes to an end.
pub proof fn probing_comes_to_an_end(plan: ProbePlan, events: Seq<ProbeEvent>)
    ensures
        within_attempts(plan, probe_run(plan, events)),
        events.len() >= 3 * max_attempts(plan) ==> probe_run(plan, events) is Finished,
{
    lemma_probes_left(plan, events);
}

/// Whether a message begins with the enhanced status code of these three digits, which ends with
/// the message or before a blank.
pub open spec fn begins_with_digits(message: Seq<char>, a: char, b: char, c: char) -> bool {
    &&& message.len() >= 5
    &&& message[0] == a && message[1] == '.' && message[2] == b && message[3] == '.' && message[4]
        == c
    &&& message.len() > 5 ==> message[5] == ' '
}

proof fn lemma_status_digits(message: Seq<char>, a: char, b: char, c: char)
    ensures
        has_status(message, seq![a, '.', b, '.', c]) <==> begins_with_digits(message, a, b, c),
{
    let status = seq![a, '.', b, '.', c];
    let followed = status + seq![' '];
    if begins_with_digits(message, a, b, c) {
        if message.len() == 5 {
            assert(message =~= status);
        } else {
            assert(followed =~= message.subrange(0, 6));
        }
    }
    if followed.is_prefix_of(message) {
        let start = message.subrange(0, 6);
        assert(start =~= followed);
        assert(start[0] == a && start[1] == '.' && start[2] == b && start[3] == '.' && start[4] == c
            && start[5] == ' ');
    }
}

/// What a reply says follows from its code and from the status that its first line begins with, and
/// from nothing else. Only a 250 accepts the recipient. Only a 5xx with the status 5.1.1 says that
/// there is no such mailbox, and only one with 5.2.1 that it is disabled. An inbox is full where a
/// 5xx has the status 5.2.2 or a 4xx the status 4.2.2. Every other reply is inconclusive.
pub proof fn class_follows_code_and_status(reply: SmtpReply)
    ensures
        ({
            let code = reply.code@;
            let permanent = code.len() > 0 && code[0] == '5';
            let temporary = code.len() > 0 && code[0] == '4';
            let first = if reply.messages@.len() > 0 {
                reply.messages@[0]@
            } else {
                seq![]
            };
            let accepted = code == seq!['2', '5', '0'];
            let missing = permanent && begins_with_digits(first, '5', '1', '1');
            let disabled = permanent && begins_with_digits(first, '5', '2', '1');
            let full = (permanent && begins_with_digits(first, '5', '2', '2')) || (temporary
                && begins_with_digits(first, '4', '2', '2'));
            &&& reply.class() is Accepted <==> accepted
            &&& reply.class() is NoSuchMailbox <==> missing
            &&& reply.class() is Disabled <==> disabled
            &&& reply.class() is FullInbox <==> full
            &&& reply.class() is Inconclusive <==> !accepted && !missing && !disabled && !full
        }),
{
    reveal_strlit("250");
    reveal_strlit("5");
    reveal_strlit("4");
    reveal_strlit("5.1.1");
    reveal_strlit("5.2.1");
    reveal_strlit("5.2.2");
    reveal_strlit("4.2.2");
    let code = reply.code@;
    assert("250"@ =~= seq!['2', '5', '0']);
    assert("5.1.1"@ =~= seq!['5', '.', '1', '.', '1']);
    assert("5.2.1"@ =~= seq!['5', '.', '2', '.', '1']);
    assert("5.2.2"@ =~= seq!['5', '.', '2', '.', '2']);
    assert("4.2.2"@ =~= seq!['4', '.', '2', '.', '2']);
    assert("5"@.is_prefix_of(code) <==> code.len() > 0 && code[0] == '5') by {
        if code.len() > 0 {
            assert(code.subrange(0, 1)[0] == code[0]);
            assert("5"@.len() == 1 && "5"@[0] == '5');
            assert(code[0] == '5' ==> code.subrange(0, 1) =~= "5"@);
        }
    }
    assert("4"@.is_prefix_of(code) <==> code.len() > 0 && code[0] == '4') by {
        if code.len() > 0 {
            assert(code.subrange(0, 1)[0] == code[0]);
            assert("4"@.len() == 1 && "4"@[0] == '4');
            assert(code[0] == '4' ==> code.subrange(0, 1) =~= "4"@);
        }
    }
    if reply.messages@.len() > 0 {
        let first = reply.messages@[0]@;
        assert(reply.messages.deep_view()[0] == first);
        lemma_status_digits(first, '5', '1', '1');
        lemma_status_digits(first, '5', '2', '1');
        lemma_status_digits(first, '5', '2', '2');
        lemma_status_digits(first, '4', '2', '2');
    }
}

/// Whether the first line of a reply begins with an enhanced status code of the subject 7, which is
/// security and policy: `x.7.y`.
pub open spec fn cites_policy(reply: SmtpReply) -> bool {
    &&& reply.messages@.len() > 0
    &&& reply.messages@[0]@.len() >= 4
    &&& reply.messages@[0]@[1] == '.' && reply.messages@[0]@[2] == '7' && reply.messages@[0]@[3]
        == '.'
}

/// The state that another attempt begins with, where there is one left, and else the end with this
/// error.
pub open spec fn retried_or_failed(
    plan: ProbePlan,
    attempt: usize,
    error: SmtpError,
) -> ProbeState {
    if attempt >= plan.retries {
        ProbeState::Finished(Err(error))
    } else if plan.skip_catch_all {
        ProbeState::Recipient { attempt: (attempt + 1) as usize, reconnected: false }
    } else {
        ProbeState::CatchAll { attempt: (attempt + 1) as usize }
    }
}

/// A refusal by policy says nothing about the mailbox, whatever its code: it is inconclusive, for
/// the random address as for the address itself, and the address stays unknown unless another
/// attempt is made.
pub proof fn policy_refusals_stay_unknown(
    plan: ProbePlan,
    attempt: usize,
    reconnected: bool,
    reply: SmtpReply,
    misc: MiscDetails,
)
    requires
        reply.code@ != seq!['2', '5', '0'],
        cites_policy(reply),
    ensures
        reply.class() is Inconclusive,
        plan.next_state(ProbeState::CatchAll { attempt }, ProbeEvent::Replied(reply))
            == retried_or_failed(plan, attempt, SmtpError::Refused),
        plan.next_state(ProbeState::Recipient { attempt, reconnected }, ProbeEvent::Replied(reply))
            == retried_or_failed(plan, attempt, SmtpError::Refused),
        reachability::verdict(misc, Err(SmtpError::Refused)) == Reachable::Unknown,
{
    class_follows_code_and_status(reply);
}

/// A temporary failure never says that there is no such mailbox or that it is disabled.
pub proof fn temporary_failures_condemn_no_mailbox(reply: SmtpReply)
    requires
        reply.code@.len() > 0,
        reply.code@[0] == '4',
    ensures
        reply.class() is Inconclusive || reply.class() is FullInbox,
{
    class_follows_code_and_status(reply);
}

/// How the probing goes on after the probe of a random address.
pub proof fn course_after_catch_all(plan: ProbePlan, attempt: usize, event: ProbeEvent)
    ensures
        ({
            let next = plan.next_state(ProbeState::CatchAll { attempt }, event);
            match event {
                ProbeEvent::Replied(reply) => match reply.class() {
                    ReplyClass::Accepted => next == ProbeState::Finished(
                        Ok(
                            SmtpDetails {
                                can_connect_smtp: true,
                                has_full_inbox: false,
                                is_catch_all: true,
                                is_deliverable: true,
                                is_disabled: false,
                            },
                        ),
                    ),
                    ReplyClass::NoSuchMailbox => next == ProbeState::Recipient {
                        attempt,
                        reconnected: false,
                    },
                    _ => next == retried_or_failed(plan, attempt, SmtpError::Refused),
                },
                ProbeEvent::Interrupted(_) => next == retried_or_failed(
                    plan,
                    attempt,
                    SmtpError::Interrupted,
                ),
                ProbeEvent::TimedOut(_) => next == retried_or_failed(
                    plan,
                    attempt,
                    SmtpError::TimedOut,
                ),
            }
        }),
{
}

/// How the probing goes on after the probe of the address itself.
pub proof fn course_after_recipient(
    plan: ProbePlan,
    attempt: usize,
    reconnected: bool,
    event: ProbeEvent,
)
    ensures
        ({
            let next = plan.next_state(ProbeState::Recipient { attempt, reconnected }, event);
            match event {
                ProbeEvent::Replied(reply) => if reply.class() is Inconclusive {
                    next == retried_or_failed(plan, attempt, SmtpError::Refused)
                } else {
                    next == ProbeState::Finished(
                        Ok(
                            SmtpDetails {
                                can_connect_smtp: true,
                                has_full_inbox: reply.class() is FullInbox,
                                is_catch_all: false,
                                is_deliverable: reply.class() is Accepted,
                                is_disabled: reply.class() is Disabled,
                            },
                        ),
                    )
                },
                ProbeEvent::Interrupted(_) => next == if reconnected {
                    retried_or_failed(plan, attempt, SmtpError::Interrupted)
                } else {
                    ProbeState::Recipient { attempt, reconnected: true }
                },
                ProbeEvent::TimedOut(_) => next == retried_or_failed(
                    plan,
                    attempt,
                    SmtpError::TimedOut,
                ),
            }
        }),
{
}

/// The probing begins with the random address unless that is skipped, ends once, and asks for each
/// probe under the attempt and the connection that it belongs to: where both addresses share a
/// connection or the random one is skipped, the address itself has the first connection of the
/// attempt and the second after an interruption.
pub proof fn probes_are_asked_for_in_place(
    plan: ProbePlan,
    attempt: usize,
    event: ProbeEvent,
    result: Result<SmtpDetails, SmtpError>,
)
    ensures
        plan.first_state(attempt) == if plan.skip_catch_all {
            ProbeState::Recipient { attempt, reconnected: false }
        } else {
            ProbeState::CatchAll { attempt }
        },
        plan.next_state(ProbeState::Finished(result), event) == ProbeState::Finished(result),
        plan.action_in(ProbeState::Finished(result)) is Nothing,
        plan.action_in(ProbeState::CatchAll { attempt }) == (ProbeAction::Probe {
            attempt,
            connection: 1,
            stage: SmtpProbeStage::CatchAll,
        }),
        plan.skip_catch_all || !plan.isolate_recipient ==> {
            &&& plan.action_in(ProbeState::Recipient { attempt, reconnected: false })
                == ProbeAction::Probe { attempt, connection: 1, stage: SmtpProbeStage::Recipient }
            &&& plan.action_in(ProbeState::Recipient { attempt, reconnected: true })
                == ProbeAction::Probe { attempt, connection: 2, stage: SmtpProbeStage::Recipient }
        },
{
}

/// A verification isolates the recipient, keeps to the skip rule and makes as many attempts as it is
/// told.
pub proof fn verification_plan_is_as_told(skip_catch_all: bool, retries: usize)
    ensures
        ProbePlan::isolated(skip_catch_all, retries).skip_catch_all == skip_catch_all,
        ProbePlan::isolated(skip_catch_all, retries).isolate_recipient,
        ProbePlan::isolated(skip_catch_all, retries).retries == retries,
{
}

/// The evidence for a probe tells which probe it was, and holds the very reply or the very failure.
pub proof fn evidence_is_what_came(probe: SmtpProbe, action: ProbeAction, event: ProbeEvent)
    requires
        is_evidence(probe, action, event),
    ensures
        action matches ProbeAction::Probe { attempt, connection, stage } && probe.attempt == attempt
            && probe.connection == connection && probe.stage == stage,
        match event {
            ProbeEvent::Replied(reply) => probe.response == Some(reply) && probe.error is None,
            ProbeEvent::Interrupted(error) => probe.response is None && probe.error == Some(error),
            ProbeEvent::TimedOut(error) => probe.response is None && probe.error == Some(error),
        },
{
}

/// Recording keeps every earlier entry at its place and adds one, for a probe; else nothing.
pub proof fn recording_only_adds(
    before: SmtpDebug,
    after: SmtpDebug,
    action: ProbeAction,
    event: ProbeEvent,
)
    requires
        has_recorded(before, after, action, event),
    ensures
        after.catch_all_skipped == before.catch_all_skipped,
        after.probes@.len() == before.probes@.len() + if action is Probe {
            1int
        } else {
            0
        },
        forall|i: int|
            0 <= i < before.probes@.len() ==> #[trigger] after.probes@[i] == before.probes@[i],
        action is Probe ==> is_evidence(after.probes@[before.probes@.len() as int], action, event),
{
    if action is Probe {
        assert forall|i: int| 0 <= i < before.probes@.len() implies #[trigger] after.probes@[i]
            == before.probes@[i] by {
            assert(after.probes@.drop_last()[i] == after.probes@[i]);
        }
    }
}

} // verus!
