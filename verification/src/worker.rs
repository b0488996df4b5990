//! How a task from the queue is brought to its end: stored before it is acknowledged, so that a
//! failure leaves it recoverable instead of silently losing it.

use vstd::prelude::*;

use crate::reachability::Reachable;
use crate::task::CheckEmailJobId;

verus! {

/// Delay before a bulk task is requeued after a storage failure, in seconds, so that an unavailable
/// database does not cause a tight retry loop.
pub const STORAGE_RETRY_DELAY_SECS: u64 = 5;

/// What the verification of a task came to.
#[derive(Debug, Clone, Copy, PartialEq, Eq, Structural)]
pub enum Outcome {
    Checked(Reachable),
    Failed,
}

/// A task whose verification was run.
#[derive(Debug, Clone, Copy, PartialEq, Eq, Structural)]
pub struct Work {
    pub job_id: CheckEmailJobId,
    /// Whether the broker delivered the message before.
    pub redelivered: bool,
    pub outcome: Outcome,
}

/// What is to be done next.
#[derive(Debug, Clone, Copy, PartialEq, Eq, Structural)]
pub enum WorkAction {
    /// Reject the message, back to the queue or not.
    Reject { requeue: bool },
    /// Store the result.
    Store,
    /// Wait that many seconds.
    Sleep { secs: u64 },
    /// Acknowledge the message.
    Ack,
    /// Answer the caller that waits for a single-shot task.
    Reply,
    /// Tell the webhook. A failure is logged and nothing more.
    SendWebhook,
    /// Report the result to the provider of the license.
    Report,
    /// Nothing: the work is over.
    Nothing,
}

/// How the work ended.
#[derive(Debug, Clone, Copy, PartialEq, Eq, Structural)]
pub enum Ending {
    Success,
    /// It fails with the error of the storage.
    StorageFailed,
    /// It fails with the error of the action that was carried out last.
    ActionFailed,
}

/// How far the work is.
#[derive(Debug, Clone, Copy, PartialEq, Eq, Structural)]
pub enum WorkState {
    /// The message goes back to the queue, for a second try.
    Requeueing,
    /// The result is being stored.
    Storing,
    /// The result of a single-shot task could not be stored: its message is dropped.
    Dropping,
    /// The caller is answered all the same.
    ReplyingUnstored,
    /// The result of a bulk task could not be stored: there is a pause.
    Pausing,
    /// The message goes back to the queue after the pause.
    Returning,
    /// The result is stored: the message is acknowledged.
    Acking,
    /// The caller is answered.
    Replying,
    /// The webhook is told.
    Notifying,
    /// The provider of the license is told.
    Reporting,
    Finished(Ending),
}

impl Work {
    /// Whether the task deserves a second try: it came to no conclusion the first time round.
    pub open spec fn deserves_second_try(self) -> bool {
        !self.redelivered && (self.outcome == Outcome::Failed || self.outcome == Outcome::Checked(
            Reachable::Unknown,
        ))
    }

    pub open spec fn is_single_shot(self) -> bool {
        self.job_id is SingleShot
    }

    /// How the work begins.
    pub open spec fn first_state(self) -> WorkState {
        if self.deserves_second_try() {
            WorkState::Requeueing
        } else {
            WorkState::Storing
        }
    }

    /// What follows once the message is acknowledged and the caller, if any, is answered.
    pub open spec fn settled_state(self) -> WorkState {
        if self.outcome is Checked {
            WorkState::Notifying
        } else {
            WorkState::Reporting
        }
    }

    /// What follows `state`, where its action succeeded or not.
    pub open spec fn next_state(self, state: WorkState, succeeded: bool) -> WorkState {
        match (state, succeeded) {
            (WorkState::Storing, false) => if self.is_single_shot() {
                WorkState::Dropping
            } else {
                WorkState::Pausing
            },
            (WorkState::Pausing, _) => WorkState::Returning,
            (WorkState::Notifying, _) => WorkState::Reporting,
            (WorkState::Finished(ending), _) => WorkState::Finished(ending),
            (_, false) => WorkState::Finished(Ending::ActionFailed),
            (WorkState::Requeueing, true) => WorkState::Finished(Ending::Success),
            (WorkState::Storing, true) => WorkState::Acking,
            (WorkState::Dropping, true) => WorkState::ReplyingUnstored,
            (WorkState::ReplyingUnstored, true) => WorkState::Finished(Ending::StorageFailed),
            (WorkState::Returning, true) => WorkState::Finished(Ending::StorageFailed),
            (WorkState::Acking, true) => if self.is_single_shot() {
                WorkState::Replying
            } else {
                self.settled_state()
            },
            (WorkState::Replying, true) => self.settled_state(),
            (WorkState::Reporting, true) => WorkState::Finished(Ending::Success),
        }
    }

    /// Begins the work on a task whose verification was run.
    pub fn begin(&self) -> (state: WorkState)
        ensures
            state == self.first_state(),
    {
        let inconclusive: bool = match self.outcome {
            Outcome::Failed => true,
            Outcome::Checked(Reachable::Unknown) => true,
            Outcome::Checked(_) => false,
        };
        if inconclusive && !self.redelivered {
            WorkState::Requeueing
        } else {
            WorkState::Storing
        }
    }

    /// Goes on after the action of `state`.
    pub fn advance(&self, state: WorkState, succeeded: bool) -> (next: WorkState)
        ensures
            next == self.next_state(state, succeeded),
    {
        match state {
            WorkState::Storing => if succeeded {
                WorkState::Acking
            } else {
                match self.job_id {
                    CheckEmailJobId::SingleShot => WorkState::Dropping,
                    CheckEmailJobId::Bulk(_) => WorkState::Pausing,
                }
            },
            WorkState::Pausing => WorkState::Returning,
            WorkState::Notifying => WorkState::Reporting,
            WorkState::Finished(ending) => WorkState::Finished(ending),
            _ => {
                if !succeeded {
                    return WorkState::Finished(Ending::ActionFailed);
                }
                match state {
                    WorkState::Dropping => WorkState::ReplyingUnstored,
                    WorkState::ReplyingUnstored => WorkState::Finished(Ending::StorageFailed),
                    WorkState::Returning => WorkState::Finished(Ending::StorageFailed),
                    WorkState::Acking => match self.job_id {
                        CheckEmailJobId::SingleShot => WorkState::Replying,
                        CheckEmailJobId::Bulk(_) => self.after_reply(),
                    },
                    WorkState::Replying => self.after_reply(),
                    _ => WorkState::Finished(Ending::Success),
                }
            },
        }
    }

    /// What follows once the message is acknowledged and the caller, if any, is answered.
    fn after_reply(&self) -> (state: WorkState)
        ensures
            state == self.settled_state(),
    {
        match self.outcome {
            Outcome::Checked(_) => WorkState::Notifying,
            Outcome::Failed => WorkState::Reporting,
        }
    }
}

impl WorkState {
    /// What is to be done in this state.
    pub open spec fn action_here(self) -> WorkAction {
        match self {
            WorkState::Requeueing => WorkAction::Reject { requeue: true },
            WorkState::Storing => WorkAction::Store,
            WorkState::Dropping => WorkAction::Reject { requeue: false },
            WorkState::ReplyingUnstored => WorkAction::Reply,
            WorkState::Pausing => WorkAction::Sleep { secs: STORAGE_RETRY_DELAY_SECS },
            WorkState::Returning => WorkAction::Reject { requeue: true },
            WorkState::Acking => WorkAction::Ack,
            WorkState::Replying => WorkAction::Reply,
            WorkState::Notifying => WorkAction::SendWebhook,
            WorkState::Reporting => WorkAction::Report,
            WorkState::Finished(_) => WorkAction::Nothing,
        }
    }

    /// What is to be done in this state.
    pub fn action(&self) -> (action: WorkAction)
        ensures
            action == self.action_here(),
    {
        match self {
            WorkState::Requeueing => WorkAction::Reject { requeue: true },
            WorkState::Storing => WorkAction::Store,
            WorkState::Dropping => WorkAction::Reject { requeue: false },
            WorkState::ReplyingUnstored => WorkAction::Reply,
            WorkState::Pausing => WorkAction::Sleep { secs: STORAGE_RETRY_DELAY_SECS },
            WorkState::Returning => WorkAction::Reject { requeue: true },
            WorkState::Acking => WorkAction::Ack,
            WorkState::Replying => WorkAction::Reply,
            WorkState::Notifying => WorkAction::SendWebhook,
            WorkState::Reporting => WorkAction::Report,
            WorkState::Finished(_) => WorkAction::Nothing,
        }
    }
}

/// What was done about a task: how often each action was carried out with success. The webhook
/// counts whether or not it could be told.
pub struct Record {
    pub stored: nat,
    pub acknowledged: nat,
    pub requeued: nat,
    pub dropped: nat,
    pub replied: nat,
    pub webhooks: nat,
    pub reported: nat,
}

impl Record {
    pub open spec fn blank() -> Record {
        Record {
            stored: 0,
            acknowledged: 0,
            requeued: 0,
            dropped: 0,
            replied: 0,
            webhooks: 0,
            reported: 0,
        }
    }

    /// The record after one more action, which succeeded or not.
    pub open spec fn and_then_done(self, action: WorkAction, succeeded: bool) -> Record {
        match action {
            WorkAction::SendWebhook => Record { webhooks: self.webhooks + 1, ..self },
            WorkAction::Store => if succeeded {
                Record { stored: self.stored + 1, ..self }
            } else {
                self
            },
            WorkAction::Ack => if succeeded {
                Record { acknowledged: self.acknowledged + 1, ..self }
            } else {
                self
            },
            WorkAction::Reject { requeue } => if !succeeded {
                self
            } else if requeue {
                Record { requeued: self.requeued + 1, ..self }
            } else {
                Record { dropped: self.dropped + 1, ..self }
            },
            WorkAction::Reply => if succeeded {
                Record { replied: self.replied + 1, ..self }
            } else {
                self
            },
            WorkAction::Report => if succeeded {
                Record { reported: self.reported + 1, ..self }
            } else {
                self
            },
            WorkAction::Sleep { .. } => self,
            WorkAction::Nothing => self,
        }
    }

    /// How often the message was settled with the broker.
    pub open spec fn settled(self) -> nat {
        self.acknowledged + self.requeued + self.dropped
    }
}

/// How far the work is, and what was done, once the actions in turn succeeded or failed as
/// `successes` says.
pub open spec fn run(work: Work, successes: Seq<bool>) -> (WorkState, Record)
    decreases successes.len(),
{
    if successes.len() == 0 {
        (work.first_state(), Record::blank())
    } else {
        let (state, record) = run(work, successes.drop_last());
        (
            work.next_state(state, successes.last()),
            record.and_then_done(state.action_here(), successes.last()),
        )
    }
}

/// What holds of the record in each state.
spec fn fits(work: Work, state: WorkState, record: Record) -> bool {
    let blank = Record::blank();
    let answered: nat = if work.is_single_shot() {
        1
    } else {
        0
    };
    let told: nat = if work.outcome is Checked {
        1
    } else {
        0
    };
    match state {
        WorkState::Requeueing => work.deserves_second_try() && record == blank,
        WorkState::Storing => !work.deserves_second_try() && record == blank,
        WorkState::Dropping => work.is_single_shot() && record == blank,
        WorkState::ReplyingUnstored => work.is_single_shot() && record == (Record {
            dropped: 1,
            ..blank
        }),
        WorkState::Pausing => !work.is_single_shot() && record == blank,
        WorkState::Returning => !work.is_single_shot() && record == blank,
        WorkState::Acking => record == (Record { stored: 1, ..blank }),
        WorkState::Replying => work.is_single_shot() && record == (Record {
            stored: 1,
            acknowledged: 1,
            ..blank
        }),
        WorkState::Notifying => work.outcome is Checked && record == (Record {
            stored: 1,
            acknowledged: 1,
            replied: answered,
            ..blank
        }),
        WorkState::Reporting => record == (Record {
            stored: 1,
            acknowledged: 1,
            replied: answered,
            webhooks: told,
            ..blank
        }),
        WorkState::Finished(Ending::Success) => {
            ||| work.deserves_second_try() && record == (Record { requeued: 1, ..blank })
            ||| record == (Record {
                stored: 1,
                acknowledged: 1,
                replied: answered,
                webhooks: told,
                reported: 1,
                ..blank
            })
        },
        WorkState::Finished(Ending::StorageFailed) => if work.is_single_shot() {
            record == (Record { dropped: 1, replied: 1, ..blank })
        } else {
            record == (Record { requeued: 1, ..blank })
        },
        WorkState::Finished(Ending::ActionFailed) => {
            ||| record == blank
            ||| work.is_single_shot() && record == (Record { dropped: 1, ..blank })
            ||| record == (Record { stored: 1, ..blank })
            ||| work.is_single_shot() && record == (Record { stored: 1, acknowledged: 1, ..blank })
            ||| record == (Record {
                stored: 1,
                acknowledged: 1,
                replied: answered,
                webhooks: told,
                ..blank
            })
        },
    }
}

proof fn lemma_run_fits(work: Work, successes: Seq<bool>)
    ensures
        fits(work, run(work, successes).0, run(work, successes).1),
    decreases successes.len(),
{
    if successes.len() > 0 {
        lemma_run_fits(work, successes.drop_last());
    }
}

/// A message is acknowledged only once its result is stored, so a storage failure never loses it.
pub proof fn stored_before_acknowledged(work: Work, successes: Seq<bool>)
    ensures
        run(work, successes).1.acknowledged > 0 ==> run(work, successes).1.stored > 0,
        run(work, successes).0 is Acking ==> run(work, successes).1.stored > 0,
{
    lemma_run_fits(work, successes);
}

/// A message is settled with the broker at most once, and the result is stored at most once.
pub proof fn settled_at_most_once(work: Work, successes: Seq<bool>)
    ensures
        run(work, successes).1.settled() <= 1,
        run(work, successes).1.stored <= 1,
{
    lemma_run_fits(work, successes);
}

/// The webhook is told at most once, and only of a result that is stored and acknowledged: neither
/// a requeued verification nor one that could not be stored notifies anyone.
pub proof fn webhook_only_after_final_result(work: Work, successes: Seq<bool>)
    ensures
        run(work, successes).1.webhooks <= 1,
        run(work, successes).1.webhooks > 0 ==> {
            &&& run(work, successes).1.stored == 1
            &&& run(work, successes).1.acknowledged == 1
            &&& run(work, successes).1.requeued == 0
        },
        run(work, successes).0 is Notifying ==> run(work, successes).1.acknowledged == 1,
{
    lemma_run_fits(work, successes);
}

/// Whether two sequences of successes differ at most where the webhook is being told.
pub open spec fn differ_only_in_webhook(work: Work, a: Seq<bool>, b: Seq<bool>) -> bool {
    &&& a.len() == b.len()
    &&& forall|i: int|
        0 <= i < a.len() ==> #[trigger] a[i] == b[i] || run(work, a.take(i)).0 is Notifying
}

/// A webhook that cannot be told changes nothing about the task: the work goes the same way, and
/// comes to the same, as where the webhook is told.
pub proof fn webhook_failure_is_harmless(work: Work, a: Seq<bool>, b: Seq<bool>)
    requires
        differ_only_in_webhook(work, a, b),
    ensures
        run(work, a) == run(work, b),
    decreases a.len(),
{
    if a.len() > 0 {
        let last = a.len() - 1;
        assert forall|i: int| 0 <= i < last implies #[trigger] a.drop_last()[i] == b.drop_last()[i]
            || run(work, a.drop_last().take(i)).0 is Notifying by {
            assert(a[i] == a.drop_last()[i]);
            assert(a.drop_last().take(i) == a.take(i));
        }
        webhook_failure_is_harmless(work, a.drop_last(), b.drop_last());
        assert(a.take(last) == a.drop_last());
        assert(a[last] == b[last] || run(work, a.take(last)).0 is Notifying);
    }
}

/// Whatever fails, the message of a bulk task is never dropped.
pub proof fn bulk_tasks_are_never_dropped(work: Work, successes: Seq<bool>)
    requires
        work.job_id is Bulk,
    ensures
        run(work, successes).1.dropped == 0,
        run(work, successes).0.action_here() != (WorkAction::Reject { requeue: false }),
{
    lemma_run_fits(work, successes);
}

/// A verification without a conclusion goes back to the queue at most once: a message that was
/// delivered before goes back only where a bulk result could not be stored.
pub proof fn inconclusive_tasks_are_requeued_once(work: Work, successes: Seq<bool>)
    requires
        work.redelivered,
        run(work, successes).1.requeued > 0,
    ensures
        work.job_id is Bulk,
        run(work, successes).1.stored == 0,
{
    lemma_run_fits(work, successes);
}

/// Once the work on a single-shot task is over, the caller has exactly one answer, unless the task
/// went back to the queue or a failing action cut the work short.
pub proof fn single_shot_callers_are_answered(work: Work, successes: Seq<bool>)
    requires
        work.is_single_shot(),
        run(work, successes).0 matches WorkState::Finished(ending) && ending
            != Ending::ActionFailed,
        run(work, successes).1.requeued == 0,
    ensures
        run(work, successes).1.replied == 1,
{
    lemma_run_fits(work, successes);
}

/// Work that ends without a failing broker, reply or report leaves nothing open: the result is
/// stored and the message acknowledged, or the message is back in the queue, or it belonged to a
/// single-shot task whose caller was answered.
pub proof fn no_task_is_lost(work: Work, successes: Seq<bool>)
    requires
        run(work, successes).0 matches WorkState::Finished(ending) && ending
            != Ending::ActionFailed,
    ensures
        ({
            let record = run(work, successes).1;
            ||| record.stored == 1 && record.acknowledged == 1
            ||| record.requeued == 1
            ||| work.is_single_shot() && record.dropped == 1 && record.replied == 1
        }),
{
    lemma_run_fits(work, successes);
}

/// Whether the broker did its part: no acknowledgement and no rejection of the message failed.
pub open spec fn broker_never_fails(work: Work, successes: Seq<bool>) -> bool {
    forall|i: int|
        0 <= i < successes.len() && (run(work, successes.take(i)).0.action_here() is Ack || run(
            work,
            successes.take(i),
        ).0.action_here() is Reject) ==> #[trigger] successes[i]
}

/// Whether the message is settled with the broker, exactly once, and acknowledged exactly where the
/// result is stored.
spec fn is_settled(record: Record) -> bool {
    &&& record.settled() == 1
    &&& record.acknowledged <= 1
    &&& record.acknowledged == 1 <==> record.stored == 1
}

/// One action, with a broker that does its part, leads to an end only with the message settled.
#[verifier::spinoff_prover]
proof fn lemma_end_is_settled(work: Work, state: WorkState, record: Record, succeeded: bool)
    requires
        fits(work, state, record),
        !(state is Finished),
        state.action_here() is Ack || state.action_here() is Reject ==> succeeded,
        work.next_state(state, succeeded) is Finished,
    ensures
        is_settled(record.and_then_done(state.action_here(), succeeded)),
{
}

/// Unless the broker fails, work that is over has settled its message with the broker, exactly once,
/// and has acknowledged it exactly where the result is stored. A failing reply or report is no
/// exception.
#[verifier::spinoff_prover]
pub proof fn finished_work_is_settled(work: Work, successes: Seq<bool>)
    requires
        broker_never_fails(work, successes),
        run(work, successes).0 is Finished,
    ensures
        run(work, successes).1.settled() == 1,
        run(work, successes).1.acknowledged <= 1,
        run(work, successes).1.acknowledged == 1 <==> run(work, successes).1.stored == 1,
    decreases successes.len(),
{
    if successes.len() > 0 {
        let before = successes.drop_last();
        let last = successes.len() - 1;
        let (state, record) = run(work, before);
        assert(successes.take(last) == before);
        assert(successes[last] == successes.last());
        if state is Finished {
            lemma_broker_never_failed_before(work, successes);
            finished_work_is_settled(work, before);
        } else {
            lemma_run_fits(work, before);
            lemma_end_is_settled(work, state, record, successes.last());
        }
    }
}

proof fn lemma_broker_never_failed_before(work: Work, successes: Seq<bool>)
    requires
        broker_never_fails(work, successes),
        successes.len() > 0,
    ensures
        broker_never_fails(work, successes.drop_last()),
{
    let before = successes.drop_last();
    assert forall|i: int|
        0 <= i < before.len() && (run(work, before.take(i)).0.action_here() is Ack || run(
            work,
            before.take(i),
        ).0.action_here() is Reject) implies #[trigger] before[i] by {
        assert(before.take(i) == successes.take(i));
        assert(before[i] == successes[i]);
    }
}

/// How many actions are left to be carried out at most.
spec fn steps_left(state: WorkState) -> int {
    match state {
        WorkState::Requeueing => 1,
        WorkState::Storing => 5,
        WorkState::Dropping => 2,
        WorkState::ReplyingUnstored => 1,
        WorkState::Pausing => 2,
        WorkState::Returning => 1,
        WorkState::Acking => 4,
        WorkState::Replying => 3,
        WorkState::Notifying => 2,
        WorkState::Reporting => 1,
        WorkState::Finished(_) => 0,
    }
}

proof fn lemma_steps_left(work: Work, successes: Seq<bool>)
    ensures
        0 <= steps_left(run(work, successes).0),
        steps_left(run(work, successes).0) <= 5 - successes.len() || run(work, successes).0
            is Finished,
    decreases successes.len(),
{
    if successes.len() > 0 {
        lemma_steps_left(work, successes.drop_last());
    }
}

/// The work is over after at most five actions.
pub proof fn work_comes_to_an_end(work: Work, successes: Seq<bool>)
    requires
        successes.len() >= 5,
    ensures
        run(work, successes).0 is Finished,
{
    lemma_steps_left(work, successes);
}

proof fn lemma_unfailing_run(work: Work, successes: Seq<bool>)
    requires
        forall|i: int| 0 <= i < successes.len() ==> #[trigger] successes[i],
    ensures
        !(run(work, successes).0 is Dropping),
        !(run(work, successes).0 is ReplyingUnstored),
        !(run(work, successes).0 is Pausing),
        !(run(work, successes).0 is Returning),
        run(work, successes).0 matches WorkState::Finished(ending) ==> ending == Ending::Success,
    decreases successes.len(),
{
    if successes.len() > 0 {
        assert forall|i: int|
            0 <= i < successes.drop_last().len() implies #[trigger] successes.drop_last()[i] by {
            assert(successes.drop_last()[i] == successes[i]);
        }
        assert(successes.last() == successes[successes.len() - 1]);
        lemma_unfailing_run(work, successes.drop_last());
    }
}

/// Where no action fails, the work succeeds: the task is back in the queue for its second try, or
/// its result is stored and its message acknowledged, the waiting caller is answered, the webhook
/// is told of a result, and the result is reported.
pub proof fn unfailing_work_succeeds(work: Work, successes: Seq<bool>)
    requires
        forall|i: int| 0 <= i < successes.len() ==> #[trigger] successes[i],
        successes.len() >= 5,
    ensures
        run(work, successes).0 == WorkState::Finished(Ending::Success),
        work.deserves_second_try() ==> run(work, successes).1 == (Record {
            requeued: 1,
            ..Record::blank()
        }),
        !work.deserves_second_try() ==> run(work, successes).1 == (Record {
            stored: 1,
            acknowledged: 1,
            requeued: 0,
            dropped: 0,
            replied: if work.is_single_shot() {
                1
            } else {
                0
            },
            webhooks: if work.outcome is Checked {
                1
            } else {
                0
            },
            reported: 1,
        }),
{
    lemma_unfailing_run(work, successes);
    lemma_steps_left(work, successes);
    lemma_run_fits(work, successes);
    lemma_second_try(work, successes);
}

proof fn lemma_second_try(work: Work, successes: Seq<bool>)
    ensures
        work.deserves_second_try() ==> run(work, successes).1.stored == 0,
        work.deserves_second_try() ==> run(work, successes).0 is Requeueing || run(
            work,
            successes,
        ).0 is Finished,
    decreases successes.len(),
{
    if successes.len() > 0 {
        lemma_second_try(work, successes.drop_last());
    }
}

/// A first delivery goes back to the queue exactly where its verification failed or came out as
/// unknown; every other result, and every result of a second delivery, is stored.
pub proof fn only_inconclusive_first_deliveries_are_requeued(work: Work)
    ensures
        ({
            let first_action = work.first_state().action_here();
            let inconclusive = match work.outcome {
                Outcome::Failed => true,
                Outcome::Checked(verdict) => verdict == Reachable::Unknown,
            };
            &&& !work.redelivered && inconclusive ==> first_action == WorkAction::Reject {
                requeue: true,
            }
            &&& work.redelivered || !inconclusive ==> first_action == WorkAction::Store
        }),
{
}

/// A conclusive result is never thrown away: where no action fails it is stored, acknowledged, sent
/// to the webhook and reported, and its message does not go back to the queue.
pub proof fn conclusive_results_are_kept(work: Work, verdict: Reachable, successes: Seq<bool>)
    requires
        work.outcome == Outcome::Checked(verdict),
        verdict is Safe || verdict is Risky || verdict is Invalid,
        successes.len() >= 5,
        forall|i: int| 0 <= i < successes.len() ==> #[trigger] successes[i],
    ensures
        run(work, seq![]).0.action_here() == WorkAction::Store,
        run(work, successes).0 == WorkState::Finished(Ending::Success),
        run(work, successes).1.stored == 1,
        run(work, successes).1.acknowledged == 1,
        run(work, successes).1.requeued == 0,
        run(work, successes).1.dropped == 0,
        run(work, successes).1.webhooks == 1,
        run(work, successes).1.reported == 1,
        work.job_id is SingleShot ==> run(work, successes).1.replied == 1,
        work.job_id is Bulk ==> run(work, successes).1.replied == 0,
{
    unfailing_work_succeeds(work, successes);
}

/// What is done about a task once `count` actions succeeded or failed as `successes` says.
pub open spec fn action_after(work: Work, successes: Seq<bool>, count: int) -> WorkAction {
    run(work, successes.take(count)).0.action_here()
}

/// Whether the work is over, with this ending, once `count` actions succeeded or failed as
/// `successes` says.
pub open spec fn ends_after(
    work: Work,
    successes: Seq<bool>,
    count: int,
    ending: Ending,
) -> bool {
    run(work, successes.take(count)).0 == WorkState::Finished(ending)
}

proof fn lemma_one_more_action(work: Work, successes: Seq<bool>, count: int)
    requires
        0 <= count < successes.len(),
    ensures
        run(work, successes.take(count + 1)).0 == work.next_state(
            run(work, successes.take(count)).0,
            successes[count],
        ),
{
    assert(successes.take(count + 1).drop_last() =~= successes.take(count));
    assert(successes.take(count + 1).last() == successes[count]);
}

/// Work on a task that gets a second try: its message goes back to the queue, and nothing else is
/// done.
pub proof fn course_of_second_try(work: Work, successes: Seq<bool>)
    requires
        !work.redelivered,
        work.outcome == Outcome::Failed || work.outcome == Outcome::Checked(Reachable::Unknown),
        successes.len() >= 1,
    ensures
        action_after(work, successes, 0) == (WorkAction::Reject { requeue: true }),
        ends_after(
            work,
            successes,
            1,
            if successes[0] {
                Ending::Success
            } else {
                Ending::ActionFailed
            },
        ),
{
    lemma_one_more_action(work, successes, 0);
    assert(successes.take(0) =~= seq![]);
}

/// Whether the result of a task is one to be stored: it is conclusive, or the second try was made.
pub open spec fn is_final(work: Work) -> bool {
    work.redelivered || work.outcome == Outcome::Checked(Reachable::Safe) || work.outcome
        == Outcome::Checked(Reachable::Risky) || work.outcome == Outcome::Checked(
        Reachable::Invalid,
    )
}

/// Work on a final result that cannot be stored. The message of a bulk task goes back to the queue
/// after five seconds. That of a single-shot task is dropped, and its caller answered all the same.
/// Either way the work fails.
pub proof fn course_after_storage_failure(work: Work, successes: Seq<bool>)
    requires
        is_final(work),
        successes.len() >= 3,
        !successes[0],
    ensures
        action_after(work, successes, 0) == WorkAction::Store,
        work.job_id is Bulk ==> {
            &&& action_after(work, successes, 1) == WorkAction::Sleep { secs: 5 }
            &&& action_after(work, successes, 2) == WorkAction::Reject { requeue: true }
        },
        work.job_id is SingleShot ==> {
            &&& action_after(work, successes, 1) == WorkAction::Reject { requeue: false }
            &&& !successes[1] ==> ends_after(work, successes, 2, Ending::ActionFailed)
            &&& successes[1] ==> action_after(work, successes, 2) == WorkAction::Reply
        },
        work.job_id is Bulk || successes[1] ==> ends_after(
            work,
            successes,
            3,
            if successes[2] {
                Ending::StorageFailed
            } else {
                Ending::ActionFailed
            },
        ),
{
    lemma_one_more_action(work, successes, 0);
    lemma_one_more_action(work, successes, 1);
    lemma_one_more_action(work, successes, 2);
    assert(successes.take(0) =~= seq![]);
}

/// Work on a final result that is stored. The message is acknowledged next, and the caller of a
/// single-shot task answered after that; a failure of either ends the work. Then the webhook is told
/// of a verdict, and last of all the result is reported.
pub proof fn course_of_stored_result(work: Work, successes: Seq<bool>)
    requires
        is_final(work),
        successes.len() >= 5,
        successes[0],
    ensures
        ({
            // How many actions come before the webhook.
            let settled: int = if work.job_id is SingleShot {
                3
            } else {
                2
            };
            // How many actions come before the report.
            let told: int = if work.outcome is Checked {
                settled + 1
            } else {
                settled
            };
            &&& action_after(work, successes, 0) == WorkAction::Store
            &&& action_after(work, successes, 1) == WorkAction::Ack
            &&& !successes[1] ==> ends_after(work, successes, 2, Ending::ActionFailed)
            &&& successes[1] && work.job_id is SingleShot ==> {
                &&& action_after(work, successes, 2) == WorkAction::Reply
                &&& !successes[2] ==> ends_after(work, successes, 3, Ending::ActionFailed)
            }
            &&& successes[1] && (work.job_id is Bulk || successes[2]) ==> {
                &&& work.outcome is Checked ==> action_after(work, successes, settled)
                    == WorkAction::SendWebhook
                &&& action_after(work, successes, told) == WorkAction::Report
                &&& ends_after(
                    work,
                    successes,
                    told + 1,
                    if successes[told] {
                        Ending::Success
                    } else {
                        Ending::ActionFailed
                    },
                )
            }
        }),
{
    lemma_one_more_action(work, successes, 0);
    lemma_one_more_action(work, successes, 1);
    lemma_one_more_action(work, successes, 2);
    lemma_one_more_action(work, successes, 3);
    lemma_one_more_action(work, successes, 4);
    assert(successes.take(0) =~= seq![]);
}

/// Work that is over stays over, with the same ending, and nothing more is done.
pub proof fn finished_work_stays_finished(work: Work, ending: Ending, succeeded: bool)
    ensures
        work.next_state(WorkState::Finished(ending), succeeded) == WorkState::Finished(ending),
        WorkState::Finished(ending).action_here() == WorkAction::Nothing,
{
}

/// The number of a bulk job makes no difference to the work on its tasks.
pub proof fn bulk_jobs_are_treated_alike(a: Work, b: Work, state: WorkState, succeeded: bool)
    requires
        a.job_id is Bulk,
        b.job_id is Bulk,
        a.redelivered == b.redelivered,
        a.outcome == b.outcome,
    ensures
        a.first_state() == b.first_state(),
        a.next_state(state, succeeded) == b.next_state(state, succeeded),
{
}

} // verus!
