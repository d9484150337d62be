//! How a queue is worked off. Entries that are due run one after the other; those that are long
//! overdue, and those that fail, get a new time.
use vstd::prelude::*;

use crate::auto_shield::config::DelayWindow;
use crate::auto_shield::state::{
    is_logged, queue_view, texts, QueuedModel, QueuedShield, RewardEntry, RewardLog, RewardModel,
    ShieldQueue,
};
use crate::auto_shield::sync::{is_missing_backend_transaction, reports_missing_transaction};
use crate::text::{contains_text, occurs_in};

verus! {

/// The minutes that an entry waits beyond the longest delay where its funds cannot be spent yet.
pub const MATURITY_MINUTES: u32 = 150;

/// The minutes that an entry waits at least where the backend lacks a transaction.
pub const BACKEND_RETRY_MINUTES: u32 = 30;

/// The times of a queue.
#[derive(Debug, Clone, Copy, PartialEq, Eq, Structural)]
pub struct QueueRules {
    pub delay: DelayWindow,
    /// How long an entry can be overdue and still run at once.
    pub grace_secs: u64,
}

pub open spec fn reports_missing_funds(err_text: Seq<char>) -> bool {
    occurs_in("InsufficientFunds"@, err_text)
}

/// Whether an error says that funds are missing, or cannot be spent yet.
pub fn is_missing_funds(err_text: &str) -> (result: bool)
    ensures
        result == reports_missing_funds(err_text@),
{
    contains_text(err_text, "InsufficientFunds")
}

impl QueueRules {
    pub open spec fn wf(self) -> bool {
        self.delay.wf()
    }

    /// The delay where funds are missing, in minutes: no more than 32 bits hold.
    pub open spec fn maturity_minutes(self) -> int {
        if self.delay.max_minutes + MATURITY_MINUTES > u32::MAX {
            u32::MAX as int
        } else {
            self.delay.max_minutes + MATURITY_MINUTES
        }
    }

    /// The delay where the backend lacks a transaction, in minutes.
    pub open spec fn backend_minutes(self) -> int {
        if self.delay.min_minutes < BACKEND_RETRY_MINUTES {
            BACKEND_RETRY_MINUTES as int
        } else {
            self.delay.min_minutes as int
        }
    }

    /// The delay after a failure, in seconds. Where the error says nothing else it is
    /// `fresh_delay`, which was drawn at random.
    pub open spec fn retry_secs(self, err_text: Seq<char>, fresh_delay: u64) -> int {
        if reports_missing_funds(err_text) {
            self.maturity_minutes() * 60
        } else if reports_missing_transaction(err_text) {
            self.backend_minutes() * 60
        } else {
            fresh_delay as int
        }
    }

    /// The time after a failure at which the entry runs again, in seconds from then.
    pub fn retry_delay(&self, err_text: &str, fresh_delay: u64) -> (seconds: u64)
        ensures
            seconds == self.retry_secs(err_text@, fresh_delay),
    {
        if is_missing_funds(err_text) {
            let minutes: u32 = self.delay.max_minutes.saturating_add(MATURITY_MINUTES);
            minutes as u64 * 60
        } else if is_missing_backend_transaction(err_text) {
            let minutes: u32 = if self.delay.min_minutes < BACKEND_RETRY_MINUTES {
                BACKEND_RETRY_MINUTES
            } else {
                self.delay.min_minutes
            };
            minutes as u64 * 60
        } else {
            fresh_delay
        }
    }

    /// Whether every delay of the queue, counted from `now`, ends at a time that 64 bits hold.
    pub open spec fn reaches(self, now: u64) -> bool {
        now + self.maturity_minutes() * 60 <= u64::MAX
    }

    pub fn can_schedule(&self, now: u64) -> (result: bool)
        ensures
            result == self.reaches(now),
    {
        let minutes: u32 = self.delay.max_minutes.saturating_add(MATURITY_MINUTES);
        let longest: u64 = minutes as u64 * 60;
        now <= u64::MAX - longest
    }
}

/// The entries that are due at `now`.
pub open spec fn due_at(queue: Seq<QueuedModel>, now: u64) -> Seq<QueuedModel> {
    queue.filter(|entry: QueuedModel| entry.execute_after <= now)
}

/// The entries that are not due at `now`.
pub open spec fn waiting_at(queue: Seq<QueuedModel>, now: u64) -> Seq<QueuedModel> {
    queue.filter(|entry: QueuedModel| entry.execute_after > now)
}

/// The entries of a queue that were due when a pass over it began and have not had their turn.
#[derive(Debug)]
pub struct QueuePass {
    /// When the pass began.
    pub now: u64,
    pub due: Vec<QueuedShield>,
}

impl QueuePass {
    pub open spec fn remaining(self) -> Seq<QueuedModel> {
        queue_view(self.due@)
    }
}

/// What becomes of the next entry.
#[derive(Debug)]
pub enum QueueStep {
    /// No entry is left.
    Finished,
    /// The daemon stops: the entries that are left went back into the queue.
    Interrupted,
    /// The log has the height of the entry already: the entry is dropped.
    Satisfied { height: u32 },
    /// The entry was overdue for too long: it went back into the queue.
    Postponed { height: u32, overdue_secs: u64, execute_after: u64 },
    /// The entry is to run now.
    Execute(QueuedShield),
}

pub enum StepModel {
    Finished,
    Interrupted,
    Satisfied { height: u32 },
    Postponed { height: u32, overdue_secs: u64, execute_after: u64 },
    Execute(QueuedModel),
}

impl View for QueueStep {
    type V = StepModel;

    open spec fn view(&self) -> StepModel {
        match *self {
            QueueStep::Finished => StepModel::Finished,
            QueueStep::Interrupted => StepModel::Interrupted,
            QueueStep::Satisfied { height } => StepModel::Satisfied { height },
            QueueStep::Postponed { height, overdue_secs, execute_after } => StepModel::Postponed {
                height,
                overdue_secs,
                execute_after,
            },
            QueueStep::Execute(entry) => StepModel::Execute(entry@),
        }
    }
}

/// A queue in the middle of a pass, with the log of what has run.
#[verifier::ext_equal]
pub struct QueueState {
    pub pending: Seq<QueuedModel>,
    pub due: Seq<QueuedModel>,
    pub log: Seq<RewardModel>,
}

impl QueueState {
    /// The queue at the start of a pass.
    pub open spec fn start(queue: Seq<QueuedModel>, log: Seq<RewardModel>, now: u64) -> QueueState {
        QueueState { pending: waiting_at(queue, now), due: due_at(queue, now), log }
    }

    /// What becomes of the next entry in a pass that began at `now`. Where the entry was overdue
    /// for too long, it waits for `fresh_delay` seconds more.
    pub open spec fn step(
        self,
        rules: QueueRules,
        now: u64,
        shutdown: bool,
        fresh_delay: u64,
    ) -> StepModel {
        let next = self.due.first();
        if self.due.len() == 0 {
            StepModel::Finished
        } else if shutdown {
            StepModel::Interrupted
        } else if is_logged(self.log, next.height) {
            StepModel::Satisfied { height: next.height }
        } else if now - next.execute_after > rules.grace_secs {
            StepModel::Postponed {
                height: next.height,
                overdue_secs: (now - next.execute_after) as u64,
                execute_after: (now + fresh_delay) as u64,
            }
        } else {
            StepModel::Execute(next)
        }
    }

    /// The queue behind a step. An entry that is to run is in neither part of it.
    pub open spec fn behind(self, step: StepModel) -> QueueState {
        match step {
            StepModel::Finished => self,
            StepModel::Interrupted => QueueState {
                pending: self.pending + self.due,
                due: Seq::empty(),
                ..self
            },
            StepModel::Satisfied { .. } => QueueState { due: self.due.drop_first(), ..self },
            StepModel::Postponed { execute_after, .. } => QueueState {
                pending: self.pending.push(self.due.first().at(execute_after)),
                due: self.due.drop_first(),
                ..self
            },
            StepModel::Execute(_) => QueueState { due: self.due.drop_first(), ..self },
        }
    }
}

impl ShieldQueue {
    /// Puts an entry at the end of the queue, to run `delay_secs` from `now`, and says when that
    /// is.
    pub fn schedule(
        &mut self,
        height: u32,
        block_hash: &str,
        address: &str,
        value_zat: i64,
        now: u64,
        delay_secs: u64,
    ) -> (execute_after: u64)
        requires
            now + delay_secs <= u64::MAX,
        ensures
            execute_after == now + delay_secs,
            final(self)@ == old(self)@.push(
                QueuedModel {
                    height,
                    block_hash: block_hash@,
                    address: address@,
                    value_zat,
                    scheduled_at: now,
                    execute_after: (now + delay_secs) as u64,
                },
            ),
    {
        let execute_after: u64 = now + delay_secs;
        let entry = QueuedShield {
            height,
            block_hash: block_hash.to_owned(),
            address: address.to_owned(),
            value_zat,
            scheduled_at: now,
            execute_after,
        };
        self.pending.push(entry);
        assert(self@ == old(self)@.push(entry@));
        execute_after
    }

    /// Begins a pass: the entries that are due leave the queue, in their order.
    pub fn take_due(&mut self, now: u64) -> (pass: QueuePass)
        ensures
            pass.now == now,
            pass.remaining() == due_at(old(self)@, now),
            final(self)@ == waiting_at(old(self)@, now),
    {
        let ghost all = self@;
        let mut entries: Vec<QueuedShield> = Vec::new();
        std::mem::swap(&mut entries, &mut self.pending);
        let mut due: Vec<QueuedShield> = Vec::new();
        let ghost mut seen: int = 0;
        proof {
            reveal(Seq::filter);
            assert(queue_view(due@) == due_at(all.take(0), now));
            assert(self@ == waiting_at(all.take(0), now));
            assert(queue_view(entries@) == all.skip(0));
        }
        while entries.len() > 0
            invariant
                0 <= seen <= all.len(),
                entries@.len() == all.len() - seen,
                queue_view(entries@) == all.skip(seen),
                queue_view(due@) == due_at(all.take(seen), now),
                self@ == waiting_at(all.take(seen), now),
            decreases entries@.len(),
        {
            let ghost rest = queue_view(entries@);
            let entry = entries.remove(0);
            proof {
                assert(entry@ == rest[0]);
                assert(rest[0] == all[seen]);
                assert(all.take(seen + 1) == all.take(seen).push(entry@));
                all.take(seen).lemma_filter_push(
                    entry@,
                    |entry: QueuedModel| entry.execute_after <= now,
                );
                all.take(seen).lemma_filter_push(
                    entry@,
                    |entry: QueuedModel| entry.execute_after > now,
                );
                assert(queue_view(entries@) == rest.drop_first());
                assert(rest.drop_first() == all.skip(seen + 1));
                seen = seen + 1;
            }
            let ghost due_before = queue_view(due@);
            let ghost waiting_before = self@;
            if entry.execute_after > now {
                self.pending.push(entry);
                assert(self@ == waiting_before.push(entry@));
            } else {
                due.push(entry);
                assert(queue_view(due@) == due_before.push(entry@));
            }
        }
        assert(all.take(seen) == all);
        QueuePass { now, due }
    }

    /// Takes the next entry of a pass.
    pub fn next_due(
        &mut self,
        pass: &mut QueuePass,
        log: &RewardLog,
        rules: &QueueRules,
        shutdown: bool,
        fresh_delay: u64,
    ) -> (step: QueueStep)
        requires
            old(pass).now + fresh_delay <= u64::MAX,
        ensures
            final(pass).now == old(pass).now,
            ({
                let state = QueueState {
                    pending: old(self)@,
                    due: old(pass).remaining(),
                    log: log@,
                };
                &&& step@ == state.step(*rules, old(pass).now, shutdown, fresh_delay)
                &&& (QueueState { pending: final(self)@, due: final(pass).remaining(), log: log@ })
                    == state.behind(step@)
            }),
    {
        let ghost state = QueueState { pending: self@, due: pass.remaining(), log: log@ };
        if pass.due.is_empty() {
            return QueueStep::Finished;
        }
        if shutdown {
            self.pending.append(&mut pass.due);
            assert(self@ == state.pending + state.due);
            assert(pass.remaining() == Seq::<QueuedModel>::empty());
            return QueueStep::Interrupted;
        }
        let mut entry = pass.due.remove(0);
        assert(entry@ == state.due.first());
        assert(pass.remaining() == state.due.drop_first());
        if log.contains_height(entry.height) {
            return QueueStep::Satisfied { height: entry.height };
        }
        let overdue_secs: u64 = pass.now.saturating_sub(entry.execute_after);
        if overdue_secs > rules.grace_secs {
            let height: u32 = entry.height;
            let execute_after: u64 = pass.now + fresh_delay;
            entry.execute_after = execute_after;
            self.pending.push(entry);
            assert(self@ == state.pending.push(entry@));
            return QueueStep::Postponed { height, overdue_secs, execute_after };
        }
        QueueStep::Execute(entry)
    }

    /// Puts the entries that are left of a pass back into the queue.
    pub fn put_back(&mut self, pass: QueuePass)
        ensures
            final(self)@ == old(self)@ + pass.remaining(),
    {
        let mut pass = pass;
        let ghost remaining = pass.remaining();
        self.pending.append(&mut pass.due);
        assert(self@ == old(self)@ + remaining);
    }

    /// Puts an entry that failed back into the queue, and says when it runs again.
    pub fn reschedule(
        &mut self,
        entry: QueuedShield,
        err_text: &str,
        rules: &QueueRules,
        now: u64,
        fresh_delay: u64,
    ) -> (execute_after: u64)
        requires
            now + rules.retry_secs(err_text@, fresh_delay) <= u64::MAX,
        ensures
            execute_after == now + rules.retry_secs(err_text@, fresh_delay),
            final(self)@ == old(self)@.push(
                entry@.at((now + rules.retry_secs(err_text@, fresh_delay)) as u64),
            ),
    {
        let mut entry = entry;
        let execute_after: u64 = now + rules.retry_delay(err_text, fresh_delay);
        entry.execute_after = execute_after;
        self.pending.push(entry);
        assert(self@ == old(self)@.push(entry@));
        execute_after
    }
}

impl RewardLog {
    /// Logs an entry that has run.
    pub fn record(&mut self, entry: QueuedShield, txids: Vec<String>, executed_at: u64)
        ensures
            final(self)@ == old(self)@.push(entry@.executed(texts(txids@), executed_at)),
    {
        let reward = RewardEntry {
            height: entry.height,
            block_hash: entry.block_hash,
            address: entry.address,
            value_zat: entry.value_zat,
            txids,
            scheduled_at: Some(entry.scheduled_at),
            executed_at: Some(executed_at),
        };
        self.entries.push(reward);
        assert(self@ == old(self)@.push(reward@));
    }
}

} // verus!
