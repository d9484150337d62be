//! What holds of a whole pass over a queue: no reward is lost, none is shielded twice, and none
//! is shielded before its time.
use vstd::prelude::*;

use crate::auto_shield::queue::{
    due_at, reports_missing_funds, waiting_at, QueueRules, QueueState, StepModel,
};
use crate::auto_shield::state::{is_logged, is_queued, QueuedModel, RewardModel};

verus! {

/// How an entry that ran ended.
pub enum Outcome {
    Executed { txids: Seq<Seq<char>>, executed_at: u64 },
    Failed { err_text: Seq<char>, now: u64, fresh_delay: u64 },
}

/// What the outside contributes to one entry's turn in a pass.
pub struct Turn {
    pub shutdown: bool,
    pub fresh_delay: u64,
    pub outcome: Outcome,
}

pub open spec fn heights(queue: Seq<QueuedModel>) -> Seq<u32> {
    Seq::new(queue.len(), |i: int| queue[i].height)
}

pub open spec fn logged_heights(log: Seq<RewardModel>) -> Seq<u32> {
    Seq::new(log.len(), |i: int| log[i].height)
}

impl QueueState {
    /// The queue behind the turn of one entry.
    pub open spec fn turn(self, rules: QueueRules, now: u64, turn: Turn) -> QueueState {
        let step = self.step(rules, now, turn.shutdown, turn.fresh_delay);
        let behind = self.behind(step);
        match (step, turn.outcome) {
            (StepModel::Execute(entry), Outcome::Executed { txids, executed_at }) => QueueState {
                log: behind.log.push(entry.executed(txids, executed_at)),
                ..behind
            },
            (StepModel::Execute(entry), Outcome::Failed { err_text, now, fresh_delay }) => {
                QueueState {
                    pending: behind.pending.push(
                        entry.at((now + rules.retry_secs(err_text, fresh_delay)) as u64),
                    ),
                    ..behind
                }
            },
            _ => behind,
        }
    }

    /// The queue behind several turns.
    pub open spec fn run(self, rules: QueueRules, now: u64, turns: Seq<Turn>) -> QueueState
        decreases turns.len(),
    {
        if turns.len() == 0 {
            self
        } else {
            self.turn(rules, now, turns.first()).run(rules, now, turns.drop_first())
        }
    }

    /// Whether `height` is still in the queue, or in the log.
    pub open spec fn keeps(self, height: u32) -> bool {
        is_queued(self.pending, height) || is_queued(self.due, height) || is_logged(
            self.log,
            height,
        )
    }
}

/// A pass begins with every entry of the queue, each in one of the two parts.
pub proof fn splitting_loses_nothing(queue: Seq<QueuedModel>, now: u64)
    ensures
        queue.to_multiset() == waiting_at(queue, now).to_multiset().add(
            due_at(queue, now).to_multiset(),
        ),
    decreases queue.len(),
{
    broadcast use vstd::seq_lib::group_to_multiset_ensures;

    reveal(Seq::filter);
    if queue.len() > 0 {
        let rest = queue.drop_last();
        let last = queue.last();
        splitting_loses_nothing(rest, now);
        assert(queue == rest.push(last));
        assert(queue.to_multiset() == rest.to_multiset().insert(last));
        if last.execute_after > now {
            assert(waiting_at(queue, now) == waiting_at(rest, now).push(last));
            assert(due_at(queue, now) == due_at(rest, now));
        } else {
            assert(waiting_at(queue, now) == waiting_at(rest, now));
            assert(due_at(queue, now) == due_at(rest, now).push(last));
        }
        assert(queue.to_multiset() =~= waiting_at(queue, now).to_multiset().add(
            due_at(queue, now).to_multiset(),
        ));
    } else {
        assert(queue.to_multiset() =~= waiting_at(queue, now).to_multiset().add(
            due_at(queue, now).to_multiset(),
        ));
    }
}

/// An entry is due exactly if its time has come.
pub proof fn due_entries_have_come(queue: Seq<QueuedModel>, now: u64, entry: QueuedModel)
    requires
        queue.contains(entry),
    ensures
        due_at(queue, now).contains(entry) <==> entry.execute_after <= now,
        waiting_at(queue, now).contains(entry) <==> entry.execute_after > now,
{
    broadcast use vstd::seq_lib::group_filter_ensures;

    let is_due = |entry: QueuedModel| entry.execute_after <= now;
    let is_waiting = |entry: QueuedModel| entry.execute_after > now;
    let i = choose|i: int| 0 <= i < queue.len() && queue[i] == entry;
    if is_due(queue[i]) {
        assert(queue.filter(is_due).contains(queue[i]));
    } else {
        assert(is_waiting(queue[i]));
        assert(queue.filter(is_waiting).contains(queue[i]));
    }
    if due_at(queue, now).contains(entry) {
        let k = choose|k: int| 0 <= k < due_at(queue, now).len() && due_at(queue, now)[k] == entry;
        assert(is_due(queue.filter(is_due)[k]));
    }
    if waiting_at(queue, now).contains(entry) {
        let k = choose|k: int|
            0 <= k < waiting_at(queue, now).len() && waiting_at(queue, now)[k] == entry;
        assert(is_waiting(queue.filter(is_waiting)[k]));
    }
}

/// An entry runs only if its time has come, was not longer ago than the grace period, and the
/// log does not have its height.
pub proof fn entries_run_in_time(
    state: QueueState,
    rules: QueueRules,
    now: u64,
    shutdown: bool,
    fresh_delay: u64,
    entry: QueuedModel,
)
    requires
        forall|i: int| 0 <= i < state.due.len() ==> (#[trigger] state.due[i]).execute_after <= now,
        state.step(rules, now, shutdown, fresh_delay) == StepModel::Execute(entry),
    ensures
        entry.execute_after <= now <= entry.execute_after + rules.grace_secs,
        !is_logged(state.log, entry.height),
        !shutdown,
{
    assert(state.due.first() == state.due[0]);
}

proof fn queued_in_push(queue: Seq<QueuedModel>, entry: QueuedModel, height: u32)
    ensures
        is_queued(queue.push(entry), height) <==> is_queued(queue, height) || entry.height
            == height,
{
    let longer = queue.push(entry);
    if is_queued(queue, height) {
        let k = choose|k: int| 0 <= k < queue.len() && (#[trigger] queue[k]).height == height;
        assert(longer[k].height == height);
    }
    if entry.height == height {
        assert(longer[queue.len() as int].height == height);
    }
    if is_queued(longer, height) {
        let k = choose|k: int| 0 <= k < longer.len() && (#[trigger] longer[k]).height == height;
        if k < queue.len() {
            assert(queue[k].height == height);
        }
    }
}

proof fn queued_in_parts(left: Seq<QueuedModel>, right: Seq<QueuedModel>, height: u32)
    ensures
        is_queued(left + right, height) <==> is_queued(left, height) || is_queued(right, height),
{
    let both = left + right;
    if is_queued(left, height) {
        let k = choose|k: int| 0 <= k < left.len() && (#[trigger] left[k]).height == height;
        assert(both[k].height == height);
    }
    if is_queued(right, height) {
        let k = choose|k: int| 0 <= k < right.len() && (#[trigger] right[k]).height == height;
        assert(both[left.len() + k].height == height);
    }
    if is_queued(both, height) {
        let k = choose|k: int| 0 <= k < both.len() && (#[trigger] both[k]).height == height;
        if k < left.len() {
            assert(left[k].height == height);
        } else {
            assert(right[k - left.len()].height == height);
        }
    }
}

proof fn queued_in_rest(queue: Seq<QueuedModel>, height: u32)
    requires
        queue.len() > 0,
    ensures
        is_queued(queue, height) <==> queue.first().height == height || is_queued(
            queue.drop_first(),
            height,
        ),
{
    let rest = queue.drop_first();
    if is_queued(queue, height) {
        let k = choose|k: int| 0 <= k < queue.len() && (#[trigger] queue[k]).height == height;
        if k > 0 {
            assert(rest[k - 1].height == height);
        }
    }
    if is_queued(rest, height) {
        let k = choose|k: int| 0 <= k < rest.len() && (#[trigger] rest[k]).height == height;
        assert(queue[k + 1].height == height);
    }
    if queue.first().height == height {
        assert(queue[0].height == height);
    }
}

proof fn logged_in_push(log: Seq<RewardModel>, entry: RewardModel, height: u32)
    ensures
        is_logged(log.push(entry), height) <==> is_logged(log, height) || entry.height == height,
{
    let longer = log.push(entry);
    if is_logged(log, height) {
        let k = choose|k: int| 0 <= k < log.len() && (#[trigger] log[k]).height == height;
        assert(longer[k].height == height);
    }
    if entry.height == height {
        assert(longer[log.len() as int].height == height);
    }
    if is_logged(longer, height) {
        let k = choose|k: int| 0 <= k < longer.len() && (#[trigger] longer[k]).height == height;
        if k < log.len() {
            assert(log[k].height == height);
        }
    }
}

/// However the turn of an entry ends, no height is lost and none appears: each is in the queue
/// or in the log as before.
pub proof fn a_turn_keeps_every_height(
    state: QueueState,
    rules: QueueRules,
    now: u64,
    turn: Turn,
    height: u32,
)
    ensures
        state.turn(rules, now, turn).keeps(height) <==> state.keeps(height),
{
    let step = state.step(rules, now, turn.shutdown, turn.fresh_delay);
    if state.due.len() > 0 {
        queued_in_rest(state.due, height);
        queued_in_parts(state.pending, state.due, height);
        let next = state.due.first();
        match step {
            StepModel::Interrupted => {
                assert(!is_queued(Seq::<QueuedModel>::empty(), height));
            },
            StepModel::Postponed { execute_after, .. } => {
                queued_in_push(state.pending, next.at(execute_after), height);
            },
            StepModel::Execute(entry) => {
                match turn.outcome {
                    Outcome::Executed { txids, executed_at } => {
                        logged_in_push(state.log, entry.executed(txids, executed_at), height);
                    },
                    Outcome::Failed { err_text, now, fresh_delay } => {
                        let later = (now + rules.retry_secs(err_text, fresh_delay)) as u64;
                        queued_in_push(state.pending, entry.at(later), height);
                    },
                }
            },
            _ => {},
        }
    }
}

proof fn turns_keep_every_height(
    state: QueueState,
    rules: QueueRules,
    now: u64,
    turns: Seq<Turn>,
    height: u32,
)
    ensures
        state.run(rules, now, turns).keeps(height) <==> state.keeps(height),
    decreases turns.len(),
{
    if turns.len() > 0 {
        a_turn_keeps_every_height(state, rules, now, turns.first(), height);
        turns_keep_every_height(
            state.turn(rules, now, turns.first()),
            rules,
            now,
            turns.drop_first(),
            height,
        );
    }
}

proof fn every_entry_gets_its_turn(
    state: QueueState,
    rules: QueueRules,
    now: u64,
    turns: Seq<Turn>,
)
    requires
        turns.len() >= state.due.len(),
    ensures
        state.run(rules, now, turns).due.len() == 0,
    decreases turns.len(),
{
    if turns.len() > 0 {
        every_entry_gets_its_turn(
            state.turn(rules, now, turns.first()),
            rules,
            now,
            turns.drop_first(),
        );
    }
}

proof fn split_keeps_every_height(queue: Seq<QueuedModel>, now: u64, height: u32)
    ensures
        is_queued(queue, height) <==> is_queued(waiting_at(queue, now), height) || is_queued(
            due_at(queue, now),
            height,
        ),
    decreases queue.len(),
{
    reveal(Seq::filter);
    if queue.len() > 0 {
        let rest = queue.drop_last();
        let last = queue.last();
        split_keeps_every_height(rest, now, height);
        assert(queue == rest.push(last));
        queued_in_push(rest, last, height);
        if last.execute_after > now {
            assert(waiting_at(queue, now) == waiting_at(rest, now).push(last));
            assert(due_at(queue, now) == due_at(rest, now));
            queued_in_push(waiting_at(rest, now), last, height);
        } else {
            assert(waiting_at(queue, now) == waiting_at(rest, now));
            assert(due_at(queue, now) == due_at(rest, now).push(last));
            queued_in_push(due_at(rest, now), last, height);
        }
    }
}

/// A pass in which every entry that is due gets its turn ends with each height where it can be
/// found again: in the queue or in the log, if it was in one of them before, and in neither
/// otherwise. That holds wherever the pass is interrupted and however the entries end.
pub proof fn a_pass_keeps_every_height(
    queue: Seq<QueuedModel>,
    log: Seq<RewardModel>,
    rules: QueueRules,
    now: u64,
    turns: Seq<Turn>,
    height: u32,
)
    requires
        turns.len() >= due_at(queue, now).len(),
    ensures
        ({
            let end = QueueState::start(queue, log, now).run(rules, now, turns);
            &&& end.due.len() == 0
            &&& is_queued(end.pending, height) || is_logged(end.log, height) <==> is_queued(
                queue,
                height,
            ) || is_logged(log, height)
        }),
{
    let start = QueueState::start(queue, log, now);
    split_keeps_every_height(queue, now, height);
    turns_keep_every_height(start, rules, now, turns, height);
    every_entry_gets_its_turn(start, rules, now, turns);
}

/// The log only grows, and no height is logged twice: what is shielded is never shielded again.
pub proof fn nothing_runs_twice(
    state: QueueState,
    rules: QueueRules,
    now: u64,
    turns: Seq<Turn>,
)
    ensures
        logged_heights(state.log).no_duplicates() ==> logged_heights(
            state.run(rules, now, turns).log,
        ).no_duplicates(),
        state.log.is_prefix_of(state.run(rules, now, turns).log),
    decreases turns.len(),
{
    if turns.len() > 0 {
        let next = state.turn(rules, now, turns.first());
        assert(logged_heights(state.log).no_duplicates() ==> logged_heights(
            next.log,
        ).no_duplicates()) by {
            if next.log != state.log {
                let height = next.log.last().height;
                assert(!is_logged(state.log, height));
                assert(logged_heights(next.log) == logged_heights(state.log).push(height));
                assert forall|i: int| 0 <= i < state.log.len() implies logged_heights(
                    state.log,
                )[i] != height by {
                    assert(state.log[i].height != height);
                }
            }
        }
        nothing_runs_twice(next, rules, now, turns.drop_first());
    }
}

/// The heights in the queue stay distinct.
pub proof fn a_turn_keeps_heights_distinct(
    state: QueueState,
    rules: QueueRules,
    now: u64,
    turn: Turn,
)
    requires
        heights(state.pending + state.due).no_duplicates(),
    ensures
        heights(
            state.turn(rules, now, turn).pending + state.turn(rules, now, turn).due,
        ).no_duplicates(),
{
    let step = state.step(rules, now, turn.shutdown, turn.fresh_delay);
    let end = state.turn(rules, now, turn);
    let before = heights(state.pending + state.due);
    let after = heights(end.pending + end.due);
    match step {
        StepModel::Finished => {},
        StepModel::Interrupted => {
            assert(end.pending + end.due == state.pending + state.due);
        },
        StepModel::Postponed { .. } => {
            assert(after == before);
        },
        StepModel::Satisfied { .. } => {
            assert(after == before.remove(state.pending.len() as int));
            removing_keeps_distinct(before, state.pending.len() as int);
        },
        StepModel::Execute(_) => match turn.outcome {
            Outcome::Executed { .. } => {
                assert(after == before.remove(state.pending.len() as int));
                removing_keeps_distinct(before, state.pending.len() as int);
            },
            Outcome::Failed { .. } => {
                assert(after == before);
            },
        },
    }
}

proof fn removing_keeps_distinct(values: Seq<u32>, at: int)
    requires
        values.no_duplicates(),
        0 <= at < values.len(),
    ensures
        values.remove(at).no_duplicates(),
{
    let rest = values.remove(at);
    assert forall|i: int, j: int| 0 <= i < rest.len() && 0 <= j < rest.len() && i
        != j implies rest[i] != rest[j] by {
        let from_i = if i < at {
            i
        } else {
            i + 1
        };
        let from_j = if j < at {
            j
        } else {
            j + 1
        };
        assert(rest[i] == values[from_i]);
        assert(rest[j] == values[from_j]);
    }
}

proof fn split_keeps_heights_distinct(queue: Seq<QueuedModel>, now: u64)
    requires
        heights(queue).no_duplicates(),
    ensures
        heights(waiting_at(queue, now) + due_at(queue, now)).no_duplicates(),
    decreases queue.len(),
{
    reveal(Seq::filter);
    if queue.len() > 0 {
        let rest = queue.drop_last();
        let last = queue.last();
        let waiting = waiting_at(rest, now);
        let due = due_at(rest, now);
        assert(queue == rest.push(last));
        assert forall|i: int, j: int| 0 <= i < rest.len() && 0 <= j < rest.len() && i
            != j implies heights(rest)[i] != heights(rest)[j] by {
            assert(heights(queue)[i] == heights(rest)[i]);
            assert(heights(queue)[j] == heights(rest)[j]);
        }
        split_keeps_heights_distinct(rest, now);
        assert(!is_queued(rest, last.height)) by {
            assert forall|i: int| 0 <= i < rest.len() implies (#[trigger] rest[i]).height
                != last.height by {
                assert(heights(queue)[i] == rest[i].height);
                assert(heights(queue)[queue.len() - 1] == last.height);
            }
        }
        split_keeps_every_height(rest, now, last.height);
        let before = heights(waiting + due);
        if last.execute_after > now {
            assert(waiting_at(queue, now) == waiting.push(last));
            assert(due_at(queue, now) == due);
            let after = heights(waiting.push(last) + due);
            assert(after == before.insert(waiting.len() as int, last.height));
            inserting_keeps_distinct(waiting, due, waiting.len() as int, last.height);
        } else {
            assert(waiting_at(queue, now) == waiting);
            assert(due_at(queue, now) == due.push(last));
            let after = heights(waiting + due.push(last));
            assert(after == before.insert(before.len() as int, last.height));
            inserting_keeps_distinct(waiting, due, before.len() as int, last.height);
        }
    }
}

proof fn inserting_keeps_distinct(
    waiting: Seq<QueuedModel>,
    due: Seq<QueuedModel>,
    at: int,
    height: u32,
)
    requires
        heights(waiting + due).no_duplicates(),
        !is_queued(waiting, height),
        !is_queued(due, height),
        0 <= at <= waiting.len() + due.len(),
    ensures
        heights(waiting + due).insert(at, height).no_duplicates(),
{
    let both = waiting + due;
    queued_in_parts(waiting, due, height);
    let before = heights(both);
    let after = before.insert(at, height);
    assert forall|k: int| 0 <= k < before.len() implies #[trigger] before[k] != height by {
        assert(both[k].height != height);
    }
    assert forall|i: int, j: int| 0 <= i < after.len() && 0 <= j < after.len() && i
        != j implies after[i] != after[j] by {
        let from_i = if i < at {
            i
        } else {
            i - 1
        };
        let from_j = if j < at {
            j
        } else {
            j - 1
        };
        if i == at {
            assert(after[j] == before[from_j]);
        } else if j == at {
            assert(after[i] == before[from_i]);
        } else {
            assert(after[i] == before[from_i]);
            assert(after[j] == before[from_j]);
        }
    }
}

proof fn turns_keep_heights_distinct(
    state: QueueState,
    rules: QueueRules,
    now: u64,
    turns: Seq<Turn>,
)
    requires
        heights(state.pending + state.due).no_duplicates(),
    ensures
        heights(
            state.run(rules, now, turns).pending + state.run(rules, now, turns).due,
        ).no_duplicates(),
    decreases turns.len(),
{
    if turns.len() > 0 {
        a_turn_keeps_heights_distinct(state, rules, now, turns.first());
        turns_keep_heights_distinct(
            state.turn(rules, now, turns.first()),
            rules,
            now,
            turns.drop_first(),
        );
    }
}

/// A pass over a queue in which no height stands twice ends with such a queue.
pub proof fn a_pass_keeps_heights_distinct(
    queue: Seq<QueuedModel>,
    log: Seq<RewardModel>,
    rules: QueueRules,
    now: u64,
    turns: Seq<Turn>,
)
    requires
        heights(queue).no_duplicates(),
        turns.len() >= due_at(queue, now).len(),
    ensures
        heights(
            QueueState::start(queue, log, now).run(rules, now, turns).pending,
        ).no_duplicates(),
{
    let start = QueueState::start(queue, log, now);
    let end = start.run(rules, now, turns);
    split_keeps_heights_distinct(queue, now);
    turns_keep_heights_distinct(start, rules, now, turns);
    every_entry_gets_its_turn(start, rules, now, turns);
    assert(end.pending + end.due == end.pending);
}

/// An entry that was overdue for too long waits for a whole new delay, counted from the start of
/// the pass.
pub proof fn overdue_entries_get_a_new_delay(
    state: QueueState,
    rules: QueueRules,
    now: u64,
    shutdown: bool,
    fresh_delay: u64,
)
    requires
        rules.delay.holds(fresh_delay),
        now + fresh_delay <= u64::MAX,
    ensures
        state.step(rules, now, shutdown, fresh_delay) matches StepModel::Postponed {
            overdue_secs,
            execute_after,
            ..
        } ==> overdue_secs > rules.grace_secs && now + rules.delay.min_minutes * 60
            <= execute_after <= now + rules.delay.max_minutes * 60,
{
}

/// An entry that failed waits at least for the shortest delay, and at most for the time that
/// missing funds cost.
pub proof fn retries_are_bounded(rules: QueueRules, err_text: Seq<char>, fresh_delay: u64)
    requires
        rules.wf(),
        rules.delay.holds(fresh_delay),
    ensures
        rules.delay.min_minutes * 60 <= rules.retry_secs(err_text, fresh_delay)
            <= rules.maturity_minutes() * 60,
{
}

/// Where funds are missing, the entry waits longer than any delay that is drawn at random,
/// unless 32 bits cannot hold more minutes.
pub proof fn missing_funds_wait_longest(
    rules: QueueRules,
    err_text: Seq<char>,
    fresh_delay: u64,
)
    requires
        rules.delay.holds(fresh_delay),
        rules.delay.max_minutes < u32::MAX,
        reports_missing_funds(err_text),
    ensures
        fresh_delay < rules.retry_secs(err_text, fresh_delay),
{
}

/// Whether two entries are the same but for the time to run at.
pub open spec fn is_same_but_time(entry: QueuedModel, other: QueuedModel) -> bool {
    other == entry.at(other.execute_after)
}

/// Whether a queue holds `entry`, if with another time to run at.
pub open spec fn holds_entry(queue: Seq<QueuedModel>, entry: QueuedModel) -> bool {
    exists|i: int| 0 <= i < queue.len() && is_same_but_time(entry, #[trigger] queue[i])
}

proof fn entry_in_push(queue: Seq<QueuedModel>, last: QueuedModel, entry: QueuedModel)
    ensures
        holds_entry(queue.push(last), entry) <==> holds_entry(queue, entry) || is_same_but_time(
            entry,
            last,
        ),
{
    let longer = queue.push(last);
    if holds_entry(queue, entry) {
        let k = choose|k: int|
            0 <= k < queue.len() && is_same_but_time(entry, #[trigger] queue[k]);
        assert(longer[k] == queue[k]);
    }
    if is_same_but_time(entry, last) {
        assert(longer[queue.len() as int] == last);
    }
    if holds_entry(longer, entry) {
        let k = choose|k: int|
            0 <= k < longer.len() && is_same_but_time(entry, #[trigger] longer[k]);
        if k < queue.len() {
            assert(queue[k] == longer[k]);
        }
    }
}

proof fn entry_in_parts(left: Seq<QueuedModel>, right: Seq<QueuedModel>, entry: QueuedModel)
    ensures
        holds_entry(left + right, entry) <==> holds_entry(left, entry) || holds_entry(
            right,
            entry,
        ),
{
    let both = left + right;
    if holds_entry(left, entry) {
        let k = choose|k: int| 0 <= k < left.len() && is_same_but_time(entry, #[trigger] left[k]);
        assert(both[k] == left[k]);
    }
    if holds_entry(right, entry) {
        let k = choose|k: int|
            0 <= k < right.len() && is_same_but_time(entry, #[trigger] right[k]);
        assert(both[left.len() + k] == right[k]);
    }
    if holds_entry(both, entry) {
        let k = choose|k: int| 0 <= k < both.len() && is_same_but_time(entry, #[trigger] both[k]);
        if k < left.len() {
            assert(left[k] == both[k]);
        } else {
            assert(right[k - left.len()] == both[k]);
        }
    }
}

proof fn entry_in_rest(queue: Seq<QueuedModel>, entry: QueuedModel)
    requires
        queue.len() > 0,
    ensures
        holds_entry(queue, entry) <==> is_same_but_time(entry, queue.first()) || holds_entry(
            queue.drop_first(),
            entry,
        ),
{
    assert(queue == seq![queue.first()] + queue.drop_first());
    entry_in_parts(seq![queue.first()], queue.drop_first(), entry);
    assert(seq![queue.first()] == Seq::<QueuedModel>::empty().push(queue.first()));
    entry_in_push(Seq::<QueuedModel>::empty(), queue.first(), entry);
}

impl QueueState {
    /// Whether `entry` is in the queue, if with another time, or its height is in the log.
    pub open spec fn keeps_entry(self, entry: QueuedModel) -> bool {
        self.holds(entry) || is_logged(self.log, entry.height)
    }

    /// Whether `entry` is in the queue, if with another time.
    pub open spec fn holds(self, entry: QueuedModel) -> bool {
        holds_entry(self.pending, entry) || holds_entry(self.due, entry)
    }
}

/// However the turn of an entry ends, every entry stays in the queue with all but its time, or
/// its height is in the log; and no other entry comes into the queue.
pub proof fn a_turn_keeps_whole_entries(
    state: QueueState,
    rules: QueueRules,
    now: u64,
    turn: Turn,
    entry: QueuedModel,
)
    ensures
        state.keeps_entry(entry) ==> state.turn(rules, now, turn).keeps_entry(entry),
        state.turn(rules, now, turn).holds(entry) ==> state.holds(entry),
{
    let step = state.step(rules, now, turn.shutdown, turn.fresh_delay);
    if state.due.len() > 0 {
        entry_in_rest(state.due, entry);
        entry_in_parts(state.pending, state.due, entry);
        let next = state.due.first();
        match step {
            StepModel::Postponed { execute_after, .. } => {
                entry_in_push(state.pending, next.at(execute_after), entry);
            },
            StepModel::Execute(run) => {
                match turn.outcome {
                    Outcome::Executed { txids, executed_at } => {
                        logged_in_push(state.log, run.executed(txids, executed_at), entry.height);
                    },
                    Outcome::Failed { err_text, now, fresh_delay } => {
                        let later = (now + rules.retry_secs(err_text, fresh_delay)) as u64;
                        entry_in_push(state.pending, run.at(later), entry);
                    },
                }
            },
            _ => {},
        }
    }
}

proof fn turns_keep_whole_entries(
    state: QueueState,
    rules: QueueRules,
    now: u64,
    turns: Seq<Turn>,
    entry: QueuedModel,
)
    ensures
        state.keeps_entry(entry) ==> state.run(rules, now, turns).keeps_entry(entry),
        state.run(rules, now, turns).holds(entry) ==> state.holds(entry),
    decreases turns.len(),
{
    if turns.len() > 0 {
        a_turn_keeps_whole_entries(state, rules, now, turns.first(), entry);
        turns_keep_whole_entries(
            state.turn(rules, now, turns.first()),
            rules,
            now,
            turns.drop_first(),
            entry,
        );
    }
}

proof fn split_keeps_whole_entries(queue: Seq<QueuedModel>, now: u64, entry: QueuedModel)
    ensures
        holds_entry(queue, entry) <==> holds_entry(waiting_at(queue, now), entry) || holds_entry(
            due_at(queue, now),
            entry,
        ),
    decreases queue.len(),
{
    reveal(Seq::filter);
    if queue.len() > 0 {
        let rest = queue.drop_last();
        let last = queue.last();
        split_keeps_whole_entries(rest, now, entry);
        assert(queue == rest.push(last));
        entry_in_push(rest, last, entry);
        if last.execute_after > now {
            assert(waiting_at(queue, now) == waiting_at(rest, now).push(last));
            assert(due_at(queue, now) == due_at(rest, now));
            entry_in_push(waiting_at(rest, now), last, entry);
        } else {
            assert(waiting_at(queue, now) == waiting_at(rest, now));
            assert(due_at(queue, now) == due_at(rest, now).push(last));
            entry_in_push(due_at(rest, now), last, entry);
        }
    }
}

/// A pass in which every entry that is due gets its turn keeps the entries whole: each is in the
/// queue afterwards with all but its time, or its height is in the log. The queue holds no other
/// entries. That holds wherever the pass is interrupted and however the entries end.
pub proof fn a_pass_keeps_whole_entries(
    queue: Seq<QueuedModel>,
    log: Seq<RewardModel>,
    rules: QueueRules,
    now: u64,
    turns: Seq<Turn>,
    entry: QueuedModel,
)
    requires
        turns.len() >= due_at(queue, now).len(),
    ensures
        ({
            let end = QueueState::start(queue, log, now).run(rules, now, turns);
            &&& holds_entry(queue, entry) ==> holds_entry(end.pending, entry) || is_logged(
                end.log,
                entry.height,
            )
            &&& holds_entry(end.pending, entry) ==> holds_entry(queue, entry)
        }),
{
    let start = QueueState::start(queue, log, now);
    split_keeps_whole_entries(queue, now, entry);
    turns_keep_whole_entries(start, rules, now, turns, entry);
    every_entry_gets_its_turn(start, rules, now, turns);
}

/// A pass that is ended early keeps every entry as well, where the entries that are left of it go
/// back into the queue.
pub proof fn an_abandoned_pass_keeps_whole_entries(
    queue: Seq<QueuedModel>,
    log: Seq<RewardModel>,
    rules: QueueRules,
    now: u64,
    turns: Seq<Turn>,
    entry: QueuedModel,
)
    ensures
        ({
            let left = QueueState::start(queue, log, now).run(rules, now, turns);
            let put_back = left.pending + left.due;
            &&& holds_entry(queue, entry) ==> holds_entry(put_back, entry) || is_logged(
                left.log,
                entry.height,
            )
            &&& holds_entry(put_back, entry) ==> holds_entry(queue, entry)
        }),
{
    let start = QueueState::start(queue, log, now);
    let left = start.run(rules, now, turns);
    split_keeps_whole_entries(queue, now, entry);
    turns_keep_whole_entries(start, rules, now, turns, entry);
    entry_in_parts(left.pending, left.due, entry);
}

} // verus!
