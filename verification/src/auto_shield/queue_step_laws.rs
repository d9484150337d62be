//! What holds of one step of a pass over a queue: which entries are due, what becomes of the next
//! of them, and when an entry that failed runs again.
use vstd::prelude::*;

use crate::auto_shield::config::DelayWindow;
use crate::auto_shield::queue::{
    due_at, reports_missing_funds, waiting_at, QueuePass, QueueRules, QueueState, QueueStep,
    StepModel,
};
use crate::auto_shield::queue_laws::logged_heights;
use crate::auto_shield::state::{QueuedModel, RewardModel};
use crate::auto_shield::sync::reports_missing_transaction;
use crate::text_laws::a_text_occurs_in_what_surrounds_it;

verus! {

/// The entries that are due keep their order, and so do those that wait: an entry at the end of
/// the queue comes to the end of one of the two, by its time.
pub proof fn the_parts_of_a_queue_keep_its_order(
    queue: Seq<QueuedModel>,
    entry: QueuedModel,
    now: u64,
)
    ensures
        due_at(Seq::<QueuedModel>::empty(), now).len() == 0,
        waiting_at(Seq::<QueuedModel>::empty(), now).len() == 0,
        entry.execute_after <= now ==> due_at(queue.push(entry), now) == due_at(queue, now).push(
            entry,
        ) && waiting_at(queue.push(entry), now) == waiting_at(queue, now),
        entry.execute_after > now ==> due_at(queue.push(entry), now) == due_at(queue, now)
            && waiting_at(queue.push(entry), now) == waiting_at(queue, now).push(entry),
{
    reveal(Seq::filter);
    queue.lemma_filter_push(entry, |entry: QueuedModel| entry.execute_after <= now);
    queue.lemma_filter_push(entry, |entry: QueuedModel| entry.execute_after > now);
}

/// A pass begins with the entries that are due and those that wait, and with the log as it is.
pub proof fn a_pass_begins_with_the_whole_queue(
    queue: Seq<QueuedModel>,
    log: Seq<RewardModel>,
    now: u64,
    entry: QueuedModel,
)
    ensures
        ({
            let start = QueueState::start(queue, log, now);
            let longer = QueueState::start(queue.push(entry), log, now);
            &&& start.log == log
            &&& queue.len() == 0 ==> start.due.len() == 0 && start.pending.len() == 0
            &&& entry.execute_after <= now ==> longer.due == start.due.push(entry)
                && longer.pending == start.pending
            &&& entry.execute_after > now ==> longer.pending == start.pending.push(entry)
                && longer.due == start.due
        }),
{
    the_parts_of_a_queue_keep_its_order(queue, entry, now);
    if queue.len() == 0 {
        assert(queue == Seq::<QueuedModel>::empty());
    }
}

/// Whether the log has the height of the next entry.
pub open spec fn next_is_logged(state: QueueState) -> bool {
    logged_heights(state.log).contains(state.due[0].height)
}

/// What becomes of the next entry: nothing where there is none, and it goes back where the daemon
/// stops; it is dropped where its height is in the log; it gets the fresh delay, counted from the
/// start of the pass, where it is overdue for longer than the grace period; and it runs, as it is,
/// in every other case.
pub proof fn what_becomes_of_the_next_entry(
    state: QueueState,
    rules: QueueRules,
    now: u64,
    shutdown: bool,
    fresh_delay: u64,
)
    requires
        state.due.len() > 0 ==> state.due[0].execute_after <= now,
        now + fresh_delay <= u64::MAX,
    ensures
        ({
            let step = state.step(rules, now, shutdown, fresh_delay);
            let next = state.due[0];
            let is_late = now - next.execute_after > rules.grace_secs;
            &&& step == StepModel::Finished <==> state.due.len() == 0
            &&& step == StepModel::Interrupted <==> state.due.len() > 0 && shutdown
            &&& step == (StepModel::Satisfied { height: next.height }) <==> state.due.len() > 0
                && !shutdown && next_is_logged(state)
            &&& state.due.len() > 0 && !shutdown && !next_is_logged(state) && is_late
                ==> step is Postponed && step->Postponed_height == next.height
                && step->overdue_secs == now - next.execute_after
                && step->Postponed_execute_after == now + fresh_delay
            &&& step == StepModel::Execute(next) <==> state.due.len() > 0 && !shutdown
                && !next_is_logged(state) && !is_late
        }),
{
    if state.due.len() > 0 {
        let height = state.due[0].height;
        if crate::auto_shield::state::is_logged(state.log, height) {
            let k = choose|k: int|
                0 <= k < state.log.len() && (#[trigger] state.log[k]).height == height;
            assert(logged_heights(state.log)[k] == height);
        }
        if next_is_logged(state) {
            let k = choose|k: int|
                0 <= k < logged_heights(state.log).len() && logged_heights(state.log)[k] == height;
            assert(state.log[k].height == height);
        }
    }
}

/// What a step does to the queue: without an entry nothing; where the daemon stops, the entries
/// that are left go behind those that wait, in their order; otherwise the first entry that is due
/// leaves, and only one that is postponed goes back, at the end and with its new time. The log
/// stays as it is.
pub proof fn what_a_step_leaves(state: QueueState, step: StepModel)
    requires
        step !is Finished ==> state.due.len() > 0,
    ensures
        state.behind(step).log == state.log,
        step is Finished ==> state.behind(step).pending == state.pending && state.behind(step).due
            == state.due,
        step is Interrupted ==> state.behind(step).pending == state.pending + state.due
            && state.behind(step).due.len() == 0,
        step is Satisfied || step is Execute || step is Postponed ==> state.due == seq![
            state.due[0],
        ] + state.behind(step).due,
        step is Satisfied || step is Execute ==> state.behind(step).pending == state.pending,
        step matches StepModel::Postponed { execute_after, .. } ==> {
            let pending = state.behind(step).pending;
            let last = pending[pending.len() - 1];
            &&& pending.len() == state.pending.len() + 1
            &&& pending.take(state.pending.len() as int) == state.pending
            &&& last.execute_after == execute_after
            &&& last.height == state.due[0].height
            &&& last.block_hash == state.due[0].block_hash
            &&& last.address == state.due[0].address
            &&& last.value_zat == state.due[0].value_zat
            &&& last.scheduled_at == state.due[0].scheduled_at
        },
{
    if step !is Finished {
        assert(state.due == seq![state.due[0]] + state.due.drop_first());
    }
    if let StepModel::Postponed { execute_after, .. } = step {
        let pending = state.behind(step).pending;
        assert(pending.take(state.pending.len() as int) == state.pending);
    }
}

/// A step shows what it is, and a pass shows the entries that are left of it, in their order.
pub proof fn steps_show_what_they_are(step: QueueStep, pass: QueuePass, i: int)
    ensures
        step is Finished <==> step@ is Finished,
        step is Interrupted <==> step@ is Interrupted,
        step matches QueueStep::Satisfied { height } ==> step@ == (StepModel::Satisfied {
            height,
        }),
        step matches QueueStep::Postponed { height, overdue_secs, execute_after } ==> step@ == (
        StepModel::Postponed { height, overdue_secs, execute_after }),
        step matches QueueStep::Execute(entry) ==> step@ == StepModel::Execute(entry@),
        pass.remaining().len() == pass.due@.len(),
        0 <= i < pass.due@.len() ==> pass.remaining()[i] == pass.due@[i]@,
{
}

/// An error that says anywhere that funds are missing makes the entry wait for the longest delay
/// and two and a half hours more, in minutes that 32 bits hold, whatever else it says and
/// whatever delay was drawn.
pub proof fn missing_funds_wait_for_maturity(
    rules: QueueRules,
    before: Seq<char>,
    behind: Seq<char>,
    fresh_delay: u64,
)
    ensures
        ({
            let err_text = before + "InsufficientFunds"@ + behind;
            let minutes = rules.delay.max_minutes + 150;
            rules.retry_secs(err_text, fresh_delay) == 60 * (if minutes <= u32::MAX {
                minutes
            } else {
                u32::MAX as int
            })
        }),
{
    a_text_occurs_in_what_surrounds_it(before, "InsufficientFunds"@, behind, behind);
}

/// An error that says anywhere that the backend lacks a transaction, and not that funds are
/// missing, makes the entry wait for the shortest delay, and for half an hour at least.
pub proof fn missing_transactions_wait_for_the_backend(
    rules: QueueRules,
    before: Seq<char>,
    behind: Seq<char>,
    fresh_delay: u64,
)
    requires
        !reports_missing_funds(
            before + "No such mempool or main chain transaction"@ + behind,
        ),
    ensures
        ({
            let err_text = before + "No such mempool or main chain transaction"@ + behind;
            let seconds = rules.retry_secs(err_text, fresh_delay);
            &&& seconds >= rules.delay.min_minutes * 60
            &&& seconds >= 1_800
            &&& seconds == rules.delay.min_minutes * 60 || seconds == 1_800
        }),
{
    a_text_occurs_in_what_surrounds_it(
        before,
        "No such mempool or main chain transaction"@,
        behind,
        behind,
    );
}

/// After any other error the entry waits for the delay that was drawn.
pub proof fn other_errors_wait_for_a_fresh_delay(
    rules: QueueRules,
    err_text: Seq<char>,
    fresh_delay: u64,
)
    requires
        forall|before: Seq<char>, behind: Seq<char>|
            err_text != #[trigger] (before + "InsufficientFunds"@ + behind),
        forall|before: Seq<char>, behind: Seq<char>|
            err_text != #[trigger] (before + "No such mempool or main chain transaction"@
                + behind),
    ensures
        rules.retry_secs(err_text, fresh_delay) == fresh_delay,
{
    a_text_occurs_in_what_surrounds_it(
        err_text,
        "InsufficientFunds"@,
        err_text,
        err_text,
    );
    a_text_occurs_in_what_surrounds_it(
        err_text,
        "No such mempool or main chain transaction"@,
        err_text,
        err_text,
    );
    assert(!reports_missing_funds(err_text));
    assert(!reports_missing_transaction(err_text));
}

/// A time from which every delay can be counted is one from which each retry ends within 64 bits,
/// and one from which the longest retry does is such a time.
pub proof fn a_time_in_reach_has_room_for_every_retry(
    rules: QueueRules,
    now: u64,
    err_text: Seq<char>,
    fresh_delay: u64,
)
    ensures
        rules.wf() && rules.delay.holds(fresh_delay) && rules.reaches(now) ==> now
            + rules.retry_secs(err_text, fresh_delay) <= u64::MAX && now + fresh_delay <= u64::MAX,
        rules.reaches(now) <==> now + rules.retry_secs("InsufficientFunds"@, fresh_delay)
            <= u64::MAX,
        rules.wf() <==> 0 < rules.delay.min_minutes && rules.delay.min_minutes
            <= rules.delay.max_minutes,
{
    let nothing = Seq::<char>::empty();
    a_text_occurs_in_what_surrounds_it(nothing, "InsufficientFunds"@, nothing, err_text);
    assert(nothing + "InsufficientFunds"@ + nothing == "InsufficientFunds"@);
}

/// A delay out of a window is a number of whole minutes between its ends, both of which it can
/// be.
pub proof fn delays_are_whole_minutes_of_the_window(window: DelayWindow, seconds: u64)
    ensures
        window.holds(seconds) <==> seconds % 60 == 0 && window.min_minutes * 60 <= seconds
            <= window.max_minutes * 60,
{
    if seconds % 60 == 0 && window.min_minutes * 60 <= seconds <= window.max_minutes * 60 {
        let minutes = (seconds / 60) as u32;
        assert(seconds == minutes * 60);
    }
}

} // verus!
