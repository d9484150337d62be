//! What holds of the operations on a queue and its log.
use vstd::prelude::*;

use crate::auto_shield::clock::timestamp_of;
use crate::auto_shield::queue::{
    is_missing_funds, QueuePass, QueueRules, QueueState, QueueStep,
};
use crate::auto_shield::queue_laws::{due_entries_have_come, logged_heights};
use crate::auto_shield::queue_step_laws::{
    missing_funds_wait_for_maturity, missing_transactions_wait_for_the_backend,
    other_errors_wait_for_a_fresh_delay, the_parts_of_a_queue_keep_its_order, what_a_step_leaves,
    what_becomes_of_the_next_entry,
};
use crate::auto_shield::runner_call_laws::{holds_text, is_logged_behind};
use crate::auto_shield::state::{
    tracked_heights_are_distinct, tracked_heights_are_the_queued, QueuedModel, QueuedShield,
    RewardLog, ShieldQueue,
};
use crate::text_laws::a_text_occurs_in_what_surrounds_it;

verus! {

/// An entry that is scheduled comes to the end of the queue with all that is said of it, to run
/// when the delay is over.
pub proof fn an_entry_is_scheduled_at_the_end(
    queue: &mut ShieldQueue,
    height: u32,
    block_hash: &str,
    address: &str,
    value_zat: i64,
    now: u64,
    delay_secs: u64,
    execute_after: u64,
)
    requires
        now + delay_secs <= u64::MAX,
        call_ensures(
            ShieldQueue::schedule,
            (queue, height, block_hash, address, value_zat, now, delay_secs),
            execute_after,
        ),
    ensures
        execute_after == now + delay_secs,
        ({
            let entry = final(queue)@.last();
            &&& final(queue)@ == old(queue)@.push(entry)
            &&& entry.height == height
            &&& entry.block_hash == block_hash@
            &&& entry.address == address@
            &&& entry.value_zat == value_zat
            &&& entry.scheduled_at == now
            &&& entry.execute_after == now + delay_secs
        }),
{
}

/// A pass takes the entries whose time has come, and leaves the others.
pub proof fn a_pass_takes_what_is_due(
    queue: &mut ShieldQueue,
    now: u64,
    pass: QueuePass,
    entry: QueuedModel,
)
    requires
        call_ensures(ShieldQueue::take_due, (queue, now), pass),
        old(queue)@.contains(entry),
    ensures
        pass.now == now,
        pass.remaining().contains(entry) <==> entry.execute_after <= now,
        final(queue)@.contains(entry) <==> entry.execute_after > now,
{
    due_entries_have_come(old(queue)@, now, entry);
}

/// What a pass takes and what it leaves stand in the order of the queue: with one more entry at
/// the end of the queue, that entry comes to the end of what is taken or of what is left.
pub proof fn a_pass_keeps_the_order(
    queue: &mut ShieldQueue,
    longer: &mut ShieldQueue,
    now: u64,
    pass: QueuePass,
    longer_pass: QueuePass,
    entry: QueuedModel,
)
    requires
        call_ensures(ShieldQueue::take_due, (queue, now), pass),
        call_ensures(ShieldQueue::take_due, (longer, now), longer_pass),
        old(longer)@ == old(queue)@.push(entry),
    ensures
        entry.execute_after <= now ==> longer_pass.remaining() == pass.remaining().push(entry)
            && final(longer)@ == final(queue)@,
        entry.execute_after > now ==> longer_pass.remaining() == pass.remaining() && final(longer)@
            == final(queue)@.push(entry),
{
    the_parts_of_a_queue_keep_its_order(old(queue)@, entry, now);
}

/// The next entry of a pass is interrupted, dropped, postponed or run by whether the daemon stops,
/// the log has its height, and it is overdue for longer than the grace period; and it comes to the
/// end of the queue with a new time exactly if it is postponed.
pub proof fn the_next_entry_has_its_turn(
    queue: &mut ShieldQueue,
    pass: &mut QueuePass,
    log: RewardLog,
    rules: QueueRules,
    shutdown: bool,
    fresh_delay: u64,
    step: QueueStep,
)
    requires
        old(pass).remaining().len() > 0,
        old(pass).remaining()[0].execute_after <= old(pass).now,
        old(pass).now + fresh_delay <= u64::MAX,
        call_ensures(
            ShieldQueue::next_due,
            (queue, pass, &log, &rules, shutdown, fresh_delay),
            step,
        ),
    ensures
        final(pass).now == old(pass).now,
        ({
            let next = old(pass).remaining()[0];
            let is_late = old(pass).now - next.execute_after > rules.grace_secs;
            let logged = logged_heights(log@).contains(next.height);
            &&& step is Interrupted <==> shutdown
            &&& step is Satisfied <==> !shutdown && logged
            &&& step is Postponed <==> !shutdown && !logged && is_late
            &&& step is Execute <==> !shutdown && !logged && !is_late
            &&& step matches QueueStep::Execute(entry) ==> entry@ == next
            &&& step matches QueueStep::Satisfied { height } ==> height == next.height
            &&& step matches QueueStep::Postponed { height, overdue_secs, execute_after } ==> {
                &&& height == next.height
                &&& overdue_secs == old(pass).now - next.execute_after
                &&& execute_after == old(pass).now + fresh_delay
                &&& final(queue)@ == old(queue)@.push(QueuedModel { execute_after, ..next })
            }
            &&& step is Execute || step is Satisfied ==> final(queue)@ == old(queue)@
            &&& step is Interrupted ==> final(queue)@ == old(queue)@ + old(pass).remaining()
                && final(pass).remaining().len() == 0
            &&& !(step is Interrupted) ==> old(pass).remaining() == seq![next]
                + final(pass).remaining()
        }),
{
    let state = QueueState { pending: old(queue)@, due: old(pass).remaining(), log: log@ };
    what_becomes_of_the_next_entry(state, rules, old(pass).now, shutdown, fresh_delay);
    what_a_step_leaves(state, step@);
}

/// A pass without entries is finished, and changes nothing.
pub proof fn an_empty_pass_is_finished(
    queue: &mut ShieldQueue,
    pass: &mut QueuePass,
    log: RewardLog,
    rules: QueueRules,
    shutdown: bool,
    fresh_delay: u64,
    step: QueueStep,
)
    requires
        old(pass).remaining().len() == 0,
        old(pass).now + fresh_delay <= u64::MAX,
        call_ensures(
            ShieldQueue::next_due,
            (queue, pass, &log, &rules, shutdown, fresh_delay),
            step,
        ),
    ensures
        step is Finished,
        final(queue)@ == old(queue)@,
        final(pass).remaining().len() == 0,
{
    assert(step is Finished <==> step@ is Finished);
}

/// What is left of a pass goes behind the queue, in its order.
pub proof fn what_is_left_goes_back(queue: &mut ShieldQueue, pass: QueuePass)
    requires
        call_ensures(ShieldQueue::put_back, (queue, pass), ()),
    ensures
        final(queue)@ == old(queue)@ + pass.remaining(),
{
}

/// The delay after a failure is decided by what the error says: where funds are missing it is the
/// longest delay of the window and 150 minutes more, where the backend lacks a transaction the
/// shortest but at least 30 minutes, and otherwise the one that was drawn.
pub proof fn the_error_decides_the_retry(
    rules: QueueRules,
    err_text: &str,
    fresh_delay: u64,
    seconds: u64,
)
    requires
        call_ensures(QueueRules::retry_delay, (&rules, err_text, fresh_delay), seconds),
    ensures
        ({
            let funds = holds_text(err_text@, "InsufficientFunds"@);
            let backend = holds_text(err_text@, "No such mempool or main chain transaction"@);
            &&& funds && rules.delay.max_minutes + 150 <= u32::MAX ==> seconds == (
            rules.delay.max_minutes + 150) * 60
            &&& funds && rules.delay.max_minutes + 150 > u32::MAX ==> seconds == u32::MAX * 60
            &&& !funds && backend && rules.delay.min_minutes <= 30 ==> seconds == 1_800
            &&& !funds && backend && rules.delay.min_minutes >= 30 ==> seconds
                == rules.delay.min_minutes * 60
            &&& !funds && !backend ==> seconds == fresh_delay
        }),
{
    if holds_text(err_text@, "InsufficientFunds"@) {
        let (before, behind) = choose|before: Seq<char>, behind: Seq<char>|
            err_text@ == #[trigger] (before + "InsufficientFunds"@ + behind);
        missing_funds_wait_for_maturity(rules, before, behind, fresh_delay);
    } else {
        a_text_occurs_in_what_surrounds_it(
            err_text@,
            "InsufficientFunds"@,
            err_text@,
            err_text@,
        );
        if holds_text(err_text@, "No such mempool or main chain transaction"@) {
            let (before, behind) = choose|before: Seq<char>, behind: Seq<char>|
                err_text@ == #[trigger] (before + "No such mempool or main chain transaction"@
                    + behind);
            missing_transactions_wait_for_the_backend(rules, before, behind, fresh_delay);
        } else {
            other_errors_wait_for_a_fresh_delay(rules, err_text@, fresh_delay);
        }
    }
}

/// An error says that funds are missing exactly if it holds the name of that error somewhere.
pub proof fn missing_funds_are_recognised(err_text: &str, result: bool)
    requires
        call_ensures(is_missing_funds, (err_text,), result),
    ensures
        result <==> holds_text(err_text@, "InsufficientFunds"@),
{
    a_text_occurs_in_what_surrounds_it(
        err_text@,
        "InsufficientFunds"@,
        err_text@,
        err_text@,
    );
    if holds_text(err_text@, "InsufficientFunds"@) {
        let (before, behind) = choose|before: Seq<char>, behind: Seq<char>|
            err_text@ == #[trigger] (before + "InsufficientFunds"@ + behind);
        a_text_occurs_in_what_surrounds_it(before, "InsufficientFunds"@, behind, err_text@);
    }
}

/// An entry that failed comes to the end of the queue as it was, to run when the retry is due.
pub proof fn a_failed_entry_goes_to_the_end(
    queue: &mut ShieldQueue,
    entry: QueuedShield,
    err_text: &str,
    rules: QueueRules,
    now: u64,
    fresh_delay: u64,
    seconds: u64,
    execute_after: u64,
)
    requires
        now + rules.retry_secs(err_text@, fresh_delay) <= u64::MAX,
        call_ensures(QueueRules::retry_delay, (&rules, err_text, fresh_delay), seconds),
        call_ensures(
            ShieldQueue::reschedule,
            (queue, entry, err_text, &rules, now, fresh_delay),
            execute_after,
        ),
    ensures
        execute_after == now + seconds,
        final(queue)@ == old(queue)@.push(QueuedModel { execute_after, ..entry@ }),
{
}

/// A time can be scheduled from exactly if the longest wait from it ends within 64 bits.
pub proof fn times_in_reach_can_be_scheduled_from(rules: QueueRules, now: u64, result: bool)
    requires
        call_ensures(QueueRules::can_schedule, (&rules, now), result),
    ensures
        rules.delay.max_minutes + 150 <= u32::MAX ==> (result <==> now + (rules.delay.max_minutes
            + 150) * 60 <= u64::MAX),
        rules.delay.max_minutes + 150 > u32::MAX ==> (result <==> now + u32::MAX * 60
            <= u64::MAX),
{
}

/// What ran is logged behind what was logged before, with its transactions and its time.
pub proof fn what_ran_is_logged(
    log: &mut RewardLog,
    entry: QueuedShield,
    txids: Vec<String>,
    executed_at: u64,
)
    requires
        call_ensures(RewardLog::record, (log, entry, txids, executed_at), ()),
    ensures
        is_logged_behind(old(log)@, final(log)@, entry, txids, executed_at),
{
}

/// A height is found in a queue or a log exactly if an entry there has it.
pub proof fn heights_are_found_with_their_entries(
    queue: ShieldQueue,
    log: RewardLog,
    height: u32,
    queued: bool,
    logged: bool,
)
    requires
        call_ensures(ShieldQueue::contains_height, (&queue, height), queued),
        call_ensures(RewardLog::contains_height, (&log, height), logged),
    ensures
        queued <==> exists|i: int|
            0 <= i < queue.pending@.len() && (#[trigger] queue.pending@[i]).height == height,
        logged <==> exists|i: int|
            0 <= i < log.entries@.len() && (#[trigger] log.entries@[i]).height == height,
{
    if queued {
        let i = choose|i: int| 0 <= i < queue@.len() && (#[trigger] queue@[i]).height == height;
        assert(queue.pending@[i].height == height);
    }
    if exists|i: int|
        0 <= i < queue.pending@.len() && (#[trigger] queue.pending@[i]).height == height {
        let i = choose|i: int|
            0 <= i < queue.pending@.len() && (#[trigger] queue.pending@[i]).height == height;
        assert(queue@[i].height == height);
    }
    if logged {
        let i = choose|i: int| 0 <= i < log@.len() && (#[trigger] log@[i]).height == height;
        assert(log.entries@[i].height == height);
    }
    if exists|i: int| 0 <= i < log.entries@.len() && (#[trigger] log.entries@[i]).height == height {
        let i = choose|i: int|
            0 <= i < log.entries@.len() && (#[trigger] log.entries@[i]).height == height;
        assert(log@[i].height == height);
    }
}

/// The heights to track are those in the queue, each once.
pub proof fn the_queued_heights_are_tracked(queue: ShieldQueue, watched: Vec<u32>, i: int)
    requires
        call_ensures(ShieldQueue::heights_to_track, (&queue,), watched),
    ensures
        0 <= i < queue.pending@.len() ==> watched@.contains(queue.pending@[i].height),
        watched@.no_duplicates(),
        0 <= i < watched@.len() ==> exists|k: int|
            0 <= k < queue.pending@.len() && (#[trigger] queue.pending@[k]).height == watched@[i],
{
    tracked_heights_are_distinct(queue@);
    if 0 <= i < queue.pending@.len() {
        tracked_heights_are_the_queued(queue@, queue.pending@[i].height);
        assert(queue@[i].height == queue.pending@[i].height);
    }
    if 0 <= i < watched@.len() {
        let height = watched@[i];
        assert(watched@.contains(height));
        tracked_heights_are_the_queued(queue@, height);
        let k = choose|k: int| 0 <= k < queue@.len() && (#[trigger] queue@[k]).height == height;
        assert(queue.pending@[k].height == height);
    }
}

/// A timestamp is the seconds that have passed, and zero where the clock is before the start.
pub proof fn timestamps_are_the_seconds_that_passed(elapsed_secs: Option<u64>, timestamp: u64)
    requires
        call_ensures(timestamp_of, (elapsed_secs,), timestamp),
    ensures
        elapsed_secs matches Some(seconds) ==> timestamp == seconds,
        elapsed_secs is None ==> timestamp == 0,
{
}

} // verus!
