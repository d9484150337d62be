//! What holds of the daemon's decisions, in terms of what it knows and what it is told.
use vstd::prelude::*;

use crate::auto_shield::config::AutoShieldConfig;
use crate::auto_shield::node::{paid_value, BlockResult};
use crate::auto_shield::queue::{QueuePass, QueueRules, QueueState, QueueStep};
use crate::auto_shield::queue_laws::{due_entries_have_come, heights, logged_heights};
use crate::auto_shield::queue_step_laws::{
    a_time_in_reach_has_room_for_every_retry, delays_are_whole_minutes_of_the_window,
    missing_funds_wait_for_maturity, missing_transactions_wait_for_the_backend,
    other_errors_wait_for_a_fresh_delay, what_a_step_leaves, what_becomes_of_the_next_entry,
};
use crate::auto_shield::runner::{
    begin_pass, send_receiver, shield_restriction, AutoShieldRunner, BlockFinding, PassAction,
    ScanPlan,
};
use crate::auto_shield::runner_laws::{the_plan_is_in_order, the_plan_is_what_is_missing};
use crate::auto_shield::runner_step_laws::{
    a_payment_is_what_its_entry_says, names, what_a_block_means, what_a_pass_does_next,
};
use crate::auto_shield::state::{
    texts, ProcessedBlocks, QueuedModel, QueuedShield, RewardLog, RewardModel, ShieldQueue,
};
use crate::payments::{decoded_address, ConversionError, Receiver};
use crate::restrictions::{TransparentAddressRestriction, TransparentScope};
use crate::text_laws::a_text_occurs_in_what_surrounds_it;

verus! {

/// Whether nothing but the queue of shields differs between two states of the daemon.
pub open spec fn only_queue_differs(one: AutoShieldRunner, other: AutoShieldRunner) -> bool {
    &&& one.config == other.config
    &&& one.processed == other.processed
    &&& one.rewards == other.rewards
    &&& one.sends == other.sends
    &&& one.send_queue == other.send_queue
    &&& one.needs_reward_rescan == other.needs_reward_rescan
}

/// Whether nothing but the queue of payments differs between two states of the daemon.
pub open spec fn only_send_queue_differs(one: AutoShieldRunner, other: AutoShieldRunner) -> bool {
    &&& one.config == other.config
    &&& one.processed == other.processed
    &&& one.rewards == other.rewards
    &&& one.sends == other.sends
    &&& one.queue == other.queue
    &&& one.needs_reward_rescan == other.needs_reward_rescan
}

/// Whether a time lies a delay of the window behind `now`: whole minutes, between the ends.
pub open spec fn is_delayed(min_minutes: u32, max_minutes: u32, now: u64, time: u64) -> bool {
    &&& now + min_minutes * 60 <= time <= now + max_minutes * 60
    &&& (time - now) % 60 == 0
}

/// The daemon starts with what it is given, but for the mnemonic phrase, and owes no rescan.
pub proof fn the_daemon_starts_with_what_it_remembers(
    config: AutoShieldConfig,
    processed: ProcessedBlocks,
    rewards: RewardLog,
    queue: ShieldQueue,
    sends: RewardLog,
    send_queue: ShieldQueue,
    runner: AutoShieldRunner,
)
    requires
        call_ensures(
            AutoShieldRunner::initialize,
            (config, processed, rewards, queue, sends, send_queue),
            runner,
        ),
    ensures
        runner.config.mnemonic is None,
        runner.config.birthday == config.birthday,
        runner.config.start_height == config.start_height,
        runner.config.confirmations == config.confirmations,
        runner.config.delay == config.delay,
        runner.config.reschedule_grace_secs == config.reschedule_grace_secs,
        runner.config.poll_interval_secs == config.poll_interval_secs,
        runner.config.wallet_min_confirmations == config.wallet_min_confirmations,
        runner.config.post_shield_send == config.post_shield_send,
        runner.config.paths == config.paths,
        runner.processed == processed,
        runner.rewards == rewards,
        runner.queue == queue,
        runner.sends == sends,
        runner.send_queue == send_queue,
        !runner.needs_reward_rescan,
{
}

/// The wallet scans again at the start exactly if a reward waits in the queue.
pub proof fn a_full_queue_asks_for_a_rescan(runner: AutoShieldRunner, result: bool)
    requires
        call_ensures(AutoShieldRunner::needs_startup_rescan, (&runner,), result),
    ensures
        result <==> runner.queue.pending@.len() > 0,
{
    assert(runner.queue@.len() == runner.queue.pending@.len());
}

/// The next height is the first from the configured start on that was not looked at.
pub proof fn the_next_height_is_the_first_missing(runner: AutoShieldRunner, height: u32)
    requires
        call_ensures(AutoShieldRunner::next_height, (&runner,), Some(height)),
    ensures
        runner.config.start_height <= height,
        !runner.processed.blocks@.contains(height),
        forall|earlier: u32|
            runner.config.start_height <= earlier < height
                ==> #[trigger] runner.processed.blocks@.contains(earlier),
{
    assert forall|earlier: u32| runner.config.start_height <= earlier < height implies
        #[trigger] runner.processed.blocks@.contains(earlier) by {
        assert(runner.processed@.contains(earlier));
    }
}

/// A pass plans exactly the blocks that are not below the configured start, have the configured
/// confirmations and were not looked at, in the order of their heights.
pub proof fn a_pass_plans_what_is_missing(
    runner: AutoShieldRunner,
    tip_height: u32,
    chosen: ScanPlan,
    height: u32,
    i: int,
    j: int,
)
    requires
        runner.config.confirmations >= 1,
        call_ensures(AutoShieldRunner::scan_plan, (&runner, tip_height), chosen),
    ensures
        chosen@.blocks().contains(height) <==> {
            &&& runner.config.start_height <= height
            &&& !runner.processed.blocks@.contains(height)
            &&& tip_height - height + 1 >= runner.config.confirmations
        },
        0 <= i < j < chosen@.blocks().len() ==> chosen@.blocks()[i] < chosen@.blocks()[j],
        chosen is BelowStart <==> tip_height < runner.config.start_height,
        chosen is Unconfirmed <==> tip_height >= runner.config.start_height && tip_height + 1
            < runner.config.confirmations,
        chosen matches ScanPlan::Scan(scan) ==> scan.target + runner.config.confirmations
            == tip_height + 1,
{
    let start = runner.config.start_height;
    let confirmations = runner.config.confirmations;
    the_plan_is_what_is_missing(start, confirmations, runner.processed@, tip_height, height);
    if 0 <= i < j < chosen@.blocks().len() {
        the_plan_is_in_order(start, confirmations, runner.processed@, tip_height, i, j);
    }
    assert(chosen is BelowStart <==> chosen@ is BelowStart);
    assert(chosen is Unconfirmed <==> chosen@ is Unconfirmed);
}

/// A pass begins with a question for the tip, unless the daemon stops.
pub proof fn a_pass_begins_unless_the_daemon_stops(shutdown: bool, action: PassAction)
    requires
        call_ensures(begin_pass, (shutdown,), action),
    ensures
        action == PassAction::FetchTip || action == PassAction::Finished,
        action == PassAction::Finished <==> shutdown,
{
}

/// Once the tip is known, the pass goes on with the first block of the plan, and leaves the rest
/// of it.
pub proof fn a_pass_goes_on_with_its_first_block(
    runner: AutoShieldRunner,
    tip_height: u32,
    chosen: ScanPlan,
    begun: (PassAction, ScanPlan),
)
    requires
        runner.config.confirmations >= 1,
        call_ensures(AutoShieldRunner::scan_plan, (&runner, tip_height), chosen),
        call_ensures(AutoShieldRunner::process_blocks, (&runner, tip_height, false), begun),
    ensures
        chosen is BelowStart || chosen is Unconfirmed ==> begun.0 == PassAction::Finished,
        chosen@.blocks().len() > 0 ==> begun.0 == (PassAction::ProcessHeight {
            height: chosen@.blocks()[0],
        }) && chosen@.blocks() == seq![chosen@.blocks()[0]] + begun.1@.blocks(),
        chosen is Scan && chosen@.blocks().len() == 0 ==> begun.0 == (
        if runner.needs_reward_rescan {
            PassAction::Rescan
        } else {
            PassAction::ProcessQueue
        }),
{
    what_a_pass_does_next(chosen@, runner.needs_reward_rescan);
    assert(chosen is BelowStart <==> chosen@ is BelowStart);
    assert(chosen is Unconfirmed <==> chosen@ is Unconfirmed);
}

/// A block is followed by the next one of the plan, and the last by a rescan where one is due or
/// else by the queue. A daemon that stops ends the pass.
pub proof fn blocks_follow_each_other(
    runner: AutoShieldRunner,
    chosen: &mut ScanPlan,
    shutdown: bool,
    action: PassAction,
)
    requires
        call_ensures(AutoShieldRunner::after_height, (&runner, chosen, shutdown), action),
    ensures
        shutdown ==> action == PassAction::Finished && final(chosen)@ == old(chosen)@,
        !shutdown && old(chosen)@.blocks().len() > 0 ==> action == (PassAction::ProcessHeight {
            height: old(chosen)@.blocks()[0],
        }) && old(chosen)@.blocks() == seq![old(chosen)@.blocks()[0]] + final(chosen)@.blocks(),
        !shutdown && old(chosen)@ is Scan && old(chosen)@.blocks().len() == 0 ==> action == (
        if runner.needs_reward_rescan {
            PassAction::Rescan
        } else {
            PassAction::ProcessQueue
        }),
{
    what_a_pass_does_next(old(chosen)@, runner.needs_reward_rescan);
}

/// A rescan is owed no longer once it was made, and the queue follows.
pub proof fn a_rescan_is_made_once(
    runner: &mut AutoShieldRunner,
    shutdown: bool,
    action: PassAction,
)
    requires
        call_ensures(AutoShieldRunner::after_rescan, (runner, shutdown), action),
    ensures
        !final(runner).needs_reward_rescan,
        final(runner).config == old(runner).config,
        final(runner).processed == old(runner).processed,
        final(runner).rewards == old(runner).rewards,
        final(runner).queue == old(runner).queue,
        final(runner).sends == old(runner).sends,
        final(runner).send_queue == old(runner).send_queue,
        action == (if shutdown {
            PassAction::Finished
        } else {
            PassAction::ProcessQueue
        }),
{
}

/// A rescan is owed from the first new index on, and stays owed.
pub proof fn a_new_index_asks_for_a_rescan(runner: &mut AutoShieldRunner, tracked_new_index: bool)
    requires
        call_ensures(AutoShieldRunner::note_tracked_index, (runner, tracked_new_index), ()),
    ensures
        final(runner).needs_reward_rescan <==> old(runner).needs_reward_rescan
            || tracked_new_index,
        final(runner).config == old(runner).config,
        final(runner).processed == old(runner).processed,
        final(runner).rewards == old(runner).rewards,
        final(runner).queue == old(runner).queue,
        final(runner).sends == old(runner).sends,
        final(runner).send_queue == old(runner).send_queue,
{
}

/// A block that was looked at is remembered, behind those that were before.
pub proof fn blocks_are_remembered(runner: &mut AutoShieldRunner, height: u32)
    requires
        call_ensures(AutoShieldRunner::mark_processed, (runner, height), ()),
    ensures
        final(runner).processed.blocks@ == old(runner).processed.blocks@.push(height),
        final(runner).config == old(runner).config,
        final(runner).rewards == old(runner).rewards,
        final(runner).queue == old(runner).queue,
        final(runner).sends == old(runner).sends,
        final(runner).send_queue == old(runner).send_queue,
        final(runner).needs_reward_rescan == old(runner).needs_reward_rescan,
{
}

/// A block means nothing unless an output of its first transaction names the wallet's address.
/// Otherwise it is shielded already where its height is in the log, else queued already where its
/// height is in the queue, and else it is new.
pub proof fn a_block_means_what_its_coinbase_pays(
    runner: AutoShieldRunner,
    height: u32,
    address: &str,
    block: BlockResult,
    found: BlockFinding,
)
    requires
        call_ensures(AutoShieldRunner::process_height, (&runner, height, address, &block), found),
    ensures
        ({
            let paid = names(block.coinbase_outputs(), address@);
            let shielded = exists|i: int|
                0 <= i < runner.rewards.entries@.len() && (
                #[trigger] runner.rewards.entries@[i]).height == height;
            let waiting = exists|i: int|
                0 <= i < runner.queue.pending@.len() && (#[trigger] runner.queue.pending@[i]).height
                    == height;
            &&& found == BlockFinding::NoReward <==> !paid
            &&& found == BlockFinding::AlreadyShielded <==> paid && shielded
            &&& found == BlockFinding::AlreadyQueued <==> paid && !shielded && waiting
            &&& found is Reward || found is ValueOverflow <==> paid && !shielded && !waiting
            &&& found matches BlockFinding::Reward { value_zat } ==> value_zat
                == paid_value(block.coinbase_outputs(), address@)
        }),
{
    let outputs = block.coinbase_outputs();
    what_a_block_means(outputs, address@, height, runner.rewards@, runner.queue@);
    let log = logged_heights(runner.rewards@);
    let queue = heights(runner.queue@);
    assert forall|i: int| 0 <= i < log.len() implies #[trigger] log[i]
        == runner.rewards.entries@[i].height by {}
    assert forall|i: int| 0 <= i < queue.len() implies #[trigger] queue[i]
        == runner.queue.pending@[i].height by {}
    if exists|i: int|
        0 <= i < runner.rewards.entries@.len() && (#[trigger] runner.rewards.entries@[i]).height
            == height {
        let i = choose|i: int|
            0 <= i < runner.rewards.entries@.len() && (
            #[trigger] runner.rewards.entries@[i]).height == height;
        assert(log[i] == height);
    }
    if exists|i: int|
        0 <= i < runner.queue.pending@.len() && (#[trigger] runner.queue.pending@[i]).height
            == height {
        let i = choose|i: int|
            0 <= i < runner.queue.pending@.len() && (#[trigger] runner.queue.pending@[i]).height
                == height;
        assert(queue[i] == height);
    }
    if log.contains(height) {
        let i = choose|i: int| 0 <= i < log.len() && log[i] == height;
        assert(runner.rewards.entries@[i].height == height);
    }
    if queue.contains(height) {
        let i = choose|i: int| 0 <= i < queue.len() && queue[i] == height;
        assert(runner.queue.pending@[i].height == height);
    }
}

/// A shield may spend from the external address with the given index of the first account, and
/// from no other.
pub proof fn a_shield_spends_from_one_address(
    index: u32,
    other: u32,
    restriction: TransparentAddressRestriction,
)
    requires
        call_ensures(shield_restriction, (index,), restriction),
    ensures
        restriction.account.index == 0,
        restriction.scope == TransparentScope::External,
        restriction.admits(other) <==> other == index,
{
}

/// A reward comes to the end of the queue as it was found, to run after a delay out of the
/// configured window.
pub proof fn rewards_are_scheduled_as_found(
    runner: &mut AutoShieldRunner,
    height: u32,
    block_hash: &str,
    address: &str,
    value_zat: i64,
    now: u64,
    execute_after: u64,
)
    requires
        now + old(runner).config.delay.max_minutes * 60 <= u64::MAX,
        call_ensures(
            AutoShieldRunner::schedule_shield,
            (runner, height, block_hash, address, value_zat, now),
            execute_after,
        ),
    ensures
        only_queue_differs(*old(runner), *final(runner)),
        ({
            let entry = final(runner).queue@.last();
            &&& final(runner).queue@ == old(runner).queue@.push(entry)
            &&& entry.height == height
            &&& entry.block_hash == block_hash@
            &&& entry.address == address@
            &&& entry.value_zat == value_zat
            &&& entry.scheduled_at == now
            &&& entry.execute_after == execute_after
        }),
        is_delayed(
            old(runner).config.delay.min_minutes,
            old(runner).config.delay.max_minutes,
            now,
            execute_after,
        ),
{
    assert forall|delay: u64| #[trigger] old(runner).config.delay.holds(delay) implies delay % 60
        == 0 && old(runner).config.delay.min_minutes * 60 <= delay
        <= old(runner).config.delay.max_minutes * 60 by {
        delays_are_whole_minutes_of_the_window(old(runner).config.delay, delay);
    }
}

/// The rules of the queues have the configured grace period, and each its own configured window.
/// There are none for payments where none are configured.
pub proof fn the_rules_are_the_configured_ones(
    runner: AutoShieldRunner,
    shields: QueueRules,
    payments: Option<QueueRules>,
)
    requires
        call_ensures(AutoShieldRunner::rules, (&runner,), shields),
        call_ensures(AutoShieldRunner::send_rules, (&runner,), payments),
    ensures
        shields.grace_secs == runner.config.reschedule_grace_secs,
        shields.delay == runner.config.delay,
        payments is Some <==> runner.config.post_shield_send is Some,
        payments matches Some(rules) ==> rules.grace_secs == runner.config.reschedule_grace_secs,
        payments matches Some(rules) ==> rules.delay == runner.config.post_shield_send->0.delay,
{
}

/// A pass over the queue of shields begins unless the queue is empty or the daemon stops, with
/// the entries whose time has come.
pub proof fn a_pass_over_the_shields_begins(
    runner: &mut AutoShieldRunner,
    now: u64,
    shutdown: bool,
    begun: Option<QueuePass>,
    entry: QueuedModel,
)
    requires
        call_ensures(AutoShieldRunner::process_queue, (runner, now, shutdown), begun),
    ensures
        begun is Some <==> !shutdown && old(runner).queue@.len() > 0,
        only_queue_differs(*old(runner), *final(runner)),
        begun matches Some(pass) ==> {
            &&& pass.now == now
            &&& old(runner).queue@.contains(entry) ==> {
                &&& pass.remaining().contains(entry) <==> entry.execute_after <= now
                &&& final(runner).queue@.contains(entry) <==> entry.execute_after > now
            }
        },
        begun is None ==> final(runner).queue == old(runner).queue,
{
    if old(runner).queue@.contains(entry) {
        due_entries_have_come(old(runner).queue@, now, entry);
    }
}

/// A pass over the queue of payments begins unless the queue is empty or the daemon stops, with
/// the entries whose time has come.
pub proof fn a_pass_over_the_payments_begins(
    runner: &mut AutoShieldRunner,
    now: u64,
    shutdown: bool,
    begun: Option<QueuePass>,
    entry: QueuedModel,
)
    requires
        call_ensures(AutoShieldRunner::process_sends, (runner, now, shutdown), begun),
    ensures
        begun is Some <==> !shutdown && old(runner).send_queue@.len() > 0,
        only_send_queue_differs(*old(runner), *final(runner)),
        begun matches Some(pass) ==> {
            &&& pass.now == now
            &&& old(runner).send_queue@.contains(entry) ==> {
                &&& pass.remaining().contains(entry) <==> entry.execute_after <= now
                &&& final(runner).send_queue@.contains(entry) <==> entry.execute_after > now
            }
        },
        begun is None ==> final(runner).send_queue == old(runner).send_queue,
{
    if old(runner).send_queue@.contains(entry) {
        due_entries_have_come(old(runner).send_queue@, now, entry);
    }
}

/// The next shield of a pass runs exactly if the log does not have its height and it is not
/// overdue for longer than the configured grace period. One that is overdue for longer goes to the
/// end of the queue, to run after a delay out of the configured window. One that the log has is
/// dropped. Where the daemon stops, all that are left go back.
pub proof fn the_next_shield_has_its_turn(
    runner: &mut AutoShieldRunner,
    pass: &mut QueuePass,
    shutdown: bool,
    step: QueueStep,
)
    requires
        old(pass).remaining().len() > 0,
        old(pass).remaining()[0].execute_after <= old(pass).now,
        old(runner).config.wf(),
        old(runner).shield_rules().reaches(old(pass).now),
        call_ensures(AutoShieldRunner::next_shield, (runner, pass, shutdown), step),
    ensures
        only_queue_differs(*old(runner), *final(runner)),
        final(pass).now == old(pass).now,
        ({
            let next = old(pass).remaining()[0];
            let overdue = old(pass).now - next.execute_after;
            let logged = logged_heights(old(runner).rewards@).contains(next.height);
            let is_late = overdue > old(runner).config.reschedule_grace_secs;
            &&& step is Interrupted <==> shutdown
            &&& step is Satisfied <==> !shutdown && logged
            &&& step is Postponed <==> !shutdown && !logged && is_late
            &&& step is Execute <==> !shutdown && !logged && !is_late
            &&& step matches QueueStep::Execute(entry) ==> entry@ == next
            &&& step is Interrupted ==> final(runner).queue@ == old(runner).queue@
                + old(pass).remaining() && final(pass).remaining().len() == 0
            &&& !(step is Interrupted) ==> old(pass).remaining() == seq![next]
                + final(pass).remaining()
            &&& step is Execute || step is Satisfied ==> final(runner).queue@ == old(runner).queue@
            &&& step matches QueueStep::Postponed { execute_after, .. } ==> {
                &&& final(runner).queue@ == old(runner).queue@.push(
                    QueuedModel { execute_after, ..next },
                )
                &&& is_delayed(
                    old(runner).config.delay.min_minutes,
                    old(runner).config.delay.max_minutes,
                    old(pass).now,
                    execute_after,
                )
            }
        }),
{
    let now = old(pass).now;
    let rules = old(runner).shield_rules();
    let state = QueueState {
        pending: old(runner).queue@,
        due: old(pass).remaining(),
        log: old(runner).rewards@,
    };
    let delay = choose|delay: u64| #[trigger]
        old(runner).config.delay.holds(delay) && step@ == state.step(rules, now, shutdown, delay)
            && (QueueState {
            pending: final(runner).queue@,
            due: final(pass).remaining(),
            log: old(runner).rewards@,
        }) == state.behind(step@);
    assert(old(runner).config.delay.holds(delay));
    delays_are_whole_minutes_of_the_window(old(runner).config.delay, delay);
    what_becomes_of_the_next_entry(state, rules, now, shutdown, delay);
    what_a_step_leaves(state, step@);
    assert(old(pass).remaining() == seq![state.due[0]] + state.due.drop_first());
}

/// The next payment of a pass runs exactly if the log of payments does not have its height and it
/// is not overdue for longer than the configured grace period, which is that of the shields. One
/// that is overdue for longer goes to the end of the queue, to run after a delay out of the window
/// that is configured for payments. One that the log has is dropped. Where the daemon stops, all
/// that are left go back.
pub proof fn the_next_payment_has_its_turn(
    runner: &mut AutoShieldRunner,
    pass: &mut QueuePass,
    shutdown: bool,
    step: QueueStep,
)
    requires
        old(pass).remaining().len() > 0,
        old(pass).remaining()[0].execute_after <= old(pass).now,
        old(runner).config.wf(),
        old(runner).config.post_shield_send is Some,
        old(runner).payment_rules().reaches(old(pass).now),
        call_ensures(AutoShieldRunner::next_send, (runner, pass, shutdown), step),
    ensures
        only_send_queue_differs(*old(runner), *final(runner)),
        final(pass).now == old(pass).now,
        ({
            let next = old(pass).remaining()[0];
            let overdue = old(pass).now - next.execute_after;
            let logged = logged_heights(old(runner).sends@).contains(next.height);
            let is_late = overdue > old(runner).config.reschedule_grace_secs;
            let window = old(runner).config.post_shield_send->0.delay;
            &&& step is Interrupted <==> shutdown
            &&& step is Satisfied <==> !shutdown && logged
            &&& step is Postponed <==> !shutdown && !logged && is_late
            &&& step is Execute <==> !shutdown && !logged && !is_late
            &&& step matches QueueStep::Execute(entry) ==> entry@ == next
            &&& step is Interrupted ==> final(runner).send_queue@ == old(runner).send_queue@
                + old(pass).remaining() && final(pass).remaining().len() == 0
            &&& !(step is Interrupted) ==> old(pass).remaining() == seq![next]
                + final(pass).remaining()
            &&& step is Execute || step is Satisfied ==> final(runner).send_queue@
                == old(runner).send_queue@
            &&& step matches QueueStep::Postponed { execute_after, .. } ==> {
                &&& final(runner).send_queue@ == old(runner).send_queue@.push(
                    QueuedModel { execute_after, ..next },
                )
                &&& is_delayed(
                    window.min_minutes,
                    window.max_minutes,
                    old(pass).now,
                    execute_after,
                )
            }
        }),
{
    let now = old(pass).now;
    let rules = old(runner).payment_rules();
    let state = QueueState {
        pending: old(runner).send_queue@,
        due: old(pass).remaining(),
        log: old(runner).sends@,
    };
    let delay = choose|delay: u64| #[trigger]
        rules.delay.holds(delay) && step@ == state.step(rules, now, shutdown, delay) && (
        QueueState {
            pending: final(runner).send_queue@,
            due: final(pass).remaining(),
            log: old(runner).sends@,
        }) == state.behind(step@);
    assert(rules.delay.holds(delay));
    delays_are_whole_minutes_of_the_window(rules.delay, delay);
    what_becomes_of_the_next_entry(state, rules, now, shutdown, delay);
    what_a_step_leaves(state, step@);
    assert(old(pass).remaining() == seq![state.due[0]] + state.due.drop_first());
}

/// What is left of a pass that ends early goes behind the queue that it was taken from, in its
/// order.
pub proof fn an_abandoned_pass_goes_back(runner: &mut AutoShieldRunner, pass: QueuePass)
    requires
        call_ensures(AutoShieldRunner::abandon_pass, (runner, pass), ()),
    ensures
        only_queue_differs(*old(runner), *final(runner)),
        final(runner).queue@ == old(runner).queue@ + pass.remaining(),
{
}

/// What is left of a pass over the payments that ends early goes behind their queue, in its order.
pub proof fn an_abandoned_pass_over_payments_goes_back(
    runner: &mut AutoShieldRunner,
    pass: QueuePass,
)
    requires
        call_ensures(AutoShieldRunner::abandon_sends, (runner, pass), ()),
    ensures
        only_send_queue_differs(*old(runner), *final(runner)),
        final(runner).send_queue@ == old(runner).send_queue@ + pass.remaining(),
{
}

/// Whether a log holds what it held, and behind it what is logged of `entry`.
pub open spec fn is_logged_behind(
    before: Seq<RewardModel>,
    after: Seq<RewardModel>,
    entry: QueuedShield,
    txids: Vec<String>,
    executed_at: u64,
) -> bool {
    let last = after.last();
    &&& after == before.push(last)
    &&& last.height == entry.height
    &&& last.block_hash == entry.block_hash@
    &&& last.address == entry.address@
    &&& last.value_zat == entry.value_zat
    &&& last.txids == texts(txids@)
    &&& last.scheduled_at == Some(entry.scheduled_at)
    &&& last.executed_at == Some(executed_at)
}

/// A shield that succeeded is logged with its transactions and its time. A payment of 6.25 coins
/// to the configured address follows it, after a delay out of the window for payments, where
/// payments are configured, and none otherwise.
pub proof fn a_shield_is_logged_and_followed_by_a_payment(
    runner: &mut AutoShieldRunner,
    entry: QueuedShield,
    txids: Vec<String>,
    executed_at: u64,
)
    requires
        old(runner).config.post_shield_send matches Some(send) ==> executed_at
            + send.delay.max_minutes * 60 <= u64::MAX,
        call_ensures(AutoShieldRunner::shield_succeeded, (runner, entry, txids, executed_at), ()),
    ensures
        is_logged_behind(
            old(runner).rewards@,
            final(runner).rewards@,
            entry,
            txids,
            executed_at,
        ),
        final(runner).config == old(runner).config,
        final(runner).processed == old(runner).processed,
        final(runner).queue == old(runner).queue,
        final(runner).sends == old(runner).sends,
        final(runner).needs_reward_rescan == old(runner).needs_reward_rescan,
        old(runner).config.post_shield_send is None ==> final(runner).send_queue
            == old(runner).send_queue,
        old(runner).config.post_shield_send matches Some(send) ==> {
            let payment = final(runner).send_queue@.last();
            &&& final(runner).send_queue@ == old(runner).send_queue@.push(payment)
            &&& payment.height == entry.height
            &&& payment.block_hash == entry.block_hash@
            &&& payment.address == send.address@
            &&& payment.value_zat == 625_000_000
            &&& payment.scheduled_at == executed_at
            &&& is_delayed(
                send.delay.min_minutes,
                send.delay.max_minutes,
                executed_at,
                payment.execute_after,
            )
        },
{
    if let Some(send) = old(runner).config.post_shield_send {
        assert forall|delay: u64| #[trigger] send.delay.holds(delay) implies delay % 60 == 0
            && send.delay.min_minutes * 60 <= delay <= send.delay.max_minutes * 60 by {
            delays_are_whole_minutes_of_the_window(send.delay, delay);
        }
    }
}

/// A payment that succeeded is logged with its transactions and its time.
pub proof fn a_payment_is_logged(
    runner: &mut AutoShieldRunner,
    entry: QueuedShield,
    txids: Vec<String>,
    executed_at: u64,
)
    requires
        call_ensures(AutoShieldRunner::send_succeeded, (runner, entry, txids, executed_at), ()),
    ensures
        is_logged_behind(old(runner).sends@, final(runner).sends@, entry, txids, executed_at),
        final(runner).config == old(runner).config,
        final(runner).processed == old(runner).processed,
        final(runner).rewards == old(runner).rewards,
        final(runner).queue == old(runner).queue,
        final(runner).send_queue == old(runner).send_queue,
        final(runner).needs_reward_rescan == old(runner).needs_reward_rescan,
{
}

/// Whether a text holds `part` somewhere.
pub open spec fn holds_text(text: Seq<char>, part: Seq<char>) -> bool {
    exists|before: Seq<char>, behind: Seq<char>| text == #[trigger] (before + part + behind)
}

/// Whether `time` is when an entry that failed at `now` with `err_text` runs again, where its
/// delays are of the given window: the longest delay and 150 minutes more where funds are missing,
/// the shortest delay but at least 30 minutes where the backend lacks a transaction, and any delay
/// of the window otherwise.
pub open spec fn is_retried_at(
    min_minutes: u32,
    max_minutes: u32,
    err_text: Seq<char>,
    now: u64,
    time: u64,
) -> bool {
    if holds_text(err_text, "InsufficientFunds"@) {
        &&& max_minutes + 150 <= u32::MAX ==> time == now + (max_minutes + 150) * 60
        &&& max_minutes + 150 > u32::MAX ==> time == now + u32::MAX * 60
    } else if holds_text(err_text, "No such mempool or main chain transaction"@) {
        &&& min_minutes <= 30 ==> time == now + 1_800
        &&& min_minutes >= 30 ==> time == now + min_minutes * 60
    } else {
        is_delayed(min_minutes, max_minutes, now, time)
    }
}

proof fn retries_are_in_time(rules: QueueRules, err_text: Seq<char>, now: u64, delay: u64)
    requires
        rules.wf(),
        rules.reaches(now),
        rules.delay.holds(delay),
    ensures
        now + rules.retry_secs(err_text, delay) <= u64::MAX,
        is_retried_at(
            rules.delay.min_minutes,
            rules.delay.max_minutes,
            err_text,
            now,
            (now + rules.retry_secs(err_text, delay)) as u64,
        ),
{
    delays_are_whole_minutes_of_the_window(rules.delay, delay);
    a_time_in_reach_has_room_for_every_retry(
        rules,
        now,
        err_text,
        delay,
    );
    if holds_text(err_text, "InsufficientFunds"@) {
        let (before, behind) = choose|before: Seq<char>, behind: Seq<char>|
            err_text == #[trigger] (before + "InsufficientFunds"@ + behind);
        missing_funds_wait_for_maturity(rules, before, behind, delay);
    } else {
        a_text_occurs_in_what_surrounds_it(
            err_text,
            "InsufficientFunds"@,
            err_text,
            err_text,
        );
        if holds_text(err_text, "No such mempool or main chain transaction"@) {
            let (before, behind) = choose|before: Seq<char>, behind: Seq<char>|
                err_text == #[trigger] (before + "No such mempool or main chain transaction"@
                    + behind);
            missing_transactions_wait_for_the_backend(rules, before, behind, delay);
        } else {
            other_errors_wait_for_a_fresh_delay(rules, err_text, delay);
        }
    }
}

/// A shield that failed goes to the end of the queue as it was, to run again at a time that the
/// error decides.
pub proof fn failed_shields_are_retried(
    runner: &mut AutoShieldRunner,
    entry: QueuedShield,
    err_text: &str,
    now: u64,
    execute_after: u64,
)
    requires
        old(runner).config.wf(),
        old(runner).shield_rules().reaches(now),
        call_ensures(
            AutoShieldRunner::shield_failed,
            (runner, entry, err_text, now),
            execute_after,
        ),
    ensures
        only_queue_differs(*old(runner), *final(runner)),
        final(runner).queue@ == old(runner).queue@.push(
            QueuedModel { execute_after, ..entry@ },
        ),
        is_retried_at(
            old(runner).config.delay.min_minutes,
            old(runner).config.delay.max_minutes,
            err_text@,
            now,
            execute_after,
        ),
{
    let rules = old(runner).shield_rules();
    let delay = choose|delay: u64| #[trigger]
        old(runner).config.delay.holds(delay) && final(runner).queue@ == old(runner).queue@.push(
            entry@.at((now + rules.retry_secs(err_text@, delay)) as u64),
        );
    assert(old(runner).config.delay.holds(delay));
    retries_are_in_time(rules, err_text@, now, delay);
    assert(final(runner).queue@.last() == entry@.at(
        (now + rules.retry_secs(err_text@, delay)) as u64,
    ));
}

/// A payment that failed goes to the end of its queue as it was, to run again at a time that the
/// error decides.
pub proof fn failed_payments_are_retried(
    runner: &mut AutoShieldRunner,
    entry: QueuedShield,
    err_text: &str,
    now: u64,
    execute_after: u64,
)
    requires
        old(runner).config.wf(),
        old(runner).config.post_shield_send is Some,
        old(runner).payment_rules().reaches(now),
        call_ensures(
            AutoShieldRunner::send_failed,
            (runner, entry, err_text, now),
            execute_after,
        ),
    ensures
        only_send_queue_differs(*old(runner), *final(runner)),
        final(runner).send_queue@ == old(runner).send_queue@.push(
            QueuedModel { execute_after, ..entry@ },
        ),
        is_retried_at(
            old(runner).config.post_shield_send->0.delay.min_minutes,
            old(runner).config.post_shield_send->0.delay.max_minutes,
            err_text@,
            now,
            execute_after,
        ),
{
    let rules = old(runner).payment_rules();
    let delay = choose|delay: u64| #[trigger]
        rules.delay.holds(delay) && final(runner).send_queue@ == old(runner).send_queue@.push(
            entry@.at((now + rules.retry_secs(err_text@, delay)) as u64),
        );
    assert(rules.delay.holds(delay));
    retries_are_in_time(rules, err_text@, now, delay);
    assert(final(runner).send_queue@.last() == entry@.at(
        (now + rules.retry_secs(err_text@, delay)) as u64,
    ));
}

/// The output of a payment is to the address of its entry, of the value of the entry, and without
/// a memo.
pub proof fn a_payment_is_to_the_address_of_its_entry(
    entry: QueuedShield,
    receiver: Result<Receiver, ConversionError>,
)
    requires
        call_ensures(send_receiver, (&entry,), receiver),
    ensures
        receiver matches Ok(found) ==> {
            &&& decoded_address(entry.address@) == Ok::<(Seq<char>, bool), Seq<char>>(
                (
                    found.recipient_address.encoded@,
                    found.recipient_address.can_receive_memo,
                ),
            )
            &&& found.amount == entry.value_zat
            &&& found.memo is None
        },
        receiver is Ok <==> decoded_address(entry.address@) is Ok && 0 <= entry.value_zat
            <= 2_100_000_000_000_000,
{
    a_payment_is_what_its_entry_says(entry@);
}

} // verus!
