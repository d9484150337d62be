//! What holds of the daemon's single decisions: what a pass does next, what a block means, and by
//! which times the queues are worked off.
use vstd::prelude::*;

use crate::auto_shield::config::PostShieldSend;
use crate::auto_shield::node::{paid_value, payout, OutputModel, Payout};
use crate::auto_shield::node_laws::an_address_is_paid_where_it_is_named;
use crate::auto_shield::queue::{QueueState, StepModel};
use crate::auto_shield::queue_laws::{heights, logged_heights};
use crate::auto_shield::runner::{
    action_after_scan, finding, new_entry, plan, send_outcome, AutoShieldRunner, BlockFinding,
    BlockScan, PassAction, PlanModel, ScanPlan, POST_SHIELD_SEND_ZAT,
};
use crate::auto_shield::state::{is_logged, is_queued, QueuedModel, RewardModel};
use crate::payments::{decoded_address, ConversionErrorModel};

verus! {

/// The delays of the shields are drawn out of the window that is configured for them, and those
/// of the payments out of the one that is configured for the payments. Both queues have the grace
/// period that is configured.
pub proof fn the_queues_have_the_configured_times(
    runner: AutoShieldRunner,
    send: PostShieldSend,
)
    requires
        runner.config.post_shield_send == Some(send),
    ensures
        runner.shield_rules().grace_secs == runner.config.reschedule_grace_secs,
        runner.payment_rules().grace_secs == runner.config.reschedule_grace_secs,
        runner.shield_rules().delay.min_minutes == runner.config.delay.min_minutes,
        runner.shield_rules().delay.max_minutes == runner.config.delay.max_minutes,
        runner.payment_rules().delay.min_minutes == send.delay.min_minutes,
        runner.payment_rules().delay.max_minutes == send.delay.max_minutes,
{
}

/// A payment that is due and not logged runs exactly if it is not overdue for longer than the
/// grace period that is configured, unless the daemon stops; and otherwise it gets a fresh delay.
pub proof fn payments_within_the_grace_period_run(
    runner: AutoShieldRunner,
    due: Seq<QueuedModel>,
    now: u64,
    fresh_delay: u64,
)
    requires
        due.len() > 0,
        due[0].execute_after <= now,
        now + fresh_delay <= u64::MAX,
        forall|i: int|
            0 <= i < runner.sends.entries@.len() ==> (#[trigger] runner.sends.entries@[i]).height
                != due[0].height,
    ensures
        ({
            let state = QueueState { pending: runner.send_queue@, due, log: runner.sends@ };
            let step = state.step(runner.payment_rules(), now, false, fresh_delay);
            let overdue = now - due[0].execute_after;
            &&& overdue <= runner.config.reschedule_grace_secs <==> step == StepModel::Execute(
                due[0],
            )
            &&& overdue > runner.config.reschedule_grace_secs <==> step is Postponed
            &&& step matches StepModel::Postponed { execute_after, .. } ==> execute_after == now
                + fresh_delay
            &&& state.step(runner.payment_rules(), now, true, fresh_delay)
                == StepModel::Interrupted
        }),
{
    let state = QueueState { pending: runner.send_queue@, due, log: runner.sends@ };
    assert forall|i: int| 0 <= i < state.log.len() implies (#[trigger] state.log[i]).height
        != due[0].height by {
        assert(state.log[i] == runner.sends.entries@[i]@);
    }
    assert(!is_logged(state.log, due[0].height));
}

/// A shield that is due and not logged runs exactly if it is not overdue for longer than the
/// grace period that is configured, unless the daemon stops; and otherwise it gets a fresh delay.
pub proof fn shields_within_the_grace_period_run(
    runner: AutoShieldRunner,
    due: Seq<QueuedModel>,
    now: u64,
    fresh_delay: u64,
)
    requires
        due.len() > 0,
        due[0].execute_after <= now,
        now + fresh_delay <= u64::MAX,
        forall|i: int|
            0 <= i < runner.rewards.entries@.len() ==> (
            #[trigger] runner.rewards.entries@[i]).height != due[0].height,
    ensures
        ({
            let state = QueueState { pending: runner.queue@, due, log: runner.rewards@ };
            let step = state.step(runner.shield_rules(), now, false, fresh_delay);
            let overdue = now - due[0].execute_after;
            &&& overdue <= runner.config.reschedule_grace_secs <==> step == StepModel::Execute(
                due[0],
            )
            &&& overdue > runner.config.reschedule_grace_secs <==> step is Postponed
            &&& step matches StepModel::Postponed { execute_after, .. } ==> execute_after == now
                + fresh_delay
            &&& state.step(runner.shield_rules(), now, true, fresh_delay)
                == StepModel::Interrupted
        }),
{
    let state = QueueState { pending: runner.queue@, due, log: runner.rewards@ };
    assert forall|i: int| 0 <= i < state.log.len() implies (#[trigger] state.log[i]).height
        != due[0].height by {
        assert(state.log[i] == runner.rewards.entries@[i]@);
    }
    assert(!is_logged(state.log, due[0].height));
}

/// A payment has its turn as a shield in its place would have it.
pub proof fn payments_run_as_shields_would(
    runner: AutoShieldRunner,
    state: QueueState,
    now: u64,
    shutdown: bool,
    fresh_delay: u64,
)
    ensures
        state.step(runner.payment_rules(), now, shutdown, fresh_delay) == state.step(
            runner.shield_rules(),
            now,
            shutdown,
            fresh_delay,
        ),
{
}

/// A pass does nothing where the tip is below the first block to look at, or has too few blocks
/// below it for any to have enough confirmations; otherwise it looks at blocks up to the last one
/// that has enough. The block at the tip has one.
pub proof fn a_pass_looks_at_confirmed_blocks(
    start_height: u32,
    confirmations: u32,
    processed: Seq<u32>,
    tip_height: u32,
)
    requires
        confirmations >= 1,
    ensures
        ({
            let chosen = plan(start_height, confirmations, processed, tip_height);
            &&& chosen == PlanModel::BelowStart <==> tip_height < start_height
            &&& chosen == PlanModel::Unconfirmed <==> tip_height >= start_height && tip_height + 1
                < confirmations
            &&& chosen matches PlanModel::Scan { target, .. } ==> target + confirmations
                == tip_height + 1
        }),
{
}

/// The plan of the daemon is the one for its own first block, confirmations and processed blocks.
pub proof fn the_plan_is_for_the_configuration(runner: AutoShieldRunner, tip_height: u32)
    ensures
        runner.plan_for(tip_height) == plan(
            runner.config.start_height,
            runner.config.confirmations,
            runner.processed.blocks@,
            tip_height,
        ),
{
}

/// A daemon that stops ends the pass, whatever is left of it, and takes no block off it. Without
/// blocks to look at, the wallet scans again where it has to, and else the queue is worked off. A
/// pass without a plan ends at once.
pub proof fn what_a_pass_does_next(chosen: PlanModel, needs_rescan: bool)
    ensures
        chosen.action(needs_rescan, true) == PassAction::Finished,
        chosen.behind(true) == chosen,
        chosen is BelowStart || chosen is Unconfirmed ==> chosen.action(needs_rescan, false)
            == PassAction::Finished && chosen.behind(false) == chosen,
        chosen matches PlanModel::Scan { target, heights } ==> {
            &&& heights.len() == 0 && needs_rescan ==> chosen.action(needs_rescan, false)
                == PassAction::Rescan
            &&& heights.len() == 0 && !needs_rescan ==> chosen.action(needs_rescan, false)
                == PassAction::ProcessQueue
            &&& heights.len() == 0 ==> chosen.behind(false) == chosen
            &&& heights.len() > 0 ==> chosen.action(needs_rescan, false) == (
            PassAction::ProcessHeight { height: heights[0] })
            &&& heights.len() > 0 ==> (chosen.behind(false) matches PlanModel::Scan {
                target: same,
                heights: rest,
            } && same == target && heights == seq![heights[0]] + rest)
        },
        action_after_scan(needs_rescan, true) == PassAction::Finished,
        action_after_scan(true, false) == PassAction::Rescan,
        action_after_scan(false, false) == PassAction::ProcessQueue,
{
    if let PlanModel::Scan { heights, .. } = chosen {
        if heights.len() > 0 {
            assert(heights == seq![heights[0]] + heights.drop_first());
        }
    }
}

/// A plan shows the blocks that have not had their turn, in their order.
pub proof fn a_plan_shows_what_is_left_of_it(chosen: ScanPlan, scan: BlockScan, i: int)
    requires
        scan.taken <= scan.heights@.len(),
    ensures
        scan.remaining().len() == scan.heights@.len() - scan.taken,
        0 <= i < scan.remaining().len() ==> scan.remaining()[i] == scan.heights@[scan.taken + i],
        chosen is BelowStart <==> chosen@ is BelowStart,
        chosen is Unconfirmed <==> chosen@ is Unconfirmed,
        chosen == ScanPlan::Scan(scan) ==> chosen@ == (PlanModel::Scan {
            target: scan.target,
            heights: scan.remaining(),
        }),
{
}

proof fn heights_are_found(log: Seq<RewardModel>, queue: Seq<QueuedModel>, height: u32)
    ensures
        is_logged(log, height) <==> logged_heights(log).contains(height),
        is_queued(queue, height) <==> heights(queue).contains(height),
{
    if is_logged(log, height) {
        let k = choose|k: int| 0 <= k < log.len() && (#[trigger] log[k]).height == height;
        assert(logged_heights(log)[k] == height);
    }
    if logged_heights(log).contains(height) {
        let k = choose|k: int|
            0 <= k < logged_heights(log).len() && logged_heights(log)[k] == height;
        assert(log[k].height == height);
    }
    if is_queued(queue, height) {
        let k = choose|k: int| 0 <= k < queue.len() && (#[trigger] queue[k]).height == height;
        assert(heights(queue)[k] == height);
    }
    if heights(queue).contains(height) {
        let k = choose|k: int| 0 <= k < heights(queue).len() && heights(queue)[k] == height;
        assert(queue[k].height == height);
    }
}

/// Whether an output of the block names `address`.
pub open spec fn names(outputs: Seq<OutputModel>, address: Seq<char>) -> bool {
    exists|i: int, j: int|
        0 <= i < outputs.len() && 0 <= j < (#[trigger] outputs[i]).addresses.len()
            && #[trigger] outputs[i].addresses[j] == address
}

/// A block without an output to the wallet's address means nothing. One with such an output is
/// shielded already where its height is in the log, and else queued already where its height is
/// in the queue. Otherwise it is a reward, worth all that the block pays to the address, or one
/// whose worth 64 bits do not hold.
pub proof fn what_a_block_means(
    outputs: Seq<OutputModel>,
    address: Seq<char>,
    height: u32,
    rewards: Seq<RewardModel>,
    queue: Seq<QueuedModel>,
)
    ensures
        ({
            let found = finding(outputs, address, height, rewards, queue);
            let shielded = logged_heights(rewards).contains(height);
            let waiting = heights(queue).contains(height);
            &&& found == BlockFinding::NoReward <==> !names(outputs, address)
            &&& found == BlockFinding::AlreadyShielded <==> names(outputs, address) && shielded
            &&& found == BlockFinding::AlreadyQueued <==> names(outputs, address) && !shielded
                && waiting
            &&& found is Reward || found is ValueOverflow <==> names(outputs, address) && !shielded
                && !waiting
            &&& found matches BlockFinding::Reward { value_zat } ==> value_zat == paid_value(
                outputs,
                address,
            )
            &&& found is ValueOverflow ==> payout(outputs, address) == Payout::Overflow
            &&& found is Reward ==> payout(outputs, address) is Value
        }),
{
    heights_are_found(rewards, queue, height);
    an_address_is_paid_where_it_is_named(outputs, address);
    crate::auto_shield::node_laws::a_reward_is_worth_what_is_paid(outputs, address);
}

/// A new entry holds what was found, the time at which it was, and the end of its delay.
pub proof fn a_new_entry_says_what_was_found(
    height: u32,
    block_hash: Seq<char>,
    address: Seq<char>,
    value_zat: i64,
    now: u64,
    delay_secs: u64,
)
    requires
        now + delay_secs <= u64::MAX,
    ensures
        ({
            let entry = new_entry(height, block_hash, address, value_zat, now, delay_secs);
            &&& entry.height == height
            &&& entry.block_hash == block_hash
            &&& entry.address == address
            &&& entry.value_zat == value_zat
            &&& entry.scheduled_at == now
            &&& entry.execute_after == now + delay_secs
        }),
{
}

/// What follows a shield is a payment of six and a quarter coins.
pub proof fn payments_are_of_six_and_a_quarter_coins()
    ensures
        POST_SHIELD_SEND_ZAT * 4 == 25 * 100_000_000,
{
}

/// A payment goes to the address of its entry, with the value of the entry as the amount and
/// without a memo. It is refused for an address that is none, and then for a value that is
/// negative or more than there can be.
pub proof fn a_payment_is_what_its_entry_says(entry: QueuedModel)
    ensures
        send_outcome(entry) matches Ok(receiver) ==> {
            &&& decoded_address(entry.address) == Ok::<(Seq<char>, bool), Seq<char>>(
                (receiver.recipient_address.encoded, receiver.recipient_address.can_receive_memo),
            )
            &&& receiver.amount == entry.value_zat
            &&& receiver.memo is None
        },
        send_outcome(entry) is Ok <==> decoded_address(entry.address) is Ok && 0 <= entry.value_zat
            <= 2_100_000_000_000_000,
        decoded_address(entry.address) matches Err(reason) ==> (send_outcome(entry) matches Err(
            error,
        ) && error == ConversionErrorModel::InvalidAddress(reason)),
        decoded_address(entry.address) is Ok && send_outcome(entry) is Err ==> send_outcome(
            entry,
        )->Err_0 == ConversionErrorModel::AmountOutOfRange,
{
}

} // verus!
