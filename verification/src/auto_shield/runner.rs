//! The daemon's decisions: which blocks to look at, what to make of each of them, and what to do
//! with the rewards in the queue.
use std::collections::HashSet;

use vstd::prelude::*;

use crate::auto_shield::config::AutoShieldConfig;
use crate::auto_shield::node::{payout, payout_to, BlockResult, OutputModel, Payout};
use crate::auto_shield::queue::{QueuePass, QueueRules, QueueState, QueueStep};
use crate::auto_shield::state::{
    is_logged, is_queued, texts, ProcessedBlocks, QueuedModel, QueuedShield, RewardLog,
    RewardModel, ShieldQueue,
};
use crate::payments::{
    address_from_str, address_outcome, zatoshis_from_u64, ConversionError, ConversionErrorModel,
    Receiver, ReceiverModel, MAX_MONEY,
};
use crate::restrictions::{AccountId, TransparentAddressRestriction, TransparentScope};

verus! {

/// What is sent after every shield: 6.25 coins in zatoshis.
pub const POST_SHIELD_SEND_ZAT: i64 = 625_000_000;

/// What the daemon knows.
#[derive(Debug)]
pub struct AutoShieldRunner {
    pub config: AutoShieldConfig,
    pub processed: ProcessedBlocks,
    pub rewards: RewardLog,
    pub queue: ShieldQueue,
    /// The payments that followed a shield.
    pub sends: RewardLog,
    /// The payments that are to follow a shield.
    pub send_queue: ShieldQueue,
    /// Whether the wallet came to know an address whose past payments it has not seen.
    pub needs_reward_rescan: bool,
}

/// The blocks that a pass looks at.
#[derive(Debug)]
pub struct BlockScan {
    /// The last block with enough confirmations.
    pub target: u32,
    pub heights: Vec<u32>,
    /// How many of the heights had their turn.
    pub taken: usize,
}

/// What a pass does about the chain.
#[derive(Debug)]
pub enum ScanPlan {
    /// The tip is below the first block to look at.
    BelowStart,
    /// No block has enough confirmations.
    Unconfirmed,
    /// Look at blocks, of which there can be none left.
    Scan(BlockScan),
}

pub enum PlanModel {
    BelowStart,
    Unconfirmed,
    /// The blocks that are still to be looked at, up to the target.
    Scan { target: u32, heights: Seq<u32> },
}

impl BlockScan {
    pub open spec fn remaining(self) -> Seq<u32> {
        if self.taken <= self.heights@.len() {
            self.heights@.skip(self.taken as int)
        } else {
            Seq::empty()
        }
    }
}

impl View for ScanPlan {
    type V = PlanModel;

    open spec fn view(&self) -> PlanModel {
        match *self {
            ScanPlan::BelowStart => PlanModel::BelowStart,
            ScanPlan::Unconfirmed => PlanModel::Unconfirmed,
            ScanPlan::Scan(scan) => PlanModel::Scan {
                target: scan.target,
                heights: scan.remaining(),
            },
        }
    }
}

/// What the daemon does next in a pass.
#[derive(Debug, Clone, Copy, PartialEq, Eq, Structural)]
pub enum PassAction {
    FetchTip,
    /// Look at the block at `height`.
    ProcessHeight { height: u32 },
    /// Have the wallet scan the chain again.
    Rescan,
    ProcessQueue,
    Finished,
}

/// What a block means for the wallet.
#[derive(Debug, Clone, Copy, PartialEq, Eq, Structural)]
pub enum BlockFinding {
    /// The block does not pay to the wallet's address.
    NoReward,
    /// The reward is shielded already.
    AlreadyShielded,
    /// The reward is in the queue already.
    AlreadyQueued,
    /// The reward is new.
    Reward { value_zat: i64 },
    /// The reward is new, and its value does not fit in 64 bits.
    ValueOverflow,
}

/// The heights from `first` to `last`, both included.
pub open spec fn heights_between(first: u32, last: u32) -> Seq<u32> {
    Seq::new(
        if first <= last {
            (last - first + 1) as nat
        } else {
            0
        },
        |i: int| (first + i) as u32,
    )
}

/// The heights from `first` to `last` that were not looked at, in their order.
pub open spec fn missing_heights(processed: Seq<u32>, first: u32, last: u32) -> Seq<u32> {
    heights_between(first, last).filter(|height: u32| !processed.contains(height))
}

/// What a pass does about the chain, where the tip is at `tip_height`: it looks at every block
/// from `start_height` on that has enough confirmations and was not looked at.
pub open spec fn plan(
    start_height: u32,
    confirmations: u32,
    processed: Seq<u32>,
    tip_height: u32,
) -> PlanModel {
    let target = tip_height - (confirmations - 1);
    if tip_height < start_height {
        PlanModel::BelowStart
    } else if target < 0 {
        PlanModel::Unconfirmed
    } else {
        PlanModel::Scan {
            target: target as u32,
            heights: missing_heights(processed, start_height, target as u32),
        }
    }
}

/// What follows the last block of a pass.
pub open spec fn action_after_scan(needs_rescan: bool, shutdown: bool) -> PassAction {
    if shutdown {
        PassAction::Finished
    } else if needs_rescan {
        PassAction::Rescan
    } else {
        PassAction::ProcessQueue
    }
}

impl PlanModel {
    /// What follows in a pass of which this much is left.
    pub open spec fn action(self, needs_rescan: bool, shutdown: bool) -> PassAction {
        match self {
            PlanModel::BelowStart => PassAction::Finished,
            PlanModel::Unconfirmed => PassAction::Finished,
            PlanModel::Scan { heights, .. } => if heights.len() > 0 && !shutdown {
                PassAction::ProcessHeight { height: heights.first() }
            } else {
                action_after_scan(needs_rescan, shutdown)
            },
        }
    }

    /// What is left of the pass then.
    pub open spec fn behind(self, shutdown: bool) -> PlanModel {
        match self {
            PlanModel::Scan { target, heights } if heights.len() > 0 && !shutdown => {
                PlanModel::Scan { target, heights: heights.drop_first() }
            },
            _ => self,
        }
    }
}

/// The heights that were looked at, for finding them fast.
fn height_set(blocks: &Vec<u32>) -> (set: HashSet<u32>)
    ensures
        forall|height: u32| set@.contains(height) <==> blocks@.contains(height),
{
    broadcast use vstd::std_specs::hash::group_hash_axioms;

    let mut set: HashSet<u32> = HashSet::new();
    let mut i: usize = 0;
    while i < blocks.len()
        invariant
            i <= blocks@.len(),
            forall|height: u32| set@.contains(height) <==> blocks@.take(i as int).contains(height),
        decreases blocks@.len() - i,
    {
        proof {
            let longer = blocks@.take(i + 1);
            assert(longer == blocks@.take(i as int).push(blocks@[i as int]));
            broadcast use vstd::seq_lib::group_seq_properties;
            assert forall|height: u32| longer.contains(height) <==> blocks@.take(
                i as int,
            ).contains(height) || height == blocks@[i as int] by {}
        }
        set.insert(blocks[i]);
        i += 1;
    }
    assert(blocks@.take(i as int) == blocks@);
    set
}

/// What a block with the given coinbase outputs means for a wallet whose address for the block's
/// height is `address`.
pub open spec fn finding(
    outputs: Seq<OutputModel>,
    address: Seq<char>,
    height: u32,
    rewards: Seq<RewardModel>,
    queue: Seq<QueuedModel>,
) -> BlockFinding {
    match payout(outputs, address) {
        Payout::Absent => BlockFinding::NoReward,
        _ if is_logged(rewards, height) => BlockFinding::AlreadyShielded,
        _ if is_queued(queue, height) => BlockFinding::AlreadyQueued,
        Payout::Value { value_zat } => BlockFinding::Reward { value_zat },
        Payout::Overflow => BlockFinding::ValueOverflow,
    }
}

/// The entry for a reward that was found at `now`.
pub open spec fn new_entry(
    height: u32,
    block_hash: Seq<char>,
    address: Seq<char>,
    value_zat: i64,
    now: u64,
    delay_secs: u64,
) -> QueuedModel {
    QueuedModel {
        height,
        block_hash,
        address,
        value_zat,
        scheduled_at: now,
        execute_after: (now + delay_secs) as u64,
    }
}

/// Decides whether a pass begins.
pub fn begin_pass(shutdown: bool) -> (action: PassAction)
    ensures
        action == (if shutdown {
            PassAction::Finished
        } else {
            PassAction::FetchTip
        }),
{
    if shutdown {
        PassAction::Finished
    } else {
        PassAction::FetchTip
    }
}

/// The restriction for a shield: the first account, the external child at `index`, and nothing
/// else.
pub fn shield_restriction(index: u32) -> (restriction: TransparentAddressRestriction)
    ensures
        restriction == (TransparentAddressRestriction {
            account: AccountId { index: 0 },
            scope: TransparentScope::External,
            start_index: index,
            max_index: Some(index),
        }),
        forall|other: u32| #[trigger] restriction.admits(other) <==> other == index,
{
    TransparentAddressRestriction::new(
        AccountId::zero(),
        TransparentScope::External,
        index,
        Some(index),
    )
}

/// The output of a payment that is in the queue.
pub open spec fn send_outcome(entry: QueuedModel) -> Result<ReceiverModel, ConversionErrorModel> {
    match address_outcome(entry.address) {
        Err(error) => Err(error),
        Ok(recipient_address) => if 0 <= entry.value_zat <= MAX_MONEY {
            Ok(ReceiverModel { recipient_address, amount: entry.value_zat as u64, memo: None })
        } else {
            Err(ConversionErrorModel::AmountOutOfRange)
        },
    }
}

/// The output of a payment that is in the queue.
pub fn send_receiver(entry: &QueuedShield) -> (receiver: Result<Receiver, ConversionError>)
    ensures
        match receiver {
            Ok(value) => send_outcome(entry@) == Ok::<ReceiverModel, ConversionErrorModel>(value@),
            Err(error) => send_outcome(entry@) == Err::<ReceiverModel, ConversionErrorModel>(
                error@,
            ),
        },
{
    let recipient_address = address_from_str(entry.address.as_str())?;
    if entry.value_zat < 0 {
        return Err(ConversionError::AmountOutOfRange);
    }
    let amount: u64 = zatoshis_from_u64(entry.value_zat as u64)?;
    Ok(Receiver { recipient_address, amount, memo: None })
}

impl AutoShieldRunner {
    pub open spec fn wf(self) -> bool {
        self.config.wf()
    }

    pub open spec fn shield_rules(self) -> QueueRules {
        QueueRules { delay: self.config.delay, grace_secs: self.config.reschedule_grace_secs }
    }

    /// The rules for the payments after a shield. The grace period is that of the shields.
    pub open spec fn payment_rules(self) -> QueueRules {
        QueueRules {
            delay: self.config.post_shield_send->0.delay,
            grace_secs: self.config.reschedule_grace_secs,
        }
    }

    /// Starts the daemon with what it remembers. The wallet is there by then, and the mnemonic
    /// phrase is dropped.
    pub fn initialize(
        config: AutoShieldConfig,
        processed: ProcessedBlocks,
        rewards: RewardLog,
        queue: ShieldQueue,
        sends: RewardLog,
        send_queue: ShieldQueue,
    ) -> (runner: AutoShieldRunner)
        requires
            config.wf(),
        ensures
            runner == (AutoShieldRunner {
                config: AutoShieldConfig { mnemonic: None, ..config },
                processed,
                rewards,
                queue,
                sends,
                send_queue,
                needs_reward_rescan: false,
            }),
            runner.wf(),
    {
        let mut config = config;
        config.mnemonic = None;
        AutoShieldRunner {
            config,
            processed,
            rewards,
            queue,
            sends,
            send_queue,
            needs_reward_rescan: false,
        }
    }

    /// Whether the wallet scans the chain again at the start: rewards wait in the queue.
    pub fn needs_startup_rescan(&self) -> (result: bool)
        ensures
            result == (self.queue@.len() > 0),
    {
        !self.queue.pending.is_empty()
    }

    /// The first height from `start_height` on that was not looked at, where there is one.
    pub fn next_height(&self) -> (height: Option<u32>)
        ensures
            match height {
                Some(found) => {
                    &&& self.config.start_height <= found
                    &&& !self.processed@.contains(found)
                    &&& forall|earlier: u32|
                        self.config.start_height <= earlier < found
                            ==> #[trigger] self.processed@.contains(earlier)
                },
                None => forall|any: u32|
                    self.config.start_height <= any ==> #[trigger] self.processed@.contains(any),
            },
    {
        broadcast use vstd::std_specs::hash::group_hash_axioms;

        let processed = height_set(&self.processed.blocks);
        let mut height: u32 = self.config.start_height;
        loop
            invariant
                self.config.start_height <= height,
                forall|any: u32| processed@.contains(any) <==> self.processed@.contains(any),
                forall|earlier: u32|
                    self.config.start_height <= earlier < height
                        ==> #[trigger] self.processed@.contains(earlier),
            decreases u32::MAX - height,
        {
            if !processed.contains(&height) {
                return Some(height);
            }
            if height == u32::MAX {
                return None;
            }
            height += 1;
        }
    }

    /// What a pass does about the chain, where the tip is at `tip_height`.
    pub open spec fn plan_for(self, tip_height: u32) -> PlanModel {
        plan(
            self.config.start_height,
            self.config.confirmations,
            self.processed@,
            tip_height,
        )
    }

    pub fn scan_plan(&self, tip_height: u32) -> (result: ScanPlan)
        requires
            self.wf(),
        ensures
            result@ == self.plan_for(tip_height),
    {
        if tip_height < self.config.start_height {
            return ScanPlan::BelowStart;
        }
        let gap: u32 = self.config.confirmations - 1;
        if tip_height < gap {
            return ScanPlan::Unconfirmed;
        }
        let target: u32 = tip_height - gap;
        let heights = self.missing_up_to(target);
        assert(heights@.skip(0) == heights@);
        ScanPlan::Scan(BlockScan { target, heights, taken: 0 })
    }

    fn missing_up_to(&self, target: u32) -> (heights: Vec<u32>)
        ensures
            heights@ == missing_heights(self.processed@, self.config.start_height, target),
    {
        broadcast use vstd::std_specs::hash::group_hash_axioms;

        let processed = height_set(&self.processed.blocks);
        let start: u32 = self.config.start_height;
        let ghost all = heights_between(start, target);
        let ghost is_missing = |height: u32| !self.processed@.contains(height);
        let mut heights: Vec<u32> = Vec::new();
        let mut height: u64 = start as u64;
        proof {
            reveal(Seq::filter);
            assert(heights@ == all.take(0).filter(is_missing));
        }
        while height <= target as u64
            invariant
                start <= height,
                start <= target ==> height <= target + 1,
                start > target ==> height == start,
                all == heights_between(start, target),
                is_missing == (|height: u32| !self.processed@.contains(height)),
                forall|any: u32| processed@.contains(any) <==> self.processed@.contains(any),
                heights@ == all.take(height - start).filter(is_missing),
            decreases target + 1 - height,
        {
            let next: u32 = height as u32;
            proof {
                let shorter = all.take(height - start);
                assert(all[height - start] == next);
                assert(all.take(height - start + 1) == shorter.push(next));
                shorter.lemma_filter_push(next, is_missing);
            }
            if !processed.contains(&next) {
                heights.push(next);
            }
            height += 1;
        }
        assert(all.take(height - start) == all);
        heights
    }

    fn advance(&self, plan: &mut ScanPlan, shutdown: bool) -> (action: PassAction)
        ensures
            action == old(plan)@.action(self.needs_reward_rescan, shutdown),
            final(plan)@ == old(plan)@.behind(shutdown),
    {
        match plan {
            ScanPlan::BelowStart => PassAction::Finished,
            ScanPlan::Unconfirmed => PassAction::Finished,
            ScanPlan::Scan(scan) => {
                if scan.taken < scan.heights.len() && !shutdown {
                    let ghost before = scan.remaining();
                    let height: u32 = scan.heights[scan.taken];
                    scan.taken = scan.taken + 1;
                    assert(before.first() == height);
                    assert(scan.remaining() == before.drop_first());
                    PassAction::ProcessHeight { height }
                } else {
                    self.after_scan(shutdown)
                }
            },
        }
    }

    /// What follows once the height of the tip is known, and what is left of the pass then.
    pub fn process_blocks(&self, tip_height: u32, shutdown: bool) -> (begun: (
        PassAction,
        ScanPlan,
    ))
        requires
            self.wf(),
        ensures
            begun.0 == self.plan_for(tip_height).action(self.needs_reward_rescan, shutdown),
            begun.1@ == self.plan_for(tip_height).behind(shutdown),
    {
        let mut plan = self.scan_plan(tip_height);
        let action = self.advance(&mut plan, shutdown);
        (action, plan)
    }

    /// What follows a block, whether it could be looked at or not.
    pub fn after_height(&self, plan: &mut ScanPlan, shutdown: bool) -> (action: PassAction)
        ensures
            action == old(plan)@.action(self.needs_reward_rescan, shutdown),
            final(plan)@ == old(plan)@.behind(shutdown),
    {
        self.advance(plan, shutdown)
    }

    fn after_scan(&self, shutdown: bool) -> (action: PassAction)
        ensures
            action == action_after_scan(self.needs_reward_rescan, shutdown),
    {
        if shutdown {
            PassAction::Finished
        } else if self.needs_reward_rescan {
            PassAction::Rescan
        } else {
            PassAction::ProcessQueue
        }
    }

    /// What follows a rescan that succeeded.
    pub fn after_rescan(&mut self, shutdown: bool) -> (action: PassAction)
        ensures
            *final(self) == (AutoShieldRunner { needs_reward_rescan: false, ..*old(self) }),
            action == action_after_scan(false, shutdown),
    {
        self.needs_reward_rescan = false;
        self.after_scan(shutdown)
    }

    /// Decides what the block at `height` means, where `derived_address` is the wallet's address
    /// for that height.
    pub fn process_height(&self, height: u32, derived_address: &str, block: &BlockResult) -> (
    result: BlockFinding)
        ensures
            result == finding(
                block.coinbase_outputs(),
                derived_address@,
                height,
                self.rewards@,
                self.queue@,
            ),
    {
        let outputs = block.coinbase_addresses();
        match payout_to(&outputs, derived_address) {
            Payout::Absent => BlockFinding::NoReward,
            Payout::Value { value_zat } => {
                if self.rewards.contains_height(height) {
                    BlockFinding::AlreadyShielded
                } else if self.queue.contains_height(height) {
                    BlockFinding::AlreadyQueued
                } else {
                    BlockFinding::Reward { value_zat }
                }
            },
            Payout::Overflow => {
                if self.rewards.contains_height(height) {
                    BlockFinding::AlreadyShielded
                } else if self.queue.contains_height(height) {
                    BlockFinding::AlreadyQueued
                } else {
                    BlockFinding::ValueOverflow
                }
            },
        }
    }

    /// Notes that the wallet watches the address of a reward, and whether it did not before.
    pub fn note_tracked_index(&mut self, tracked_new_index: bool)
        ensures
            *final(self) == (AutoShieldRunner {
                needs_reward_rescan: old(self).needs_reward_rescan || tracked_new_index,
                ..*old(self)
            }),
    {
        if tracked_new_index {
            self.needs_reward_rescan = true;
        }
    }

    /// Notes that the block at `height` was looked at.
    pub fn mark_processed(&mut self, height: u32)
        ensures
            final(self).processed@ == old(self).processed@.push(height),
            *final(self) == (AutoShieldRunner {
                processed: final(self).processed,
                ..*old(self)
            }),
    {
        self.processed.blocks.push(height);
    }

    /// Puts a reward that was found at `now` into the queue, with a random delay, and says when
    /// it runs.
    pub fn schedule_shield(
        &mut self,
        height: u32,
        block_hash: &str,
        address: &str,
        value_zat: i64,
        now: u64,
    ) -> (execute_after: u64)
        requires
            old(self).wf(),
            now + old(self).config.delay.max_minutes * 60 <= u64::MAX,
        ensures
            *final(self) == (AutoShieldRunner { queue: final(self).queue, ..*old(self) }),
            exists|delay: u64| #[trigger]
                old(self).config.delay.holds(delay) && final(self).queue@ == old(self).queue@.push(
                    new_entry(height, block_hash@, address@, value_zat, now, delay),
                ),
            execute_after == final(self).queue@.last().execute_after,
            now + old(self).config.delay.min_minutes * 60 <= execute_after <= now
                + old(self).config.delay.max_minutes * 60,
    {
        let delay: u64 = self.config.random_delay_secs();
        assert(old(self).config.delay.holds(delay));
        self.queue.schedule(height, block_hash, address, value_zat, now, delay)
    }

    pub fn rules(&self) -> (rules: QueueRules)
        ensures
            rules == self.shield_rules(),
            self.wf() ==> rules.wf(),
    {
        QueueRules { delay: self.config.delay, grace_secs: self.config.reschedule_grace_secs }
    }

    /// The rules for the payments after a shield, where there are such payments.
    pub fn send_rules(&self) -> (rules: Option<QueueRules>)
        ensures
            rules == (if self.config.post_shield_send is Some {
                Some(self.payment_rules())
            } else {
                None
            }),
            self.wf() ==> (rules matches Some(rules) ==> rules.wf()),
    {
        match &self.config.post_shield_send {
            Some(send) => Some(
                QueueRules { delay: send.delay, grace_secs: self.config.reschedule_grace_secs },
            ),
            None => None,
        }
    }

    /// Begins a pass over the queue of shields, unless the queue is empty or the daemon stops.
    pub fn process_queue(&mut self, now: u64, shutdown: bool) -> (begun: Option<QueuePass>)
        ensures
            match begun {
                None => (shutdown || old(self).queue@.len() == 0) && *final(self) == *old(self),
                Some(pass) => {
                    &&& !shutdown && old(self).queue@.len() > 0
                    &&& *final(self) == (AutoShieldRunner {
                        queue: final(self).queue,
                        ..*old(self)
                    })
                    &&& pass.now == now
                    &&& (QueueState {
                        pending: final(self).queue@,
                        due: pass.remaining(),
                        log: old(self).rewards@,
                    }) == QueueState::start(old(self).queue@, old(self).rewards@, now)
                },
            },
    {
        if shutdown || self.queue.pending.is_empty() {
            return None;
        }
        Some(self.queue.take_due(now))
    }

    /// Ends a pass before every shield had its turn: those that are left go back into the queue.
    pub fn abandon_pass(&mut self, pass: QueuePass)
        ensures
            *final(self) == (AutoShieldRunner { queue: final(self).queue, ..*old(self) }),
            final(self).queue@ == old(self).queue@ + pass.remaining(),
    {
        self.queue.put_back(pass);
    }

    /// Takes the next shield of a pass.
    pub fn next_shield(&mut self, pass: &mut QueuePass, shutdown: bool) -> (step: QueueStep)
        requires
            old(self).wf(),
            old(self).shield_rules().reaches(old(pass).now),
        ensures
            *final(self) == (AutoShieldRunner { queue: final(self).queue, ..*old(self) }),
            final(pass).now == old(pass).now,
            exists|delay: u64| #[trigger]
                old(self).config.delay.holds(delay) && ({
                    let state = QueueState {
                        pending: old(self).queue@,
                        due: old(pass).remaining(),
                        log: old(self).rewards@,
                    };
                    &&& step@ == state.step(
                        old(self).shield_rules(),
                        old(pass).now,
                        shutdown,
                        delay,
                    )
                    &&& (QueueState {
                        pending: final(self).queue@,
                        due: final(pass).remaining(),
                        log: old(self).rewards@,
                    }) == state.behind(step@)
                }),
    {
        let rules = self.rules();
        let delay: u64 = rules.delay.random_delay_secs();
        assert(old(self).config.delay.holds(delay));
        self.queue.next_due(pass, &self.rewards, &rules, shutdown, delay)
    }

    /// Logs a shield, and puts the payment that follows it into its queue, with a random delay.
    pub fn shield_succeeded(&mut self, entry: QueuedShield, txids: Vec<String>, executed_at: u64)
        requires
            old(self).wf(),
            old(self).config.post_shield_send matches Some(send) ==> executed_at
                + send.delay.max_minutes * 60 <= u64::MAX,
        ensures
            *final(self) == (AutoShieldRunner {
                rewards: final(self).rewards,
                send_queue: final(self).send_queue,
                ..*old(self)
            }),
            final(self).rewards@ == old(self).rewards@.push(
                entry@.executed(texts(txids@), executed_at),
            ),
            match old(self).config.post_shield_send {
                None => final(self).send_queue == old(self).send_queue,
                Some(send) => exists|delay: u64| #[trigger]
                    send.delay.holds(delay) && final(self).send_queue@
                        == old(self).send_queue@.push(
                        new_entry(
                            entry.height,
                            entry@.block_hash,
                            send.address@,
                            POST_SHIELD_SEND_ZAT,
                            executed_at,
                            delay,
                        ),
                    ),
            },
    {
        match &self.config.post_shield_send {
            Some(send) => {
                let delay: u64 = send.delay.random_delay_secs();
                assert(send.delay.holds(delay));
                self.send_queue.schedule(
                    entry.height,
                    entry.block_hash.as_str(),
                    send.address.as_str(),
                    POST_SHIELD_SEND_ZAT,
                    executed_at,
                    delay,
                );
            },
            None => {},
        }
        self.rewards.record(entry, txids, executed_at);
    }

    /// Puts a shield that failed back into the queue, and says when it runs again.
    pub fn shield_failed(&mut self, entry: QueuedShield, err_text: &str, now: u64) -> (
    execute_after: u64)
        requires
            old(self).wf(),
            old(self).shield_rules().reaches(now),
        ensures
            *final(self) == (AutoShieldRunner { queue: final(self).queue, ..*old(self) }),
            exists|delay: u64| #[trigger]
                old(self).config.delay.holds(delay) && final(self).queue@ == old(self).queue@.push(
                    entry@.at((now + old(self).shield_rules().retry_secs(err_text@, delay)) as u64),
                ),
            execute_after == final(self).queue@.last().execute_after,
    {
        let rules = self.rules();
        let delay: u64 = rules.delay.random_delay_secs();
        assert(old(self).config.delay.holds(delay));
        self.queue.reschedule(entry, err_text, &rules, now, delay)
    }

    /// Begins a pass over the queue of payments, unless the queue is empty or the daemon stops.
    pub fn process_sends(&mut self, now: u64, shutdown: bool) -> (begun: Option<QueuePass>)
        ensures
            match begun {
                None => (shutdown || old(self).send_queue@.len() == 0) && *final(self) == *old(self),
                Some(pass) => {
                    &&& !shutdown && old(self).send_queue@.len() > 0
                    &&& *final(self) == (AutoShieldRunner {
                        send_queue: final(self).send_queue,
                        ..*old(self)
                    })
                    &&& pass.now == now
                    &&& (QueueState {
                        pending: final(self).send_queue@,
                        due: pass.remaining(),
                        log: old(self).sends@,
                    }) == QueueState::start(old(self).send_queue@, old(self).sends@, now)
                },
            },
    {
        if shutdown || self.send_queue.pending.is_empty() {
            return None;
        }
        Some(self.send_queue.take_due(now))
    }

    /// Ends a pass before every payment had its turn: those that are left go back into the queue.
    pub fn abandon_sends(&mut self, pass: QueuePass)
        ensures
            *final(self) == (AutoShieldRunner { send_queue: final(self).send_queue, ..*old(self) }),
            final(self).send_queue@ == old(self).send_queue@ + pass.remaining(),
    {
        self.send_queue.put_back(pass);
    }

    /// Takes the next payment of a pass.
    pub fn next_send(&mut self, pass: &mut QueuePass, shutdown: bool) -> (step: QueueStep)
        requires
            old(self).wf(),
            old(self).config.post_shield_send is Some,
            old(self).payment_rules().reaches(old(pass).now),
        ensures
            *final(self) == (AutoShieldRunner { send_queue: final(self).send_queue, ..*old(self) }),
            final(pass).now == old(pass).now,
            exists|delay: u64| #[trigger]
                old(self).payment_rules().delay.holds(delay) && ({
                    let state = QueueState {
                        pending: old(self).send_queue@,
                        due: old(pass).remaining(),
                        log: old(self).sends@,
                    };
                    &&& step@ == state.step(
                        old(self).payment_rules(),
                        old(pass).now,
                        shutdown,
                        delay,
                    )
                    &&& (QueueState {
                        pending: final(self).send_queue@,
                        due: final(pass).remaining(),
                        log: old(self).sends@,
                    }) == state.behind(step@)
                }),
    {
        match self.send_rules() {
            Some(rules) => {
                let delay: u64 = rules.delay.random_delay_secs();
                assert(old(self).payment_rules().delay.holds(delay));
                self.send_queue.next_due(pass, &self.sends, &rules, shutdown, delay)
            },
            None => QueueStep::Finished,
        }
    }

    /// Logs a payment.
    pub fn send_succeeded(&mut self, entry: QueuedShield, txids: Vec<String>, executed_at: u64)
        ensures
            *final(self) == (AutoShieldRunner { sends: final(self).sends, ..*old(self) }),
            final(self).sends@ == old(self).sends@.push(
                entry@.executed(texts(txids@), executed_at),
            ),
    {
        self.sends.record(entry, txids, executed_at);
    }

    /// Puts a payment that failed back into the queue, and says when it runs again.
    pub fn send_failed(&mut self, entry: QueuedShield, err_text: &str, now: u64) -> (
    execute_after: u64)
        requires
            old(self).wf(),
            old(self).config.post_shield_send is Some,
            old(self).payment_rules().reaches(now),
        ensures
            *final(self) == (AutoShieldRunner { send_queue: final(self).send_queue, ..*old(self) }),
            exists|delay: u64| #[trigger]
                old(self).payment_rules().delay.holds(delay) && final(self).send_queue@
                    == old(self).send_queue@.push(
                    entry@.at(
                        (now + old(self).payment_rules().retry_secs(err_text@, delay)) as u64,
                    ),
                ),
            execute_after == final(self).send_queue@.last().execute_after,
    {
        match self.send_rules() {
            Some(rules) => {
                let delay: u64 = rules.delay.random_delay_secs();
                assert(old(self).payment_rules().delay.holds(delay));
                self.send_queue.reschedule(entry, err_text, &rules, now, delay)
            },
            None => entry.execute_after,
        }
    }
}

} // verus!
