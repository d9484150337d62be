//! What holds of the daemon's passes over the chain.
use vstd::prelude::*;

use crate::auto_shield::node::{is_paid, OutputModel};
use crate::auto_shield::queue::{due_at, QueueRules, QueueState};
use crate::auto_shield::queue_laws::{
    a_pass_keeps_every_height, a_pass_keeps_heights_distinct, heights, logged_heights,
    nothing_runs_twice, Turn,
};
use crate::auto_shield::runner::{
    finding, heights_between, missing_heights, plan, BlockFinding, PassAction, PlanModel,
};
use crate::auto_shield::state::{is_logged, is_queued, QueuedModel, RewardModel};

verus! {

impl PlanModel {
    /// The blocks that are still to be looked at.
    pub open spec fn blocks(self) -> Seq<u32> {
        match self {
            PlanModel::Scan { heights, .. } => heights,
            _ => Seq::empty(),
        }
    }

    /// The blocks that a pass looks at from here on, where nothing stops it.
    pub open spec fn visited(self, needs_rescan: bool) -> Seq<u32>
        decreases self.blocks().len(),
    {
        match self.action(needs_rescan, false) {
            PassAction::ProcessHeight { height } => seq![height] + self.behind(false).visited(
                needs_rescan,
            ),
            _ => Seq::empty(),
        }
    }
}

/// A pass looks at every block of its plan, in the order of the plan.
pub proof fn a_pass_visits_every_block(chosen: PlanModel, needs_rescan: bool)
    ensures
        chosen.visited(needs_rescan) == chosen.blocks(),
    decreases chosen.blocks().len(),
{
    let blocks = chosen.blocks();
    if blocks.len() > 0 {
        a_pass_visits_every_block(chosen.behind(false), needs_rescan);
        assert(seq![blocks.first()] + blocks.drop_first() == blocks);
    }
}

proof fn is_missing_iff_not_processed(processed: Seq<u32>, first: u32, last: u32, height: u32)
    ensures
        missing_heights(processed, first, last).contains(height) <==> first <= height <= last
            && !processed.contains(height),
{
    broadcast use vstd::seq_lib::group_filter_ensures;

    let all = heights_between(first, last);
    let is_missing = |height: u32| !processed.contains(height);
    if first <= height <= last && !processed.contains(height) {
        let i = height - first;
        assert(all[i] == height);
        assert(is_missing(all[i]));
        assert(all.filter(is_missing).contains(all[i]));
    }
    if missing_heights(processed, first, last).contains(height) {
        all.lemma_filter_contains_rev(is_missing, height);
        let k = choose|k: int|
            0 <= k < all.filter(is_missing).len() && all.filter(is_missing)[k] == height;
        assert(is_missing(all.filter(is_missing)[k]));
    }
}

/// Every block that has enough confirmations, is not below the first block to look at and was not
/// looked at is in the plan, and no other block. The block at the tip has one confirmation.
pub proof fn the_plan_is_what_is_missing(
    start_height: u32,
    confirmations: u32,
    processed: Seq<u32>,
    tip_height: u32,
    height: u32,
)
    requires
        confirmations >= 1,
    ensures
        plan(start_height, confirmations, processed, tip_height).blocks().contains(height) <==> {
            &&& start_height <= height
            &&& !processed.contains(height)
            &&& tip_height - height + 1 >= confirmations
        },
{
    if tip_height >= confirmations - 1 && tip_height >= start_height {
        let target = (tip_height - (confirmations - 1)) as u32;
        is_missing_iff_not_processed(processed, start_height, target, height);
    }
}

proof fn missing_heights_increase(all: Seq<u32>, is_missing: spec_fn(u32) -> bool)
    requires
        forall|i: int, j: int| 0 <= i < j < all.len() ==> all[i] < all[j],
    ensures
        forall|i: int, j: int|
            0 <= i < j < all.filter(is_missing).len() ==> #[trigger] all.filter(is_missing)[i]
                < #[trigger] all.filter(is_missing)[j],
    decreases all.len(),
{
    reveal(Seq::filter);
    if all.len() > 0 {
        let rest = all.drop_last();
        assert forall|i: int, j: int| 0 <= i < j < rest.len() implies rest[i] < rest[j] by {
            assert(all[i] < all[j]);
        }
        missing_heights_increase(rest, is_missing);
        let before = rest.filter(is_missing);
        assert forall|i: int| 0 <= i < before.len() implies #[trigger] before[i]
            < all.last() by {
            assert(before.contains(before[i]));
            rest.lemma_filter_contains_rev(is_missing, before[i]);
            let k = choose|k: int| 0 <= k < rest.len() && rest[k] == before[i];
            assert(all[k] < all[all.len() - 1]);
        }
    }
}

/// The blocks of a plan stand in the order of their heights, each once.
pub proof fn the_plan_is_in_order(
    start_height: u32,
    confirmations: u32,
    processed: Seq<u32>,
    tip_height: u32,
    i: int,
    j: int,
)
    requires
        0 <= i < j < plan(start_height, confirmations, processed, tip_height).blocks().len(),
    ensures
        ({
            let blocks = plan(start_height, confirmations, processed, tip_height).blocks();
            blocks[i] < blocks[j]
        }),
{
    let target = (tip_height - (confirmations - 1)) as u32;
    let all = heights_between(start_height, target);
    missing_heights_increase(all, |height: u32| !processed.contains(height));
}

/// A block that was looked at is in no later plan.
pub proof fn no_block_is_visited_again(
    start_height: u32,
    confirmations: u32,
    processed: Seq<u32>,
    tip_height: u32,
    height: u32,
)
    requires
        confirmations >= 1,
        processed.contains(height),
    ensures
        !plan(start_height, confirmations, processed, tip_height).blocks().contains(height),
{
    the_plan_is_what_is_missing(start_height, confirmations, processed, tip_height, height);
}

/// Where a pass looked at the blocks `done`, the next one resumes: at the same tip or a later one
/// it looks at the blocks of the first plan that are not among them, such as one that could not
/// be fetched, and at no block that is.
pub proof fn passes_resume(
    start_height: u32,
    confirmations: u32,
    processed: Seq<u32>,
    done: Seq<u32>,
    tip_height: u32,
    later_tip: u32,
    height: u32,
)
    requires
        confirmations >= 1,
        tip_height <= later_tip,
        plan(start_height, confirmations, processed, tip_height).blocks().contains(height),
    ensures
        plan(start_height, confirmations, processed + done, later_tip).blocks().contains(height)
            <==> !done.contains(height),
{
    the_plan_is_what_is_missing(start_height, confirmations, processed, tip_height, height);
    the_plan_is_what_is_missing(
        start_height,
        confirmations,
        processed + done,
        later_tip,
        height,
    );
    let both = processed + done;
    if done.contains(height) {
        let k = choose|k: int| 0 <= k < done.len() && done[k] == height;
        assert(both[processed.len() + k] == height);
    }
    if both.contains(height) {
        let k = choose|k: int| 0 <= k < both.len() && both[k] == height;
        if k < processed.len() {
            assert(processed[k] == height);
        } else {
            assert(done[k - processed.len()] == height);
        }
    }
}

/// A reward is scheduled only if the block pays to the wallet's address and the height is neither
/// in the queue nor shielded.
pub proof fn only_new_rewards_are_scheduled(
    outputs: Seq<OutputModel>,
    address: Seq<char>,
    height: u32,
    rewards: Seq<RewardModel>,
    queue: Seq<QueuedModel>,
)
    ensures
        finding(outputs, address, height, rewards, queue) is Reward ==> is_paid(outputs, address)
            && !is_logged(rewards, height) && !is_queued(queue, height),
        is_logged(rewards, height) || is_queued(queue, height) ==> !(finding(
            outputs,
            address,
            height,
            rewards,
            queue,
        ) is Reward),
        !is_paid(outputs, address) <==> finding(outputs, address, height, rewards, queue)
            == BlockFinding::NoReward,
{
}

/// Scheduling a reward whose height is not in the queue keeps the heights in it distinct.
pub proof fn scheduling_keeps_heights_distinct(queue: Seq<QueuedModel>, entry: QueuedModel)
    requires
        heights(queue).no_duplicates(),
        !is_queued(queue, entry.height),
    ensures
        heights(queue.push(entry)).no_duplicates(),
{
    assert(heights(queue.push(entry)) == heights(queue).push(entry.height));
    assert forall|i: int| 0 <= i < queue.len() implies heights(queue)[i] != entry.height by {
        assert(queue[i].height != entry.height);
    }
}

/// What happens to the queue of shields and its log.
pub enum QueueEvent {
    /// A block pays a reward; the entry is the one that would be scheduled for it.
    Reward { entry: QueuedModel },
    /// The queue is worked off in a pass that began at `now`.
    Pass { now: u64, turns: Seq<Turn> },
}

/// The queue and its log.
#[verifier::ext_equal]
pub struct Ledger {
    pub queue: Seq<QueuedModel>,
    pub log: Seq<RewardModel>,
}

impl Ledger {
    /// The queue and its log behind an event. A reward is scheduled only if its height is new.
    pub open spec fn after(self, rules: QueueRules, event: QueueEvent) -> Ledger {
        match event {
            QueueEvent::Reward { entry } => if is_logged(self.log, entry.height) || is_queued(
                self.queue,
                entry.height,
            ) {
                self
            } else {
                Ledger { queue: self.queue.push(entry), ..self }
            },
            QueueEvent::Pass { now, turns } => {
                let end = QueueState::start(self.queue, self.log, now).run(rules, now, turns);
                Ledger { queue: end.pending, log: end.log }
            },
        }
    }

    /// The queue and its log behind several events.
    pub open spec fn after_all(self, rules: QueueRules, events: Seq<QueueEvent>) -> Ledger
        decreases events.len(),
    {
        if events.len() == 0 {
            self
        } else {
            self.after(rules, events.first()).after_all(rules, events.drop_first())
        }
    }

    /// Whether every entry that is due gets its turn in the passes among the events.
    pub open spec fn is_complete(self, rules: QueueRules, events: Seq<QueueEvent>) -> bool
        decreases events.len(),
    {
        if events.len() == 0 {
            true
        } else {
            &&& events.first() matches QueueEvent::Pass { now, turns } ==> turns.len() >= due_at(
                self.queue,
                now,
            ).len()
            &&& self.after(rules, events.first()).is_complete(rules, events.drop_first())
        }
    }

    /// Whether no height is in the queue twice, and none in the log.
    pub open spec fn is_distinct(self) -> bool {
        heights(self.queue).no_duplicates() && logged_heights(self.log).no_duplicates()
    }

    /// Whether `height` is in the queue or in the log.
    pub open spec fn knows(self, height: u32) -> bool {
        is_queued(self.queue, height) || is_logged(self.log, height)
    }
}

/// However many rewards are found and however many passes are made, no height is shielded twice
/// or queued twice, if none was before; nothing is taken off the log; and every height that was
/// ever queued or shielded can still be found in the queue or in the log.
pub proof fn rewards_are_shielded_once_and_never_lost(
    ledger: Ledger,
    rules: QueueRules,
    events: Seq<QueueEvent>,
    height: u32,
)
    requires
        ledger.is_complete(rules, events),
    ensures
        ledger.is_distinct() ==> ledger.after_all(rules, events).is_distinct(),
        ledger.log.is_prefix_of(ledger.after_all(rules, events).log),
        ledger.knows(height) ==> ledger.after_all(rules, events).knows(height),
    decreases events.len(),
{
    if events.len() > 0 {
        let next = ledger.after(rules, events.first());
        match events.first() {
            QueueEvent::Reward { entry } => {
                if next.queue != ledger.queue {
                    if ledger.is_distinct() {
                        scheduling_keeps_heights_distinct(ledger.queue, entry);
                    }
                    if is_queued(ledger.queue, height) {
                        let k = choose|k: int|
                            0 <= k < ledger.queue.len() && (#[trigger] ledger.queue[k]).height
                                == height;
                        assert(next.queue[k].height == height);
                    }
                }
            },
            QueueEvent::Pass { now, turns } => {
                let start = QueueState::start(ledger.queue, ledger.log, now);
                if ledger.is_distinct() {
                    a_pass_keeps_heights_distinct(ledger.queue, ledger.log, rules, now, turns);
                }
                a_pass_keeps_every_height(ledger.queue, ledger.log, rules, now, turns, height);
                nothing_runs_twice(start, rules, now, turns);
            },
        }
        rewards_are_shielded_once_and_never_lost(next, rules, events.drop_first(), height);
    }
}

} // verus!
