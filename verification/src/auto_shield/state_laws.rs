//! What holds of the daemon's memory: nothing of an entry is lost or changed on the way from the
//! queue to the log.
use vstd::prelude::*;

use crate::auto_shield::state::{
    is_logged, is_queued, texts, ProcessedBlocks, QueuedModel, QueuedShield, RewardEntry,
    RewardLog, RewardModel, ShieldQueue,
};

verus! {

/// Several texts are shown one by one, in their order.
pub proof fn texts_are_shown_one_by_one(strings: Seq<String>, i: int)
    ensures
        texts(strings).len() == strings.len(),
        0 <= i < strings.len() ==> texts(strings)[i] == strings[i]@,
{
}

/// An entry of the queue shows each of its fields.
pub proof fn a_queued_entry_shows_its_fields(entry: QueuedShield)
    ensures
        entry@.height == entry.height,
        entry@.block_hash == entry.block_hash@,
        entry@.address == entry.address@,
        entry@.value_zat == entry.value_zat,
        entry@.scheduled_at == entry.scheduled_at,
        entry@.execute_after == entry.execute_after,
{
}

/// An entry of the log shows each of its fields.
pub proof fn a_logged_entry_shows_its_fields(entry: RewardEntry, i: int)
    ensures
        entry@.height == entry.height,
        entry@.block_hash == entry.block_hash@,
        entry@.address == entry.address@,
        entry@.value_zat == entry.value_zat,
        entry@.txids.len() == entry.txids@.len(),
        0 <= i < entry.txids@.len() ==> entry@.txids[i] == entry.txids@[i]@,
        entry@.scheduled_at == entry.scheduled_at,
        entry@.executed_at == entry.executed_at,
{
}

/// The queue, the log and the list of blocks show their entries one by one, in their order.
pub proof fn memory_shows_its_entries(
    queue: ShieldQueue,
    log: RewardLog,
    processed: ProcessedBlocks,
    i: int,
)
    ensures
        queue@.len() == queue.pending@.len(),
        0 <= i < queue.pending@.len() ==> queue@[i] == queue.pending@[i]@,
        log@.len() == log.entries@.len(),
        0 <= i < log.entries@.len() ==> log@[i] == log.entries@[i]@,
        processed@.len() == processed.blocks@.len(),
        0 <= i < processed.blocks@.len() ==> processed@[i] == processed.blocks@[i],
{
}

/// An entry that gets another time to run at is the same entry otherwise.
pub proof fn a_new_time_changes_nothing_else(entry: QueuedModel, later: u64)
    ensures
        entry.at(later).execute_after == later,
        entry.at(later).height == entry.height,
        entry.at(later).block_hash == entry.block_hash,
        entry.at(later).address == entry.address,
        entry.at(later).value_zat == entry.value_zat,
        entry.at(later).scheduled_at == entry.scheduled_at,
{
}

/// What is logged of an entry is the entry as it was scheduled, with the transactions that it ran
/// as and the time at which it did.
pub proof fn the_log_says_what_ran(
    entry: QueuedModel,
    txids: Seq<Seq<char>>,
    executed_at: u64,
    later: u64,
)
    ensures
        ({
            let logged = entry.executed(txids, executed_at);
            &&& logged.height == entry.height
            &&& logged.block_hash == entry.block_hash
            &&& logged.address == entry.address
            &&& logged.value_zat == entry.value_zat
            &&& logged.txids == txids
            &&& logged.scheduled_at == Some(entry.scheduled_at)
            &&& logged.executed_at == Some(executed_at)
            &&& entry.at(later).executed(txids, executed_at) == logged
        }),
{
}

/// A height is in the queue exactly if an entry with that height is.
pub proof fn a_height_is_queued_with_its_entry(
    queue: Seq<QueuedModel>,
    entry: QueuedModel,
    height: u32,
)
    ensures
        !is_queued(Seq::<QueuedModel>::empty(), height),
        is_queued(queue.push(entry), height) <==> is_queued(queue, height) || entry.height
            == height,
{
    let longer = queue.push(entry);
    if is_queued(queue, height) {
        let k = choose|k: int| 0 <= k < queue.len() && (#[trigger] queue[k]).height == height;
        assert(longer[k].height == height);
    }
    if entry.height == height {
        assert(longer[queue.len() as int].height == height);
    }
    if is_queued(longer, height) {
        let k = choose|k: int| 0 <= k < longer.len() && (#[trigger] longer[k]).height == height;
        if k < queue.len() {
            assert(queue[k].height == height);
        }
    }
}

/// A height is in the log exactly if an entry with that height is.
pub proof fn a_height_is_logged_with_its_entry(
    log: Seq<RewardModel>,
    entry: RewardModel,
    height: u32,
)
    ensures
        !is_logged(Seq::<RewardModel>::empty(), height),
        is_logged(log.push(entry), height) <==> is_logged(log, height) || entry.height == height,
{
    let longer = log.push(entry);
    if is_logged(log, height) {
        let k = choose|k: int| 0 <= k < log.len() && (#[trigger] log[k]).height == height;
        assert(longer[k].height == height);
    }
    if entry.height == height {
        assert(longer[log.len() as int].height == height);
    }
    if is_logged(longer, height) {
        let k = choose|k: int| 0 <= k < longer.len() && (#[trigger] longer[k]).height == height;
        if k < log.len() {
            assert(log[k].height == height);
        }
    }
}

/// The heights to track stand in the order in which they come into the queue: an entry at its end
/// adds its height at the end, or nothing where the height is in the queue already.
pub proof fn tracked_heights_are_in_order(queue: Seq<QueuedModel>, entry: QueuedModel)
    ensures
        ShieldQueue::distinct_heights(Seq::<QueuedModel>::empty()).len() == 0,
        (exists|i: int| 0 <= i < queue.len() && (#[trigger] queue[i]).height == entry.height)
            ==> ShieldQueue::distinct_heights(queue.push(entry)) == ShieldQueue::distinct_heights(
            queue,
        ),
        (forall|i: int| 0 <= i < queue.len() ==> (#[trigger] queue[i]).height != entry.height)
            ==> ShieldQueue::distinct_heights(queue.push(entry)) == ShieldQueue::distinct_heights(
            queue,
        ).push(entry.height),
{
    assert(queue.push(entry).drop_last() == queue);
}

/// The daemon remembers nothing at first.
pub proof fn memory_is_empty_at_first(
    queue: ShieldQueue,
    log: RewardLog,
    processed: ProcessedBlocks,
)
    requires
        call_ensures(<ShieldQueue as Default>::default, (), queue),
        call_ensures(<RewardLog as Default>::default, (), log),
        call_ensures(<ProcessedBlocks as Default>::default, (), processed),
    ensures
        queue.pending@.len() == 0,
        log.entries@.len() == 0,
        processed.blocks@.len() == 0,
{
    assert(queue@.len() == queue.pending@.len());
    assert(log@.len() == log.entries@.len());
}

} // verus!
