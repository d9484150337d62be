//! What the daemon remembers between two runs: the blocks that it has looked at, the rewards
//! that wait in the queue, and those that are shielded.
use vstd::prelude::*;

verus! {

/// The characters of each of several texts.
pub open spec fn texts(strings: Seq<String>) -> Seq<Seq<char>> {
    Seq::new(strings.len(), |i: int| strings[i]@)
}

/// The heights of the blocks that were looked at.
#[derive(Debug, Clone)]
pub struct ProcessedBlocks {
    pub blocks: Vec<u32>,
}

/// A reward that waits for its time.
#[derive(Debug, Clone)]
pub struct QueuedShield {
    pub height: u32,
    pub block_hash: String,
    pub address: String,
    pub value_zat: i64,
    pub scheduled_at: u64,
    /// The time before which the entry does not run, in seconds since the start of 1970.
    pub execute_after: u64,
}

#[derive(Debug, Clone)]
pub struct ShieldQueue {
    pub pending: Vec<QueuedShield>,
}

/// A reward that is shielded.
#[derive(Debug, Clone)]
pub struct RewardEntry {
    pub height: u32,
    pub block_hash: String,
    pub address: String,
    pub value_zat: i64,
    pub txids: Vec<String>,
    pub scheduled_at: Option<u64>,
    pub executed_at: Option<u64>,
}

#[derive(Debug, Clone)]
pub struct RewardLog {
    pub entries: Vec<RewardEntry>,
}

pub struct QueuedModel {
    pub height: u32,
    pub block_hash: Seq<char>,
    pub address: Seq<char>,
    pub value_zat: i64,
    pub scheduled_at: u64,
    pub execute_after: u64,
}

pub struct RewardModel {
    pub height: u32,
    pub block_hash: Seq<char>,
    pub address: Seq<char>,
    pub value_zat: i64,
    pub txids: Seq<Seq<char>>,
    pub scheduled_at: Option<u64>,
    pub executed_at: Option<u64>,
}

impl QueuedModel {
    /// The entry with another time to run at.
    pub open spec fn at(self, execute_after: u64) -> QueuedModel {
        QueuedModel { execute_after, ..self }
    }

    /// What is logged of the entry once it has run.
    pub open spec fn executed(self, txids: Seq<Seq<char>>, executed_at: u64) -> RewardModel {
        RewardModel {
            height: self.height,
            block_hash: self.block_hash,
            address: self.address,
            value_zat: self.value_zat,
            txids,
            scheduled_at: Some(self.scheduled_at),
            executed_at: Some(executed_at),
        }
    }
}

/// Whether a queue holds an entry for `height`.
pub open spec fn is_queued(queue: Seq<QueuedModel>, height: u32) -> bool {
    exists|i: int| 0 <= i < queue.len() && (#[trigger] queue[i]).height == height
}

/// Whether a log holds an entry for `height`.
pub open spec fn is_logged(log: Seq<RewardModel>, height: u32) -> bool {
    exists|i: int| 0 <= i < log.len() && (#[trigger] log[i]).height == height
}

impl View for QueuedShield {
    type V = QueuedModel;

    open spec fn view(&self) -> QueuedModel {
        QueuedModel {
            height: self.height,
            block_hash: self.block_hash@,
            address: self.address@,
            value_zat: self.value_zat,
            scheduled_at: self.scheduled_at,
            execute_after: self.execute_after,
        }
    }
}

pub open spec fn queue_view(entries: Seq<QueuedShield>) -> Seq<QueuedModel> {
    Seq::new(entries.len(), |i: int| entries[i]@)
}

impl View for ShieldQueue {
    type V = Seq<QueuedModel>;

    open spec fn view(&self) -> Seq<QueuedModel> {
        queue_view(self.pending@)
    }
}

impl View for RewardEntry {
    type V = RewardModel;

    open spec fn view(&self) -> RewardModel {
        RewardModel {
            height: self.height,
            block_hash: self.block_hash@,
            address: self.address@,
            value_zat: self.value_zat,
            txids: texts(self.txids@),
            scheduled_at: self.scheduled_at,
            executed_at: self.executed_at,
        }
    }
}

impl View for RewardLog {
    type V = Seq<RewardModel>;

    open spec fn view(&self) -> Seq<RewardModel> {
        Seq::new(self.entries@.len(), |i: int| self.entries@[i]@)
    }
}

impl View for ProcessedBlocks {
    type V = Seq<u32>;

    open spec fn view(&self) -> Seq<u32> {
        self.blocks@
    }
}

impl Default for ProcessedBlocks {
    fn default() -> (processed: ProcessedBlocks)
        ensures
            processed@ == Seq::<u32>::empty(),
    {
        ProcessedBlocks { blocks: Vec::new() }
    }
}

impl Default for ShieldQueue {
    fn default() -> (queue: ShieldQueue)
        ensures
            queue@ == Seq::<QueuedModel>::empty(),
    {
        ShieldQueue { pending: Vec::new() }
    }
}

impl Default for RewardLog {
    fn default() -> (log: RewardLog)
        ensures
            log@ == Seq::<RewardModel>::empty(),
    {
        RewardLog { entries: Vec::new() }
    }
}

impl RewardLog {
    pub fn contains_height(&self, height: u32) -> (found: bool)
        ensures
            found == is_logged(self@, height),
    {
        let mut i: usize = 0;
        while i < self.entries.len()
            invariant
                i <= self.entries@.len(),
                forall|j: int| 0 <= j < i ==> (#[trigger] self@[j]).height != height,
            decreases self.entries@.len() - i,
        {
            if self.entries[i].height == height {
                assert(self@[i as int].height == height);
                return true;
            }
            i += 1;
        }
        false
    }
}

impl ShieldQueue {
    pub fn contains_height(&self, height: u32) -> (found: bool)
        ensures
            found == is_queued(self@, height),
    {
        let mut i: usize = 0;
        while i < self.pending.len()
            invariant
                i <= self.pending@.len(),
                forall|j: int| 0 <= j < i ==> (#[trigger] self@[j]).height != height,
            decreases self.pending@.len() - i,
        {
            if self.pending[i].height == height {
                assert(self@[i as int].height == height);
                return true;
            }
            i += 1;
        }
        false
    }

    /// The heights in the queue, each once, in the order in which they come first.
    pub open spec fn distinct_heights(queue: Seq<QueuedModel>) -> Seq<u32>
        decreases queue.len(),
    {
        if queue.len() == 0 {
            Seq::empty()
        } else {
            let before = Self::distinct_heights(queue.drop_last());
            if is_queued(queue.drop_last(), queue.last().height) {
                before
            } else {
                before.push(queue.last().height)
            }
        }
    }

    /// The heights whose addresses the wallet has to know before the queue can run.
    pub fn heights_to_track(&self) -> (heights: Vec<u32>)
        ensures
            heights@ == Self::distinct_heights(self@),
    {
        let mut heights: Vec<u32> = Vec::new();
        let mut i: usize = 0;
        while i < self.pending.len()
            invariant
                i <= self.pending@.len(),
                heights@ == Self::distinct_heights(self@.take(i as int)),
            decreases self.pending@.len() - i,
        {
            let height: u32 = self.pending[i].height;
            let mut seen: bool = false;
            let mut j: usize = 0;
            while j < i
                invariant
                    j <= i < self.pending@.len(),
                    seen == is_queued(self@.take(j as int), height),
                decreases i - j,
            {
                proof {
                    let shorter = self@.take(j as int);
                    let longer = self@.take(j + 1);
                    if self.pending@[j as int].height == height {
                        assert(longer[j as int].height == height);
                    }
                    if is_queued(shorter, height) {
                        let k = choose|k: int|
                            0 <= k < shorter.len() && (#[trigger] shorter[k]).height == height;
                        assert(longer[k].height == height);
                    }
                    if is_queued(longer, height) {
                        let k = choose|k: int|
                            0 <= k < longer.len() && (#[trigger] longer[k]).height == height;
                        if k < j {
                            assert(shorter[k].height == height);
                        }
                    }
                }
                seen = seen || self.pending[j].height == height;
                j += 1;
            }
            assert(self@.take(i + 1).drop_last() == self@.take(i as int));
            if !seen {
                heights.push(height);
            }
            i += 1;
        }
        assert(self@.take(i as int) == self@);
        heights
    }
}

/// A height has to be tracked exactly if it is queued.
pub proof fn tracked_heights_are_the_queued(queue: Seq<QueuedModel>, height: u32)
    ensures
        ShieldQueue::distinct_heights(queue).contains(height) <==> is_queued(queue, height),
    decreases queue.len(),
{
    if queue.len() > 0 {
        let rest = queue.drop_last();
        let before = ShieldQueue::distinct_heights(rest);
        let last = queue.last().height;
        tracked_heights_are_the_queued(rest, height);
        tracked_heights_are_the_queued(rest, last);
        if is_queued(rest, height) {
            let k = choose|k: int| 0 <= k < rest.len() && (#[trigger] rest[k]).height == height;
            assert(queue[k].height == height);
        }
        if is_queued(queue, height) {
            let k = choose|k: int| 0 <= k < queue.len() && (#[trigger] queue[k]).height == height;
            if k < rest.len() {
                assert(rest[k].height == height);
            }
        }
        if last == height {
            assert(queue[queue.len() - 1].height == height);
        }
        if !is_queued(rest, last) {
            let after = before.push(last);
            if before.contains(height) {
                let k = choose|k: int| 0 <= k < before.len() && before[k] == height;
                assert(after[k] == height);
            }
            if last == height {
                assert(after[before.len() as int] == height);
            }
            if after.contains(height) {
                let k = choose|k: int| 0 <= k < after.len() && after[k] == height;
                if k < before.len() {
                    assert(before[k] == height);
                }
            }
        }
    }
}

/// No height has to be tracked twice.
pub proof fn tracked_heights_are_distinct(queue: Seq<QueuedModel>)
    ensures
        ShieldQueue::distinct_heights(queue).no_duplicates(),
    decreases queue.len(),
{
    if queue.len() > 0 {
        let rest = queue.drop_last();
        tracked_heights_are_distinct(rest);
        tracked_heights_are_the_queued(rest, queue.last().height);
    }
}

} // verus!
