//! The serving queue: lane snapshots kept in the order in which they will
//! be served.
//!
//! The entry with the largest priority is served first. Among entries of
//! equal priority the one that was queued first is served first.
//!
//! The entries are stored in a vector sorted by priority, the next one to
//! serve last: taking it is a `pop`, and the place of a new entry is found
//! by bisection.

use vstd::prelude::*;
use vstd::seq_lib::to_multiset_remove;
use crate::lane::{Lane, LaneView};

verus! {

/// No entry is followed by one of larger priority.
pub open spec fn in_serving_order(queue: Seq<LaneView>) -> bool {
    forall|i: int, j: int| 0 <= i < j < queue.len() ==> queue[i].priority >= queue[j].priority
}

/// The number of entries at the head of `queue` whose priority is at least
/// `priority`: the place at which a new entry of that priority is queued.
pub open spec fn slot_for(queue: Seq<LaneView>, priority: nat) -> nat
    decreases queue.len(),
{
    if queue.len() == 0 || queue[0].priority < priority {
        0
    } else {
        1 + slot_for(queue.drop_first(), priority)
    }
}

/// `queue` with `entry` added behind every entry of the same or a larger
/// priority.
pub open spec fn enqueue(queue: Seq<LaneView>, entry: LaneView) -> Seq<LaneView> {
    queue.insert(slot_for(queue, entry.priority) as int, entry)
}

/// The slot for `priority` is the one position that has only entries of at
/// least that priority before it and a smaller one, or the end, at it.
pub proof fn lemma_slot_for_is(queue: Seq<LaneView>, priority: nat, slot: int)
    requires
        0 <= slot <= queue.len(),
        forall|i: int| 0 <= i < slot ==> queue[i].priority >= priority,
        slot < queue.len() ==> queue[slot].priority < priority,
    ensures
        slot_for(queue, priority) == slot,
    decreases queue.len(),
{
    if slot > 0 {
        lemma_slot_for_is(queue.drop_first(), priority, slot - 1);
    }
}

/// The slot lies within the queue, everything before it has at least the
/// given priority, and the entry at it, if there is one, has less.
pub proof fn lemma_slot_for_bounds(queue: Seq<LaneView>, priority: nat)
    ensures
        slot_for(queue, priority) <= queue.len(),
        forall|i: int| 0 <= i < slot_for(queue, priority) ==> queue[i].priority >= priority,
        slot_for(queue, priority) < queue.len() ==> queue[slot_for(queue, priority) as int].priority
            < priority,
    decreases queue.len(),
{
    if !(queue.len() == 0 || queue[0].priority < priority) {
        let rest = queue.drop_first();
        lemma_slot_for_bounds(rest, priority);
        assert forall|i: int| 0 <= i < slot_for(queue, priority) implies queue[i].priority
            >= priority by {
            if i > 0 {
                assert(queue[i] == rest[i - 1]);
            }
        }
    }
}

/// Queueing keeps the serving order.
pub proof fn lemma_enqueue_keeps_order(queue: Seq<LaneView>, entry: LaneView)
    requires
        in_serving_order(queue),
    ensures
        in_serving_order(enqueue(queue, entry)),
{
    lemma_slot_for_bounds(queue, entry.priority);
}

/// Whatever was queued is still queued after another entry is added, and
/// the new entry is queued too; nothing else is.
pub proof fn lemma_enqueue_entries(queue: Seq<LaneView>, entry: LaneView)
    ensures
        enqueue(queue, entry).len() == queue.len() + 1,
        forall|i: int| 0 <= i < queue.len() ==> enqueue(queue, entry).contains(#[trigger] queue[i]),
        enqueue(queue, entry).contains(entry),
        forall|k: int|
            0 <= k < enqueue(queue, entry).len() ==> (#[trigger] enqueue(queue, entry)[k]) == entry
                || queue.contains(enqueue(queue, entry)[k]),
{
    lemma_slot_for_bounds(queue, entry.priority);
    let slot = slot_for(queue, entry.priority) as int;
    let after = enqueue(queue, entry);
    assert forall|i: int| 0 <= i < queue.len() implies after.contains(#[trigger] queue[i]) by {
        if i < slot {
            assert(after[i] == queue[i]);
        } else {
            assert(after[i + 1] == queue[i]);
        }
    }
    assert(after[slot] == entry);
}

/// As a collection the queue gains the new entry and nothing else,
/// whatever the order.
pub proof fn lemma_enqueue_adds_one_entry(queue: Seq<LaneView>, entry: LaneView)
    ensures
        enqueue(queue, entry).to_multiset() == queue.to_multiset().insert(entry),
{
    lemma_slot_for_bounds(queue, entry.priority);
    let slot = slot_for(queue, entry.priority) as int;
    let after = enqueue(queue, entry);
    assert(after.remove(slot) =~= queue);
    to_multiset_remove(after, slot);
    after.to_multiset_ensures();
}

/// Entries from the least priority to the largest, as they are stored.
spec fn ascending(entries: Seq<Lane>) -> bool {
    forall|i: int, j: int| 0 <= i < j < entries.len() ==> entries[i].priority <= entries[j].priority
}

/// The stored entries read from the back: the serving order.
spec fn from_back(entries: Seq<Lane>) -> Seq<LaneView> {
    Seq::new(entries.len(), |i: int| entries[entries.len() - 1 - i]@)
}

/// The first index of `entries` whose lane is not less than `lane`, or the
/// length if there is none.
fn lower_bound(entries: &Vec<Lane>, lane: &Lane) -> (at: usize)
    requires
        ascending(entries@),
    ensures
        at <= entries@.len(),
        forall|i: int| 0 <= i < at ==> entries@[i].priority < lane.priority,
        forall|i: int| at <= i < entries@.len() ==> entries@[i].priority >= lane.priority,
{
    let mut low: usize = 0;
    let mut high: usize = entries.len();
    while low < high
        invariant
            low <= high <= entries@.len(),
            ascending(entries@),
            forall|i: int| 0 <= i < low ==> entries@[i].priority < lane.priority,
            forall|i: int| high <= i < entries@.len() ==> entries@[i].priority >= lane.priority,
        decreases high - low,
    {
        let mid: usize = low + (high - low) / 2;
        if entries[mid] < *lane {
            low = mid + 1;
        } else {
            high = mid;
        }
    }
    low
}

/// A queue of lane snapshots that hands out the entry of largest priority
/// first, and among entries of equal priority the oldest.
pub struct LaneQueue {
    entries: Vec<Lane>,
}

impl View for LaneQueue {
    type V = Seq<LaneView>;

    /// The entries in serving order: the one at index 0 is served next.
    closed spec fn view(&self) -> Seq<LaneView> {
        from_back(self.entries@)
    }
}

impl LaneQueue {
    #[verifier::type_invariant]
    spec fn stored_ascending(&self) -> bool {
        ascending(self.entries@)
    }

    /// An empty queue.
    pub fn new() -> (queue: LaneQueue)
        ensures
            queue@ == Seq::<LaneView>::empty(),
    {
        LaneQueue { entries: Vec::new() }
    }

    /// The number of queued entries.
    pub fn len(&self) -> (count: usize)
        ensures
            count == self@.len(),
    {
        self.entries.len()
    }

    /// Whether nothing is queued.
    pub fn is_empty(&self) -> (empty: bool)
        ensures
            empty == (self@.len() == 0),
    {
        self.entries.len() == 0
    }

    /// Queues `lane` behind every entry of the same or a larger priority.
    pub fn push(&mut self, lane: Lane)
        ensures
            final(self)@ == enqueue(old(self)@, lane@),
            in_serving_order(final(self)@),
    {
        proof {
            use_type_invariant(&*self);
        }
        let mut entries: Vec<Lane> = Vec::new();
        std::mem::swap(&mut entries, &mut self.entries);
        let ghost before = entries@;
        let ghost entry = lane@;
        let at = lower_bound(&entries, &lane);
        entries.insert(at, lane);
        proof {
            lemma_slot_for_is(from_back(before), entry.priority, before.len() - at);
        }
        self.entries = entries;
    }

    /// Takes the entry that is served next out of the queue, if there is
    /// one.
    pub fn pop(&mut self) -> (next: Option<Lane>)
        ensures
            old(self)@.len() == 0 ==> next.is_none() && final(self)@ == old(self)@,
            old(self)@.len() > 0 ==> next.is_some() && next.unwrap()@ == old(self)@[0],
            old(self)@.len() > 0 ==> final(self)@ == old(self)@.drop_first(),
            in_serving_order(final(self)@),
    {
        proof {
            use_type_invariant(&*self);
        }
        let mut entries: Vec<Lane> = Vec::new();
        std::mem::swap(&mut entries, &mut self.entries);
        let next = entries.pop();
        self.entries = entries;
        next
    }

    /// Copies of all entries, in serving order.
    pub fn snapshot(&self) -> (copies: Vec<Lane>)
        ensures
            copies@.len() == self@.len(),
            forall|i: int| 0 <= i < copies@.len() ==> (#[trigger] copies@[i])@ == self@[i],
            in_serving_order(self@),
    {
        proof {
            use_type_invariant(self);
        }
        let mut copies: Vec<Lane> = Vec::new();
        let mut left: usize = self.entries.len();
        while left > 0
            invariant
                left <= self.entries@.len(),
                copies@.len() == self.entries@.len() - left,
                forall|i: int| 0 <= i < copies@.len() ==> (#[trigger] copies@[i])@ == from_back(
                    self.entries@,
                )[i],
            decreases left,
        {
            left = left - 1;
            copies.push(self.entries[left].clone());
        }
        copies
    }
}

} // verus!
