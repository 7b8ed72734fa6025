//! An entry is a link of the chain: an identifier derived from the one before
//! it by a claimed amount of hashing, and by the events stamped into it. The
//! events of an entry cannot be reordered or exchanged without changing the
//! identifier that the entry has to show.
use vstd::prelude::*;
use rayon::iter::{IntoParallelRefIterator, ParallelIterator};
use crate::event::Event;
use crate::hash::{extend_and_hash, hash, mix, sha256};

verus! {

/// What `times` applications of SHA-256, one after the other, make of `start`.
pub open spec fn hash_times(start: Seq<u8>, times: nat) -> Seq<u8>
    decreases times,
{
    if times == 0 {
        start
    } else {
        sha256(hash_times(start, (times - 1) as nat))
    }
}

/// The number of hashes that a claimed count of `num_hashes` stands for when
/// idle: one fewer than claimed, and none for a claim of zero.
pub open spec fn idle_hashes(num_hashes: u64) -> nat {
    if num_hashes >= 1 {
        (num_hashes - 1) as nat
    } else {
        0
    }
}

/// The data of a sequence of events: for each event in order its tag, then
/// its signature.
pub open spec fn events_data(events: Seq<Event>) -> Seq<u8>
    decreases events.len(),
{
    if events.len() == 0 {
        Seq::empty()
    } else {
        events_data(events.drop_last()) + events.last().data()
    }
}

/// The identifier that follows `start` after a claimed `num_hashes` hashes
/// with `events` stamped in: `start` hashed the idle number of times, then
/// mixed with the events' data if there is any.
pub open spec fn chained_id(start: Seq<u8>, num_hashes: u64, events: Seq<Event>) -> Seq<u8> {
    let id = hash_times(start, idle_hashes(num_hashes));
    let data = events_data(events);
    if data.len() > 0 {
        mix(id, data)
    } else {
        id
    }
}

/// One link of the chain.
///
/// `num_hashes` is the number of hashes claimed since the entry before it,
/// `id` is the identifier that those hashes and the events lead to, and
/// `events` are the events stamped in, in their order.
#[derive(Clone, Debug, PartialEq, Eq)]
pub struct Entry {
    pub num_hashes: u64,
    pub id: crate::hash::Hash,
    pub events: Vec<Event>,
}

/// An entry as a mathematical value: the count, the identifier's bytes and
/// the sequence of events.
pub struct EntryView {
    pub num_hashes: u64,
    pub id: Seq<u8>,
    pub events: Seq<Event>,
}

impl View for Entry {
    type V = EntryView;

    open spec fn view(&self) -> EntryView {
        EntryView { num_hashes: self.num_hashes, id: self.id@, events: self.events@ }
    }
}

/// Whether each of `events` carries a signature that holds.
pub open spec fn all_valid(events: Seq<Event>) -> bool {
    forall|i: int| 0 <= i < events.len() ==> (#[trigger] events[i]).valid()
}

impl EntryView {
    /// The entry with no events that claims `num_hashes` hashes and shows
    /// `id`.
    pub open spec fn tick(num_hashes: u64, id: Seq<u8>) -> EntryView {
        EntryView { num_hashes, id, events: Seq::empty() }
    }

    /// The entry with no events that follows `start` after `num_hashes`
    /// hashes.
    pub open spec fn next_tick(start: Seq<u8>, num_hashes: u64) -> EntryView {
        EntryView::tick(num_hashes, chained_id(start, num_hashes, Seq::empty()))
    }

    /// The entry that stamps `events` onto `start` at a time when
    /// `cur_hashes` hashes have been counted: the events count as one hash
    /// more, and the identifier takes in the events alone.
    pub open spec fn created(start: Seq<u8>, cur_hashes: u64, events: Seq<Event>) -> EntryView {
        EntryView {
            num_hashes: if events.len() == 0 {
                cur_hashes
            } else {
                (cur_hashes + 1) as u64
            },
            id: chained_id(start, 0, events),
            events,
        }
    }

    /// Whether the entry is a valid successor of `start`: every event holds,
    /// and the identifier is the one that the count and the events lead to
    /// from `start`.
    pub open spec fn verifies(self, start: Seq<u8>) -> bool {
        &&& all_valid(self.events)
        &&& self.id == chained_id(start, self.num_hashes, self.events)
    }
}

/// Checks every event's own signature, in parallel, with rayon's
/// `par_iter` on the slice and `ParallelIterator::all`, which is true exactly
/// when the predicate holds of every item. The predicate is `Event::verify`.
#[verifier::external_body]
fn all_events_verify(events: &[Event]) -> (ok: bool)
    ensures
        ok == all_valid(events@),
{
    events.par_iter().all(|event| event.verify())
}

impl Entry {
    /// Creates an entry without events from the number of hashes
    /// `num_hashes` since the entry before it and the resulting `id`.
    pub fn new_tick(num_hashes: u64, id: &crate::hash::Hash) -> (entry: Entry)
        ensures
            entry@ == EntryView::tick(num_hashes, id@),
            entry.id == *id,
    {
        Entry { num_hashes, id: *id, events: Vec::new() }
    }

    /// Checks that every event holds and that `self.id` is the result of
    /// hashing `start_hash` the claimed number of times and of mixing in the
    /// events.
    pub fn verify(&self, start_hash: &crate::hash::Hash) -> (ok: bool)
        ensures
            ok == self@.verifies(start_hash@),
    {
        all_events_verify(self.events.as_slice()) && self.id == next_hash(
            start_hash,
            self.num_hashes,
            self.events.as_slice(),
        )
    }
}

/// Appends the data of `event` to `hash_data`.
pub fn add_event_data(hash_data: &mut Vec<u8>, event: &Event)
    ensures
        final(hash_data)@ == old(hash_data)@ + event.data(),
{
    let ghost before = hash_data@;
    match event {
        Event::Transaction(tr) => {
            hash_data.push(0u8);
            hash_data.extend_from_slice(tr.sig.bytes.as_slice());
        },
        Event::Signature { sig, .. } => {
            hash_data.push(1u8);
            hash_data.extend_from_slice(sig.bytes.as_slice());
        },
        Event::Timestamp { sig, .. } => {
            hash_data.push(2u8);
            hash_data.extend_from_slice(sig.bytes.as_slice());
        },
    }
    assert(hash_data@ =~= before + event.data());
}

/// Creates the identifier `num_hashes` after `start_hash`. If there are
/// events, the last step hashes the identifier reached together with their
/// data.
pub fn next_hash(start_hash: &crate::hash::Hash, num_hashes: u64, events: &[Event]) -> (id: crate::hash::Hash)
    ensures
        id@ == chained_id(start_hash@, num_hashes, events@),
{
    let mut id = *start_hash;
    let mut done: u64 = 1;
    while done < num_hashes
        invariant
            1 <= done,
            done <= num_hashes || done == 1,
            id@ == hash_times(start_hash@, (done - 1) as nat),
        decreases num_hashes - done,
    {
        id = hash(id.bytes.as_slice());
        done += 1;
    }

    let mut hash_data: Vec<u8> = Vec::new();
    let mut i: usize = 0;
    while i < events.len()
        invariant
            i <= events@.len(),
            id@ == hash_times(start_hash@, idle_hashes(num_hashes)),
            hash_data@ == events_data(events@.take(i as int)),
        decreases events@.len() - i,
    {
        add_event_data(&mut hash_data, &events[i]);
        proof {
            assert(events@.take(i + 1).drop_last() =~= events@.take(i as int));
        }
        i += 1;
    }
    assert(events@.take(i as int) =~= events@);

    if !hash_data.is_empty() {
        return extend_and_hash(&id, hash_data.as_slice());
    }
    id
}

/// Creates the entry that stamps `events` onto `start_hash` when `cur_hashes`
/// hashes have been counted since the entry before it.
pub fn create_entry(start_hash: &crate::hash::Hash, cur_hashes: u64, events: Vec<Event>) -> (entry: Entry)
    requires
        events@.len() > 0 ==> cur_hashes < u64::MAX,
    ensures
        entry@ == EntryView::created(start_hash@, cur_hashes, events@),
        entry.events == events,
{
    let num_hashes = if events.is_empty() {
        cur_hashes
    } else {
        cur_hashes + 1
    };
    let id = next_hash(start_hash, 0, events.as_slice());
    Entry { num_hashes, id, events }
}

/// Creates the entry that stamps `events` onto `start_hash`, then moves the
/// chain on: `start_hash` becomes the entry's identifier and the count of
/// hashes starts again at zero.
pub fn create_entry_mut(start_hash: &mut crate::hash::Hash, cur_hashes: &mut u64, events: Vec<Event>) -> (entry: Entry)
    requires
        events@.len() > 0 ==> *old(cur_hashes) < u64::MAX,
    ensures
        entry@ == EntryView::created(old(start_hash)@, *old(cur_hashes), events@),
        entry.events == events,
        *final(start_hash) == entry.id,
        *final(cur_hashes) == 0,
{
    let entry = create_entry(start_hash, *cur_hashes, events);
    *start_hash = entry.id;
    *cur_hashes = 0;
    entry
}

/// Creates the entry without events that follows `start_hash` after
/// `num_hashes` hashes.
pub fn next_tick(start_hash: &crate::hash::Hash, num_hashes: u64) -> (entry: Entry)
    ensures
        entry@ == EntryView::next_tick(start_hash@, num_hashes),
{
    let events: Vec<Event> = Vec::new();
    let id = next_hash(start_hash, num_hashes, events.as_slice());
    Entry { num_hashes, id, events }
}

} // verus!
