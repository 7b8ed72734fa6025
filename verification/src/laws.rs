//! What holds of every entry: which starting identifiers a tick verifies
//! against, and that an entry's identifier binds its events, their order and
//! their kinds, up to a collision of SHA-256.
use vstd::prelude::*;
use crate::entry::{all_valid, chained_id, events_data, hash_times, idle_hashes, Entry, EntryView};
use crate::event::Event;
use crate::hash::sha256;

verus! {

/// Two different byte strings with the same SHA-256 digest.
pub open spec fn collide(a: Seq<u8>, b: Seq<u8>) -> bool {
    a != b && sha256(a) == sha256(b)
}

/// Whether the chains of hashes that start at `a` and at `b` meet a collision
/// within their first `times` steps.
pub open spec fn chains_collide(a: Seq<u8>, b: Seq<u8>, times: nat) -> bool {
    exists|k: nat| k < times && collide(#[trigger] hash_times(a, k), hash_times(b, k))
}

/// The bytes that go into the last hash of an entry with events: the
/// identifier reached by idle hashing, then the events' data.
pub open spec fn mixed_input(start: Seq<u8>, num_hashes: u64, events: Seq<Event>) -> Seq<u8> {
    hash_times(start, idle_hashes(num_hashes)) + events_data(events)
}

/// `events` with the events at `i` and `j` exchanged.
pub open spec fn swapped(events: Seq<Event>, i: int, j: int) -> Seq<Event> {
    events.update(i, events[j]).update(j, events[i])
}

/// Every event contributes 65 bytes of data.
pub proof fn lemma_events_data_len(events: Seq<Event>)
    ensures
        events_data(events).len() == 65 * events.len(),
    decreases events.len(),
{
    if events.len() > 0 {
        lemma_events_data_len(events.drop_last());
    }
}

/// The data of the event at `k` stands at byte `65 * k` of the events' data.
pub proof fn lemma_events_data_at(events: Seq<Event>, k: int)
    requires
        0 <= k < events.len(),
    ensures
        65 * k + 65 <= events_data(events).len(),
        events_data(events).subrange(65 * k, 65 * k + 65) == events[k].data(),
    decreases events.len(),
{
    let front = events.drop_last();
    lemma_events_data_len(events);
    lemma_events_data_len(front);
    if k == events.len() - 1 {
        assert(events_data(events).subrange(65 * k, 65 * k + 65) =~= events[k].data());
    } else {
        lemma_events_data_at(front, k);
        assert(events_data(events).subrange(65 * k, 65 * k + 65) =~= events_data(front).subrange(
            65 * k,
            65 * k + 65,
        ));
    }
}

/// Sequences of events of one length that differ in the data of one event
/// differ in their data.
pub proof fn lemma_events_data_differs(a: Seq<Event>, b: Seq<Event>, k: int)
    requires
        a.len() == b.len(),
        0 <= k < a.len(),
        a[k].data() != b[k].data(),
    ensures
        events_data(a) != events_data(b),
{
    lemma_events_data_at(a, k);
    lemma_events_data_at(b, k);
}

/// Where nothing is hashed, nothing collides: a claim of at most one hash
/// stands for no idle hash.
pub proof fn lemma_no_hash_no_collision(a: Seq<u8>, b: Seq<u8>, num_hashes: u64)
    requires
        num_hashes <= 1,
    ensures
        !chains_collide(a, b, idle_hashes(num_hashes)),
{
}

/// Chains of hashes from different starts stay apart for as long as they meet
/// no collision.
pub proof fn lemma_chains_stay_apart(a: Seq<u8>, b: Seq<u8>, times: nat)
    requires
        a != b,
        !chains_collide(a, b, times),
    ensures
        hash_times(a, times) != hash_times(b, times),
    decreases times,
{
    if times > 0 {
        let before = (times - 1) as nat;
        assert(!chains_collide(a, b, before)) by {
            if chains_collide(a, b, before) {
                let k = choose|k: nat| k < before && collide(#[trigger] hash_times(a, k), hash_times(b, k));
                assert(k < times && collide(hash_times(a, k), hash_times(b, k)));
            }
        }
        lemma_chains_stay_apart(a, b, before);
        assert(!collide(hash_times(a, before), hash_times(b, before)));
    }
}

/// An entry without events that claims no hashes verifies against the
/// identifier it shows, and against no other.
pub proof fn lemma_tick_zero(start: crate::hash::Hash, other: crate::hash::Hash)
    ensures
        EntryView::tick(0, start@).verifies(start@),
        other != start ==> !EntryView::tick(0, start@).verifies(other@),
{
    crate::hash::Hash::lemma_view_injective(start, other);
}

/// The tick that follows `start` after `num_hashes >= 1` hashes verifies
/// against `start`.
pub proof fn lemma_next_tick_verifies(start: crate::hash::Hash, num_hashes: u64)
    requires
        num_hashes >= 1,
    ensures
        EntryView::next_tick(start@, num_hashes).verifies(start@),
{
}

/// The tick that follows `start` after `num_hashes >= 1` hashes fails against
/// every other identifier, as long as the two chains of idle hashes meet no
/// collision of SHA-256.
pub proof fn lemma_next_tick_rejects_other(
    start: crate::hash::Hash,
    other: crate::hash::Hash,
    num_hashes: u64,
)
    requires
        num_hashes >= 1,
        other != start,
        !chains_collide(start@, other@, idle_hashes(num_hashes)),
    ensures
        !EntryView::next_tick(start@, num_hashes).verifies(other@),
{
    crate::hash::Hash::lemma_view_injective(start, other);
    lemma_chains_stay_apart(start@, other@, idle_hashes(num_hashes));
}

/// Two non-empty sequences of events with different data lead from one start
/// and one count to different identifiers, unless the last hash collides.
pub proof fn lemma_chained_id_binds_data(start: Seq<u8>, num_hashes: u64, a: Seq<Event>, b: Seq<Event>)
    requires
        a.len() > 0,
        b.len() > 0,
        events_data(a) != events_data(b),
        !collide(mixed_input(start, num_hashes, a), mixed_input(start, num_hashes, b)),
    ensures
        chained_id(start, num_hashes, a) != chained_id(start, num_hashes, b),
{
    let id = hash_times(start, idle_hashes(num_hashes));
    lemma_events_data_len(a);
    lemma_events_data_len(b);
    let x = id + events_data(a);
    let y = id + events_data(b);
    if x == y {
        assert(events_data(a) =~= x.subrange(id.len() as int, x.len() as int));
        assert(events_data(b) =~= y.subrange(id.len() as int, y.len() as int));
    }
}

/// Exchanging two events that differ in tag or signature makes a verified
/// entry fail, as long as the last hash does not collide on the two orders.
pub proof fn lemma_reorder_detected(entry: EntryView, start: crate::hash::Hash, i: int, j: int)
    requires
        entry.verifies(start@),
        0 <= i < entry.events.len(),
        0 <= j < entry.events.len(),
        entry.events[i].data() != entry.events[j].data(),
        !collide(
            mixed_input(start@, entry.num_hashes, entry.events),
            mixed_input(start@, entry.num_hashes, swapped(entry.events, i, j)),
        ),
    ensures
        !(EntryView { events: swapped(entry.events, i, j), ..entry }).verifies(start@),
{
    let moved = swapped(entry.events, i, j);
    lemma_events_data_differs(entry.events, moved, i);
    lemma_chained_id_binds_data(start@, entry.num_hashes, entry.events, moved);
}

/// Putting an event of another kind in the place of one makes a verified
/// entry fail, whatever signature the new event carries and though that
/// signature holds, as long as the last hash does not collide on the two
/// sequences.
pub proof fn lemma_substitution_detected(entry: EntryView, start: crate::hash::Hash, i: int, other: Event)
    requires
        entry.verifies(start@),
        0 <= i < entry.events.len(),
        other.tag() != entry.events[i].tag(),
        other.valid(),
        !collide(
            mixed_input(start@, entry.num_hashes, entry.events),
            mixed_input(start@, entry.num_hashes, entry.events.update(i, other)),
        ),
    ensures
        all_valid(entry.events.update(i, other)),
        !(EntryView { events: entry.events.update(i, other), ..entry }).verifies(start@),
{
    let changed = entry.events.update(i, other);
    assert(other.data()[0] == other.tag());
    assert(entry.events[i].data()[0] == entry.events[i].tag());
    lemma_events_data_differs(entry.events, changed, i);
    lemma_chained_id_binds_data(start@, entry.num_hashes, entry.events, changed);
}

/// The identifier that `next_hash` derives depends on nothing but the bytes
/// of the start, the count, and the tags and signatures of the events in
/// their order.
pub proof fn lemma_next_hash_deterministic(
    start: crate::hash::Hash,
    again: crate::hash::Hash,
    num_hashes: u64,
    events: Seq<Event>,
    others: Seq<Event>,
)
    requires
        start@ == again@,
        events.len() == others.len(),
        forall|k: int| 0 <= k < events.len() ==> events[k].data() == others[k].data(),
    ensures
        chained_id(start@, num_hashes, events) == chained_id(again@, num_hashes, others),
{
    lemma_events_data_same(events, others);
}

/// Sequences of events that agree in every tag and signature have the same
/// data.
pub proof fn lemma_events_data_same(a: Seq<Event>, b: Seq<Event>)
    requires
        a.len() == b.len(),
        forall|k: int| 0 <= k < a.len() ==> a[k].data() == b[k].data(),
    ensures
        events_data(a) == events_data(b),
    decreases a.len(),
{
    if a.len() > 0 {
        lemma_events_data_same(a.drop_last(), b.drop_last());
    }
}

/// The verdict of `Entry::verify` depends on nothing but the fields of the
/// entry and the bytes of the start: asked again, it answers the same.
pub proof fn lemma_verify_deterministic(
    entry: Entry,
    again: Entry,
    start: crate::hash::Hash,
    start_again: crate::hash::Hash,
)
    requires
        entry@ == again@,
        start@ == start_again@,
    ensures
        entry@.verifies(start@) == again@.verifies(start_again@),
{
}

} // verus!
