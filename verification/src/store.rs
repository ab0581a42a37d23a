//! The store boundary: the two commands that the service sends, the outcomes
//! that come back, and a model of what an atomic store does with the upserts
//! it receives.

use vstd::prelude::*;
use vstd::string::*;
use crate::record::{
    lemma_sequential_upserts, replayed, upserted, Record, RecordState, RETENTION_SECS,
};

verus! {

/// A point lookup by primary key.
#[derive(Clone, Debug, PartialEq, Eq)]
pub struct ReadCommand {
    /// The table that holds the records.
    pub table: String,
    /// The name of the primary-key attribute.
    pub key_attribute: String,
    /// The identifier to look up.
    pub key: String,
    /// The attributes to return.
    pub projection: String,
}

/// One atomic conditional update: add `increment` to `cnt`, overwrite `lst`
/// with `now`, and set `fst` to `now` and `exp` to `exp` only where the
/// record does not have them yet. The store returns the record as it is
/// after the update.
#[derive(Clone, Debug, PartialEq, Eq)]
pub struct UpsertCommand {
    /// The table that holds the records.
    pub table: String,
    /// The name of the primary-key attribute.
    pub key_attribute: String,
    /// The identifier to update.
    pub key: String,
    /// The update, in the store's expression language.
    pub expression: String,
    /// The amount added to the counter.
    pub increment: u64,
    /// Epoch seconds of this upsert.
    pub now: u64,
    /// Epoch seconds at which a record created by this upsert expires.
    pub exp: u64,
}

/// A value bound to a placeholder of an update expression.
#[derive(Clone, Debug, PartialEq, Eq)]
pub struct Binding {
    pub placeholder: String,
    pub value: u64,
}

/// What came back from one round trip to the store.
#[derive(Clone, Debug, PartialEq, Eq)]
pub enum StoreOutcome {
    /// The call failed; the text describes the failure.
    Failed(String),
    /// The store holds, or returned, no record.
    Absent,
    /// The store returned something that is not a record.
    Undecodable,
    /// The store returned this record.
    Present(Record),
}

impl ReadCommand {
    /// Whether this is the lookup of `key`.
    pub open spec fn reads(&self, key: Seq<char>) -> bool {
        &&& self.table@ == "Dedup"@
        &&& self.key_attribute@ == "pk"@
        &&& self.key@ == key
        &&& self.projection@ == "cnt,fst,lst"@
    }
}

impl UpsertCommand {
    /// Whether this is the upsert of `key` at `now`.
    pub open spec fn upserts(&self, key: Seq<char>, now: u64) -> bool {
        &&& self.table@ == "Dedup"@
        &&& self.key_attribute@ == "pk"@
        &&& self.key@ == key
        &&& self.expression@
            == "ADD cnt :cnt SET lst = :now, fst = if_not_exists(fst, :now), exp = if_not_exists(exp, :exp)"@
        &&& self.increment == 1
        &&& self.now == now
        &&& self.exp == now + RETENTION_SECS
    }

    /// What the update makes of the record that the store holds for the key.
    pub open spec fn applied_to(&self, prev: Option<RecordState>) -> RecordState {
        match prev {
            None => RecordState {
                cnt: self.increment as nat,
                fst: self.now as nat,
                lst: self.now as nat,
                exp: self.exp as nat,
            },
            Some(r) => RecordState {
                cnt: r.cnt + self.increment as nat,
                fst: r.fst,
                lst: self.now as nat,
                exp: r.exp,
            },
        }
    }

    /// The values of the expression's placeholders, in the order in which
    /// the expression first names them.
    pub fn bindings(&self) -> (bound: Vec<Binding>)
        ensures
            bound@.len() == 3,
            bound@[0].placeholder@ == ":cnt"@ && bound@[0].value == self.increment,
            bound@[1].placeholder@ == ":now"@ && bound@[1].value == self.now,
            bound@[2].placeholder@ == ":exp"@ && bound@[2].value == self.exp,
    {
        let mut bound: Vec<Binding> = Vec::new();
        bound.push(Binding { placeholder: String::from_str(":cnt"), value: self.increment });
        bound.push(Binding { placeholder: String::from_str(":now"), value: self.now });
        bound.push(Binding { placeholder: String::from_str(":exp"), value: self.exp });
        bound
    }
}

/// One upsert that the store received.
pub struct UpsertEvent {
    pub key: Seq<char>,
    pub now: nat,
}

/// What a store holds for `key`.
pub open spec fn lookup(store: Map<Seq<char>, RecordState>, key: Seq<char>) -> Option<
    RecordState,
> {
    if store.dom().contains(key) {
        Some(store[key])
    } else {
        None
    }
}

/// The store after one atomic upsert.
pub open spec fn store_upsert(store: Map<Seq<char>, RecordState>, key: Seq<char>, now: nat) -> Map<
    Seq<char>,
    RecordState,
> {
    store.insert(key, upserted(lookup(store, key), now))
}

/// The store after it has applied `events`, in this order, starting empty.
pub open spec fn store_after(events: Seq<UpsertEvent>) -> Map<Seq<char>, RecordState>
    decreases events.len(),
{
    if events.len() == 0 {
        Map::empty()
    } else {
        store_upsert(store_after(events.drop_last()), events.last().key, events.last().now)
    }
}

/// The times of the upserts on `key` among `events`, in their order.
pub open spec fn times_for(events: Seq<UpsertEvent>, key: Seq<char>) -> Seq<nat>
    decreases events.len(),
{
    if events.len() == 0 {
        Seq::empty()
    } else if events.last().key == key {
        times_for(events.drop_last(), key).push(events.last().now)
    } else {
        times_for(events.drop_last(), key)
    }
}

/// Whether a record's numbers fit the integers of a response.
pub open spec fn representable(r: RecordState) -> bool {
    r.cnt <= u64::MAX && r.fst <= u64::MAX && r.lst <= u64::MAX
}

/// The fields of a stored record that a client sees.
pub open spec fn projection(r: RecordState) -> Record {
    Record { cnt: r.cnt as u64, fst: r.fst as u64, lst: r.lst as u64 }
}

/// What a working store answers when asked for a record that it holds as
/// `held`, or does not hold.
pub open spec fn answer(held: Option<RecordState>) -> StoreOutcome {
    match held {
        None => StoreOutcome::Absent,
        Some(r) => if representable(r) {
            StoreOutcome::Present(projection(r))
        } else {
            StoreOutcome::Undecodable
        },
    }
}

/// Whatever times a command carries, on a record that exists it leaves the
/// first-seen time and the expiry as they were, sets the last-seen time to
/// its own, and adds its increment to the count.
pub proof fn lemma_command_on_existing_record(cmd: UpsertCommand, prev: RecordState)
    ensures
        cmd.applied_to(Some(prev)).fst == prev.fst,
        cmd.applied_to(Some(prev)).exp == prev.exp,
        cmd.applied_to(Some(prev)).lst == cmd.now,
        cmd.applied_to(Some(prev)).cnt == prev.cnt + cmd.increment,
{
}

/// Keys do not disturb each other: what the store holds for a key is what
/// the upserts on that key alone, in their order, make of a fresh record,
/// whatever was interleaved on other keys.
pub proof fn lemma_store_keeps_keys_apart(events: Seq<UpsertEvent>, key: Seq<char>)
    ensures
        lookup(store_after(events), key) == replayed(None, times_for(events, key)),
    decreases events.len(),
{
    if events.len() > 0 {
        let earlier = events.drop_last();
        lemma_store_keeps_keys_apart(earlier, key);
        if events.last().key == key {
            let times = times_for(events, key);
            assert(times.drop_last() =~= times_for(earlier, key));
            assert(times.last() == events.last().now);
        }
    }
}

/// Every upsert is counted, in whatever order the store applied them and
/// whatever it applied to other keys in between: a key that received `n`
/// upserts, `n` at least one, has a record that counts `n`, was first seen
/// at the first of them and last seen at the last, and expires one retention
/// window after the first.
pub proof fn lemma_store_counts_every_upsert(events: Seq<UpsertEvent>, key: Seq<char>)
    requires
        times_for(events, key).len() >= 1,
    ensures
        lookup(store_after(events), key) matches Some(r) && r.cnt == times_for(events, key).len()
            && r.fst == times_for(events, key)[0] && r.lst == times_for(events, key).last() && r.exp
            == times_for(events, key)[0] + RETENTION_SECS,
{
    lemma_store_keeps_keys_apart(events, key);
    lemma_sequential_upserts(times_for(events, key));
}

/// A key that was never upserted has no record.
pub proof fn lemma_unwritten_key_is_absent(events: Seq<UpsertEvent>, key: Seq<char>)
    requires
        forall|i: int| 0 <= i < events.len() ==> (#[trigger] events[i]).key != key,
    ensures
        lookup(store_after(events), key) is None,
        answer(lookup(store_after(events), key)) == StoreOutcome::Absent,
    decreases events.len(),
{
    if events.len() > 0 {
        let earlier = events.drop_last();
        assert forall|i: int| 0 <= i < earlier.len() implies (#[trigger] earlier[i]).key != key by {
            assert(earlier[i] == events[i]);
        }
        lemma_unwritten_key_is_absent(earlier, key);
        assert(events[events.len() - 1].key != key);
    }
}

} // verus!
