//! The counter record and the rule by which an upsert creates or advances it.

use vstd::prelude::*;
use vstd::string::*;

verus! {

/// Seconds a record is retained after its creation: 365 days.
pub const RETENTION_SECS: u64 = 31_536_000;

/// The client-visible projection of a stored record.
#[derive(Clone, Copy, Debug, PartialEq, Eq, Structural)]
pub struct Record {
    /// Upserts observed for the key.
    pub cnt: u64,
    /// Epoch seconds of the upsert that created the record.
    pub fst: u64,
    /// Epoch seconds of the most recent upsert.
    pub lst: u64,
}

/// What the store holds for one key, in unbounded integers.
pub struct RecordState {
    pub cnt: nat,
    pub fst: nat,
    pub lst: nat,
    pub exp: nat,
}

/// The record that the first upsert at `now` creates.
pub open spec fn created(now: nat) -> RecordState {
    RecordState { cnt: 1, fst: now, lst: now, exp: (now + RETENTION_SECS) as nat }
}

/// The record that a later upsert at `now` makes of `prev`: one more
/// observation and a new last-seen time; first-seen time and expiry stay.
pub open spec fn advanced(prev: RecordState, now: nat) -> RecordState {
    RecordState { cnt: (prev.cnt + 1) as nat, fst: prev.fst, lst: now, exp: prev.exp }
}

/// The atomic increment-or-initialize rule.
pub open spec fn upserted(prev: Option<RecordState>, now: nat) -> RecordState {
    match prev {
        None => created(now),
        Some(r) => advanced(r, now),
    }
}

/// The invariants of a stored record.
pub open spec fn well_formed(r: RecordState) -> bool {
    &&& r.cnt >= 1
    &&& r.fst <= r.lst
    &&& r.exp == r.fst + RETENTION_SECS
}

/// What `prev` becomes when upserts at `times` are applied one after another.
pub open spec fn replayed(prev: Option<RecordState>, times: Seq<nat>) -> Option<RecordState>
    decreases times.len(),
{
    if times.len() == 0 {
        prev
    } else {
        Some(upserted(replayed(prev, times.drop_last()), times.last()))
    }
}

/// The persisted entity: one record per key.
#[derive(Clone, Debug, PartialEq, Eq)]
pub struct DedupRecord {
    /// The validated identifier.
    pub key: String,
    /// Upserts observed for the key.
    pub cnt: u64,
    /// Epoch seconds of the upsert that created the record.
    pub fst: u64,
    /// Epoch seconds of the most recent upsert.
    pub lst: u64,
    /// Epoch seconds after which the store may delete the record.
    pub exp: u64,
}

impl DedupRecord {
    /// The record's counters and times as unbounded integers.
    pub open spec fn state(&self) -> RecordState {
        RecordState {
            cnt: self.cnt as nat,
            fst: self.fst as nat,
            lst: self.lst as nat,
            exp: self.exp as nat,
        }
    }

    /// The record's invariants.
    pub open spec fn wf(&self) -> bool {
        well_formed(self.state())
    }

    /// Applies one upsert at `now` for `key` to what the store holds for that
    /// key: creates the record when there is none, advances it otherwise.
    pub fn upsert(existing: Option<DedupRecord>, key: &str, now: u64) -> (r: DedupRecord)
        requires
            existing is None ==> now + RETENTION_SECS <= u64::MAX,
            existing matches Some(e) ==> e.key@ == key@ && e.cnt < u64::MAX,
        ensures
            r.key@ == key@,
            r.state() == upserted(
                match existing {
                    Some(e) => Some(e.state()),
                    None => None,
                },
                now as nat,
            ),
            (existing matches Some(e) ==> e.wf() && e.fst <= now) ==> r.wf(),
    {
        match existing {
            None => DedupRecord {
                key: String::from_str(key),
                cnt: 1,
                fst: now,
                lst: now,
                exp: now + RETENTION_SECS,
            },
            Some(e) => DedupRecord { key: e.key, cnt: e.cnt + 1, fst: e.fst, lst: now, exp: e.exp },
        }
    }

    /// The fields that a client sees: everything but the key and the expiry.
    pub fn project(&self) -> (r: Record)
        ensures
            r == (Record { cnt: self.cnt, fst: self.fst, lst: self.lst }),
    {
        Record { cnt: self.cnt, fst: self.fst, lst: self.lst }
    }
}

/// One upsert on a fresh key creates a record that counts one observation,
/// first and last seen at the same time, expiring one retention window later.
pub proof fn lemma_first_upsert(now: nat)
    ensures
        upserted(None, now).cnt == 1,
        upserted(None, now).fst == now,
        upserted(None, now).lst == now,
        upserted(None, now).exp == now + RETENTION_SECS,
        well_formed(upserted(None, now)),
{
}

/// An upsert on an existing record adds one observation and moves the
/// last-seen time; the first-seen time and the expiry never change. The
/// record stays well formed when the clock has not gone back behind the
/// first-seen time.
pub proof fn lemma_later_upsert(prev: RecordState, now: nat)
    ensures
        upserted(Some(prev), now).cnt == prev.cnt + 1,
        upserted(Some(prev), now).fst == prev.fst,
        upserted(Some(prev), now).lst == now,
        upserted(Some(prev), now).exp == prev.exp,
        well_formed(prev) && prev.fst <= now ==> well_formed(upserted(Some(prev), now)),
{
}

/// `n` upserts on a fresh key, one after another, leave a record that counts
/// `n`, was first seen at the first upsert's time and last seen at the last
/// one's, and expires one retention window after the first.
pub proof fn lemma_sequential_upserts(times: Seq<nat>)
    requires
        times.len() >= 1,
    ensures
        replayed(None, times) matches Some(r) && r.cnt == times.len() && r.fst == times[0] && r.lst
            == times.last() && r.exp == times[0] + RETENTION_SECS,
    decreases times.len(),
{
    let earlier = times.drop_last();
    if times.len() > 1 {
        lemma_sequential_upserts(earlier);
        assert(earlier[0] == times[0]);
    } else {
        assert(replayed(None, earlier) == None::<RecordState>);
    }
    assert(replayed(None, times) == Some(upserted(replayed(None, earlier), times.last())));
}

/// After upserts on a fresh key the record is well formed exactly when the
/// last upsert's time is not before the first one's: the count and the expiry
/// are right whatever the clock did, and the first-seen time is not after the
/// last-seen time unless the clock went back behind it.
pub proof fn lemma_sequential_upserts_well_formed(times: Seq<nat>)
    requires
        times.len() >= 1,
    ensures
        replayed(None, times) matches Some(r) && (well_formed(r) <==> times[0] <= times.last()),
{
    lemma_sequential_upserts(times);
}

/// Further upserts on an existing record leave its first-seen time and its
/// expiry as they were, and add one observation each.
pub proof fn lemma_expiry_is_fixed(prev: RecordState, times: Seq<nat>)
    ensures
        replayed(Some(prev), times) matches Some(r) && r.exp == prev.exp && r.fst == prev.fst
            && r.cnt == prev.cnt + times.len(),
    decreases times.len(),
{
    if times.len() > 0 {
        let earlier = times.drop_last();
        lemma_expiry_is_fixed(prev, earlier);
        assert(replayed(Some(prev), times) == Some(
            upserted(replayed(Some(prev), earlier), times.last()),
        ));
    }
}

/// No update is lost: in whatever order the store applies `n` upserts that
/// were issued for one key at the same time, the record counts `n`, and its
/// expiry is that of whichever upsert came first.
pub proof fn lemma_concurrent_upserts_all_counted(issued: Seq<nat>, applied: Seq<nat>)
    requires
        issued.len() >= 1,
        applied.to_multiset() == issued.to_multiset(),
    ensures
        replayed(None, applied) matches Some(r) && r.cnt == issued.len() && r.exp == applied[0]
            + RETENTION_SECS,
{
    issued.to_multiset_ensures();
    applied.to_multiset_ensures();
    lemma_sequential_upserts(applied);
}

} // verus!
