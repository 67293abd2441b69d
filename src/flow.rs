use vstd::prelude::*;
use vstd::rwlock::{RwLock, RwLockPredicate};
use std::sync::Arc;
use crate::pkt_parser::Protocol;

verus! {

/// What the table keeps of one flow.
#[derive(Debug, Clone, Copy, PartialEq, Eq, Structural)]
pub struct FlowAggregate {
    /// The transport protocol last seen on the flow.
    pub protocol: Protocol,
    /// The payload bytes seen on the flow.
    pub bytes: u64,
    /// The earliest timestamp seen, in microseconds.
    pub first: u64,
    /// The latest timestamp seen, in microseconds.
    pub last: u64,
}

/// A flow is named by the peer's address, as rendered text, and the peer's port.
pub type FlowKey = (Seq<char>, u16);

/// `a + b`, or the largest `u64` where the sum does not fit.
pub open spec fn sat_add(a: u64, b: u64) -> u64 {
    if a as int + b as int > u64::MAX as int {
        u64::MAX
    } else {
        (a + b) as u64
    }
}

pub open spec fn min_u64(a: u64, b: u64) -> u64 {
    if a <= b {
        a
    } else {
        b
    }
}

pub open spec fn max_u64(a: u64, b: u64) -> u64 {
    if a >= b {
        a
    } else {
        b
    }
}

/// The aggregate of a flow after one more packet: a new flow starts at the packet's
/// timestamp; a known one adds the bytes, widens its time span to the timestamp and
/// takes the packet's protocol.
pub open spec fn merged(prev: Option<FlowAggregate>, protocol: Protocol, bytes: u64, ts: u64) -> FlowAggregate {
    match prev {
        None => FlowAggregate { protocol, bytes, first: ts, last: ts },
        Some(a) => FlowAggregate {
            protocol,
            bytes: sat_add(a.bytes, bytes),
            first: min_u64(a.first, ts),
            last: max_u64(a.last, ts),
        },
    }
}

/// What a map holds under a key, if anything.
pub open spec fn lookup(m: Map<FlowKey, FlowAggregate>, k: FlowKey) -> Option<FlowAggregate> {
    if m.contains_key(k) {
        Some(m[k])
    } else {
        None
    }
}

/// The map after one packet of `bytes` at `ts` on flow `k`.
pub open spec fn merge_into(
    m: Map<FlowKey, FlowAggregate>,
    k: FlowKey,
    protocol: Protocol,
    bytes: u64,
    ts: u64,
) -> Map<FlowKey, FlowAggregate> {
    m.insert(k, merged(lookup(m, k), protocol, bytes, ts))
}

/// Every aggregate spans a time from its first to its last timestamp.
pub open spec fn spans_ok(m: Map<FlowKey, FlowAggregate>) -> bool {
    forall|k: FlowKey| #[trigger] m.contains_key(k) ==> m[k].first <= m[k].last
}

/// One flow and its aggregate.
#[derive(Debug, Clone)]
pub struct FlowEntry {
    pub address: String,
    pub port: u16,
    pub aggregate: FlowAggregate,
}

impl FlowEntry {
    pub open spec fn key(&self) -> FlowKey {
        (self.address@, self.port)
    }
}

/// The flows seen so far, in the order in which each was first seen.
pub struct FlowMap {
    entries: Vec<FlowEntry>,
    contents: Ghost<Map<FlowKey, FlowAggregate>>,
}

impl View for FlowMap {
    type V = Map<FlowKey, FlowAggregate>;

    closed spec fn view(&self) -> Map<FlowKey, FlowAggregate> {
        self.contents@
    }
}

impl FlowMap {
    /// The entries, in the order in which their flows were first seen.
    pub closed spec fn entries_view(&self) -> Seq<FlowEntry> {
        self.entries@
    }

    /// Each flow stands in one entry; the entries are the map; every time span is ordered.
    pub closed spec fn wf(&self) -> bool {
        &&& forall|i: int, j: int|
            0 <= i < j < self.entries@.len() ==> #[trigger] self.entries@[i].key()
                != #[trigger] self.entries@[j].key()
        &&& forall|i: int|
            0 <= i < self.entries@.len() ==> #[trigger] self.contents@.contains_key(
                self.entries@[i].key(),
            ) && self.contents@[self.entries@[i].key()] == self.entries@[i].aggregate
        &&& forall|k: FlowKey| #[trigger]
            self.contents@.contains_key(k) ==> exists|i: int|
                0 <= i < self.entries@.len() && #[trigger] self.entries@[i].key() == k
        &&& spans_ok(self.contents@)
    }

    pub fn new() -> (r: FlowMap)
        ensures
            r.wf(),
            r@ == Map::<FlowKey, FlowAggregate>::empty(),
    {
        FlowMap { entries: Vec::new(), contents: Ghost(Map::empty()) }
    }

    /// The number of flows.
    pub fn len(&self) -> (r: usize)
        requires
            self.wf(),
        ensures
            r == self.entries_view().len(),
            r == self@.len(),
    {
        proof {
            self.lemma_len();
        }
        self.entries.len()
    }

    proof fn lemma_len(&self)
        requires
            self.wf(),
        ensures
            self@.len() == self.entries@.len(),
            self@.dom().finite(),
    {
        let keys = Seq::new(self.entries@.len(), |i: int| self.entries@[i].key());
        assert(keys.no_duplicates());
        assert forall|k: FlowKey| #[trigger] self@.dom().contains(k) implies keys.to_set().contains(
            k,
        ) by {
            let i = choose|i: int|
                0 <= i < self.entries@.len() && #[trigger] self.entries@[i].key() == k;
            assert(keys[i] == k);
        }
        assert forall|k: FlowKey| #[trigger] keys.to_set().contains(k) implies self@.dom().contains(
            k,
        ) by {
            let i = choose|i: int| 0 <= i < keys.len() && keys[i] == k;
            assert(self.entries@[i].key() == k);
        }
        assert(self@.dom() =~= keys.to_set());
        keys.unique_seq_to_set();
    }

    /// The entry at `i`, in the order in which the flows were first seen.
    pub fn entry(&self, i: usize) -> (r: FlowEntry)
        requires
            self.wf(),
            i < self.entries_view().len(),
        ensures
            r.key() == self.entries_view()[i as int].key(),
            r.aggregate == self.entries_view()[i as int].aggregate,
            self@.contains_key(r.key()),
            self@[r.key()] == r.aggregate,
    {
        let e = &self.entries[i];
        FlowEntry { address: e.address.clone(), port: e.port, aggregate: e.aggregate }
    }

    /// Where the flow stands among the entries, if it does.
    fn position(&self, address: &String, port: u16) -> (r: Option<usize>)
        requires
            self.wf(),
        ensures
            r is None ==> !self@.contains_key((address@, port)),
            r matches Some(i) ==> i < self.entries@.len() && self.entries@[i as int].key() == (
            address@, port),
    {
        let mut i: usize = 0;
        while i < self.entries.len()
            invariant
                self.wf(),
                i <= self.entries@.len(),
                forall|j: int| 0 <= j < i ==> #[trigger] self.entries@[j].key() != (address@, port),
            decreases self.entries@.len() - i,
        {
            if self.entries[i].port == port && self.entries[i].address == *address {
                return Some(i);
            }
            i = i + 1;
        }
        None
    }

    /// The aggregate of a flow, if it has been seen.
    pub fn get(&self, address: &String, port: u16) -> (r: Option<FlowAggregate>)
        requires
            self.wf(),
        ensures
            r == lookup(self@, (address@, port)),
    {
        match self.position(address, port) {
            Some(i) => Some(self.entries[i].aggregate),
            None => None,
        }
    }

    /// Counts one more packet of `bytes` at `ts` on the flow `(address, port)`.
    ///
    /// Nothing else changes; no flow is lost, no count of bytes goes down, and every time
    /// span stays ordered.
    pub fn merge(&mut self, address: String, port: u16, protocol: Protocol, bytes: u64, ts: u64)
        requires
            old(self).wf(),
        ensures
            final(self).wf(),
            final(self)@ == merge_into(old(self)@, (address@, port), protocol, bytes, ts),
            forall|k: FlowKey| #[trigger]
                old(self)@.contains_key(k) ==> final(self)@.contains_key(k) && old(self)@[k].bytes
                    <= final(self)@[k].bytes && final(self)@[k].first <= old(self)@[k].first
                    && old(self)@[k].last <= final(self)@[k].last,
    {
        let ghost k = (address@, port);
        let ghost m0 = self@;
        match self.position(&address, port) {
            Some(i) => {
                let a = self.entries[i].aggregate;
                let total = if a.bytes > u64::MAX - bytes {
                    u64::MAX
                } else {
                    a.bytes + bytes
                };
                let first = if a.first <= ts {
                    a.first
                } else {
                    ts
                };
                let last = if a.last >= ts {
                    a.last
                } else {
                    ts
                };
                let agg = FlowAggregate { protocol, bytes: total, first, last };
                assert(agg == merged(lookup(m0, k), protocol, bytes, ts));
                let e = FlowEntry { address, port, aggregate: agg };
                self.entries.set(i, e);
                self.contents = Ghost(merge_into(m0, k, protocol, bytes, ts));
                assert forall|k2: FlowKey| #[trigger]
                    self.contents@.contains_key(k2) implies exists|j: int|
                        0 <= j < self.entries@.len() && #[trigger] self.entries@[j].key() == k2 by {
                    if k2 != k {
                        let j = choose|j: int|
                            0 <= j < old(self).entries@.len() && #[trigger] old(
                                self,
                            ).entries@[j].key() == k2;
                        assert(self.entries@[j].key() == k2);
                    } else {
                        assert(self.entries@[i as int].key() == k2);
                    }
                }
            },
            None => {
                let agg = FlowAggregate { protocol, bytes, first: ts, last: ts };
                let e = FlowEntry { address, port, aggregate: agg };
                self.entries.push(e);
                self.contents = Ghost(merge_into(m0, k, protocol, bytes, ts));
                let n = self.entries.len() - 1;
                assert forall|k2: FlowKey| #[trigger]
                    self.contents@.contains_key(k2) implies exists|j: int|
                        0 <= j < self.entries@.len() && #[trigger] self.entries@[j].key() == k2 by {
                    if k2 != k {
                        let j = choose|j: int|
                            0 <= j < old(self).entries@.len() && #[trigger] old(
                                self,
                            ).entries@[j].key() == k2;
                        assert(self.entries@[j].key() == k2);
                    } else {
                        assert(self.entries@[n as int].key() == k2);
                    }
                }
            },
        }
    }
}

impl FlowMap {
    /// A copy of the map that shares nothing with it.
    pub fn copy(&self) -> (r: FlowMap)
        requires
            self.wf(),
        ensures
            r.wf(),
            r@ == self@,
            r.entries_view().len() == self.entries_view().len(),
            forall|i: int|
                0 <= i < self.entries_view().len() ==> #[trigger] r.entries_view()[i].key()
                    == self.entries_view()[i].key() && r.entries_view()[i].aggregate
                    == self.entries_view()[i].aggregate,
    {
        let mut entries: Vec<FlowEntry> = Vec::new();
        let mut i: usize = 0;
        while i < self.entries.len()
            invariant
                self.wf(),
                i <= self.entries@.len(),
                entries@.len() == i,
                forall|j: int|
                    0 <= j < i ==> #[trigger] entries@[j].key() == self.entries@[j].key()
                        && entries@[j].aggregate == self.entries@[j].aggregate,
            decreases self.entries@.len() - i,
        {
            let e = &self.entries[i];
            entries.push(FlowEntry { address: e.address.clone(), port: e.port, aggregate: e.aggregate });
            i = i + 1;
        }
        let r = FlowMap { entries, contents: Ghost(self@) };
        assert forall|a: int, b: int| 0 <= a < b < r.entries@.len() implies #[trigger] r.entries@[a].key()
            != #[trigger] r.entries@[b].key() by {
            assert(self.entries@[a].key() != self.entries@[b].key());
        }
        assert forall|a: int| 0 <= a < r.entries@.len() implies #[trigger] r@.contains_key(
            r.entries@[a].key(),
        ) && r@[r.entries@[a].key()] == r.entries@[a].aggregate by {
            assert(self@.contains_key(self.entries@[a].key()));
        }
        assert forall|k: FlowKey| #[trigger] r@.contains_key(k) implies exists|j: int|
            0 <= j < r.entries@.len() && #[trigger] r.entries@[j].key() == k by {
            let j = choose|j: int| 0 <= j < self.entries@.len() && #[trigger] self.entries@[j].key() == k;
            assert(r.entries@[j].key() == k);
        }
        r
    }
}

/// The lock keeps the map well formed.
pub struct FlowMapWf;

impl RwLockPredicate<FlowMap> for FlowMapWf {
    open spec fn inv(self, v: FlowMap) -> bool {
        v.wf()
    }
}

/// The flow table shared by the tasks of a capture: a handle on a map under a lock.
///
/// Clones of a table are handles on the same map. Each merge and each snapshot holds the
/// lock for that one step, so no update is lost and every snapshot is well formed.
#[derive(Clone)]
pub struct FlowTable {
    inner: Arc<RwLock<FlowMap, FlowMapWf>>,
}

impl FlowTable {
    #[verifier::type_invariant]
    closed spec fn guarded(&self) -> bool {
        self.inner.pred() == FlowMapWf
    }

    pub fn new() -> (r: FlowTable) {
        let lock = RwLock::new(FlowMap::new(), Ghost(FlowMapWf));
        FlowTable { inner: Arc::new(lock) }
    }

    /// Counts one more packet on a flow, under the lock; see `FlowMap::merge`.
    pub fn merge(&self, address: String, port: u16, protocol: Protocol, bytes: u64, ts: u64) {
        proof {
            use_type_invariant(self);
        }
        let (mut m, handle) = self.inner.acquire_write();
        m.merge(address, port, protocol, bytes, ts);
        handle.release_write(m);
    }

    /// A copy of the whole table, taken under the lock; later merges do not change it.
    pub fn snapshot(&self) -> (r: FlowMap)
        ensures
            r.wf(),
    {
        proof {
            use_type_invariant(self);
        }
        let handle = self.inner.acquire_read();
        let r = handle.borrow().copy();
        handle.release_read();
        r
    }
}

/// One packet for the table: its flow, protocol, payload bytes and timestamp.
pub type FlowUpdate = (FlowKey, Protocol, u64, u64);

/// The map after the updates, applied in order.
pub open spec fn merge_all(m: Map<FlowKey, FlowAggregate>, ups: Seq<FlowUpdate>) -> Map<
    FlowKey,
    FlowAggregate,
>
    decreases ups.len(),
{
    if ups.len() == 0 {
        m
    } else {
        let u = ups.last();
        merge_into(merge_all(m, ups.drop_last()), u.0, u.1, u.2, u.3)
    }
}

/// The bytes of the updates that go to flow `k`.
pub open spec fn bytes_sent_to(ups: Seq<FlowUpdate>, k: FlowKey) -> int
    decreases ups.len(),
{
    if ups.len() == 0 {
        0
    } else {
        bytes_sent_to(ups.drop_last(), k) + if ups.last().0 == k {
            ups.last().2 as int
        } else {
            0
        }
    }
}

/// One merge keeps every time span ordered, keeps every flow, and lowers no count of
/// bytes.
pub proof fn lemma_merge_keeps_spans_and_counts(
    m: Map<FlowKey, FlowAggregate>,
    k: FlowKey,
    protocol: Protocol,
    bytes: u64,
    ts: u64,
)
    requires
        spans_ok(m),
    ensures
        spans_ok(merge_into(m, k, protocol, bytes, ts)),
        forall|k2: FlowKey| #[trigger]
            m.contains_key(k2) ==> merge_into(m, k, protocol, bytes, ts).contains_key(k2)
                && m[k2].bytes <= merge_into(m, k, protocol, bytes, ts)[k2].bytes,
{
}

/// No update is lost: after any sequence of merges into an empty table, in whatever
/// order they came, a flow is in the table exactly when some update went to it, and its
/// bytes are the sum of the bytes of those updates, where that sum fits in a `u64`.
pub proof fn lemma_no_lost_updates(ups: Seq<FlowUpdate>, k: FlowKey)
    requires
        bytes_sent_to(ups, k) <= u64::MAX,
    ensures
        merge_all(Map::empty(), ups).contains_key(k) <==> exists|i: int|
            0 <= i < ups.len() && (#[trigger] ups[i]).0 == k,
        merge_all(Map::empty(), ups).contains_key(k) ==> merge_all(Map::empty(), ups)[k].bytes
            == bytes_sent_to(ups, k),
        !merge_all(Map::empty(), ups).contains_key(k) ==> bytes_sent_to(ups, k) == 0,
    decreases ups.len(),
{
    if ups.len() > 0 {
        let prev = ups.drop_last();
        lemma_no_lost_updates(prev, k);
        if exists|i: int| 0 <= i < prev.len() && (#[trigger] prev[i]).0 == k {
            let i = choose|i: int| 0 <= i < prev.len() && (#[trigger] prev[i]).0 == k;
            assert(ups[i].0 == k);
        }
        if exists|i: int| 0 <= i < ups.len() && (#[trigger] ups[i]).0 == k {
            let i = choose|i: int| 0 <= i < ups.len() && (#[trigger] ups[i]).0 == k;
            if i < prev.len() {
                assert(prev[i].0 == k);
            }
        }
    }
}

} // verus!
