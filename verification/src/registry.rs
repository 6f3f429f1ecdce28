use vstd::prelude::*;

verus! {

/// One persisted replay record: a proof digest and the timestamp of the
/// verification that first accepted it.
pub struct ReplayRecord {
    /// The 32-byte digest of the accepted proof blob.
    pub hash: Vec<u8>,
    /// The timestamp passed on the accepting verification call.
    pub timestamp: u64,
}

/// The map a sequence of replay records denotes: each record's digest maps to
/// its timestamp. A later record for the same digest would shadow an earlier
/// one, but a well-formed registry never holds two records with one digest.
pub open spec fn records_map(records: Seq<ReplayRecord>) -> Map<Seq<u8>, u64>
    decreases records.len(),
{
    if records.len() == 0 {
        Map::empty()
    } else {
        records_map(records.drop_last()).insert(records.last().hash@, records.last().timestamp)
    }
}

/// True when no two records carry the same digest.
pub open spec fn distinct_hashes(records: Seq<ReplayRecord>) -> bool {
    forall|i: int, j: int|
        0 <= i < j < records.len() ==> records[i].hash@ != records[j].hash@
}

/// The timestamp recorded for digest `hash` in registry contents `m`, if any.
pub open spec fn timestamp_of(m: Map<Seq<u8>, u64>, hash: Seq<u8>) -> Option<u64> {
    if m.contains_key(hash) {
        Some(m[hash])
    } else {
        None
    }
}

/// The durable anti-replay registry: a mapping from proof digests to the
/// timestamp of first acceptance. A record is written at most once and never
/// updated or removed afterward, so accepted proofs stay auditable.
pub struct ReplayRegistry {
    records: Vec<ReplayRecord>,
}

proof fn lemma_records_map_contains(records: Seq<ReplayRecord>, hash: Seq<u8>)
    ensures
        records_map(records).contains_key(hash) <==> (exists|i: int|
            0 <= i < records.len() && records[i].hash@ == hash),
    decreases records.len(),
{
    if records.len() > 0 {
        lemma_records_map_contains(records.drop_last(), hash);
        if records.last().hash@ == hash {
            assert(records[records.len() - 1].hash@ == hash);
        } else if records_map(records).contains_key(hash) {
            let i = choose|i: int|
                0 <= i < records.drop_last().len() && records.drop_last()[i].hash@ == hash;
            assert(records[i].hash@ == hash);
        } else {
            assert forall|i: int| 0 <= i < records.len() implies records[i].hash@ != hash by {
                if i < records.len() - 1 {
                    assert(records.drop_last()[i].hash@ == records[i].hash@);
                }
            }
        }
    }
}

proof fn lemma_records_map_value(records: Seq<ReplayRecord>, i: int)
    requires
        distinct_hashes(records),
        0 <= i < records.len(),
    ensures
        records_map(records).contains_key(records[i].hash@),
        records_map(records)[records[i].hash@] == records[i].timestamp,
    decreases records.len(),
{
    lemma_records_map_contains(records, records[i].hash@);
    if i < records.len() - 1 {
        assert(records.drop_last()[i] == records[i]);
        lemma_records_map_value(records.drop_last(), i);
        assert(records.last().hash@ != records[i].hash@);
    }
}

impl ReplayRegistry {
    /// Well-formedness: the records carry pairwise distinct digests, so the
    /// registry's map view determines each record uniquely. Constructors
    /// establish this and every method preserves it.
    pub closed spec fn wf(self) -> bool {
        distinct_hashes(self.records@)
    }

    /// An empty registry: no proof has been accepted yet.
    pub fn new() -> (r: Self)
        ensures
            r.wf(),
            r@ == Map::<Seq<u8>, u64>::empty(),
    {
        ReplayRegistry { records: Vec::new() }
    }

    /// Whether a record for digest `hash` is present.
    pub fn is_used(&self, hash: &Vec<u8>) -> (r: bool)
        requires
            self.wf(),
        ensures
            r == self@.contains_key(hash@),
    {
        proof {
            lemma_records_map_contains(self.records@, hash@);
        }
        let n: usize = self.records.len();
        let mut i: usize = 0;
        while i < n
            invariant
                i <= n,
                n == self.records@.len(),
                self@ == records_map(self.records@),
                records_map(self.records@).contains_key(hash@) <==> (exists|k: int|
                    0 <= k < self.records@.len() && self.records@[k].hash@ == hash@),
                forall|j: int| 0 <= j < i ==> self.records@[j].hash@ != hash@,
            decreases n - i,
        {
            if bytes_eq(&self.records[i].hash, hash) {
                return true;
            }
            i += 1;
        }
        false
    }

    /// The timestamp recorded for digest `hash`, if a record is present.
    pub fn usage_timestamp(&self, hash: &Vec<u8>) -> (r: Option<u64>)
        requires
            self.wf(),
        ensures
            r == timestamp_of(self@, hash@),
    {
        proof {
            lemma_records_map_contains(self.records@, hash@);
        }
        let n: usize = self.records.len();
        let mut i: usize = 0;
        while i < n
            invariant
                i <= n,
                n == self.records@.len(),
                self@ == records_map(self.records@),
                self.wf(),
                records_map(self.records@).contains_key(hash@) <==> (exists|k: int|
                    0 <= k < self.records@.len() && self.records@[k].hash@ == hash@),
                forall|j: int| 0 <= j < i ==> self.records@[j].hash@ != hash@,
            decreases n - i,
        {
            if bytes_eq(&self.records[i].hash, hash) {
                proof {
                    lemma_records_map_value(self.records@, i as int);
                }
                return Some(self.records[i].timestamp);
            }
            i += 1;
        }
        None
    }

    /// Stores a record for digest `hash` only if none is present: an existing
    /// record is never updated, so the timestamp of first acceptance is kept.
    pub fn record(&mut self, hash: Vec<u8>, timestamp: u64)
        requires
            old(self).wf(),
        ensures
            final(self).wf(),
            final(self)@ == (if old(self)@.contains_key(hash@) {
                old(self)@
            } else {
                old(self)@.insert(hash@, timestamp)
            }),
    {
        if self.is_used(&hash) {
            return;
        }
        proof {
            lemma_records_map_contains(self.records@, hash@);
        }
        let ghost old_records = self.records@;
        self.records.push(ReplayRecord { hash, timestamp });
        proof {
            assert(self.records@.drop_last() =~= old_records);
        }
    }
}

/// Byte-for-byte equality of two byte vectors.
fn bytes_eq(a: &Vec<u8>, b: &Vec<u8>) -> (r: bool)
    ensures
        r == (a@ == b@),
{
    if a.len() != b.len() {
        return false;
    }
    let n: usize = a.len();
    let mut i: usize = 0;
    while i < n
        invariant
            i <= n,
            n == a@.len(),
            a@.len() == b@.len(),
            forall|j: int| 0 <= j < i ==> a@[j] == b@[j],
        decreases n - i,
    {
        if a[i] != b[i] {
            assert(a@[i as int] != b@[i as int]);
            return false;
        }
        i += 1;
    }
    proof {
        assert(a@ =~= b@);
    }
    true
}

/// Whether a proof with digest `proof_hash` has already been accepted.
pub fn is_proof_used(registry: &ReplayRegistry, proof_hash: &Vec<u8>) -> (r: bool)
    requires
        registry.wf(),
    ensures
        r == registry@.contains_key(proof_hash@),
{
    registry.is_used(proof_hash)
}

/// The timestamp of the verification that first accepted the proof with
/// digest `proof_hash`, if any has.
pub fn get_proof_usage_timestamp(registry: &ReplayRegistry, proof_hash: &Vec<u8>) -> (r: Option<
    u64,
>)
    requires
        registry.wf(),
    ensures
        r == timestamp_of(registry@, proof_hash@),
{
    registry.usage_timestamp(proof_hash)
}

impl View for ReplayRegistry {
    type V = Map<Seq<u8>, u64>;

    /// The registry's contents as a map from proof digest to the timestamp of
    /// first acceptance.
    closed spec fn view(&self) -> Map<Seq<u8>, u64> {
        records_map(self.records@)
    }
}

} // verus!
