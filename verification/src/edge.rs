//! The `Proof` edge: a directed, provenance-tagged link between two
//! identities asserting common ownership.

use vstd::prelude::*;

use crate::error::Error;
use crate::graph::Edge;
use crate::store::{
    GraphStore, IdentityRecord, ProofRecord, connect_effect, has_key, is_first_proof_match,
    is_first_proof_uuid_match, no_proof_match, no_proof_uuid_match, opt_str_view,
    proof_query_match, same_dedup_tuple,
};
use crate::upstream::{DataSource, str_eq};
use crate::util::{new_uuid, now_timestamp};

verus! {

/// Edge data connecting two `Identity` vertices, directed from the proof's
/// origin to its target.
#[derive(Debug)]
pub struct Proof {
    /// UUID of this record, assigned by this system.
    pub uuid: u128,
    /// The upstream service that asserted this link.
    pub source: DataSource,
    /// Identifier of the asserting record at the source, if any.
    pub record_id: Option<String>,
    /// Upstream-reported assertion time (seconds since the epoch), if any.
    pub created_at: Option<i64>,
    /// When this fact was last observed by this system.
    pub last_fetched_at: i64,
}

impl Clone for Proof {
    fn clone(&self) -> (r: Self)
        ensures
            r == *self,
    {
        Proof {
            uuid: self.uuid,
            source: self.source,
            record_id: match &self.record_id {
                Some(s) => Some(s.clone()),
                None => None,
            },
            created_at: self.created_at,
            last_fetched_at: self.last_fetched_at,
        }
    }
}

impl Default for Proof {
    /// A blank proof: fresh UUID, `NextID` provenance, no record id, no
    /// upstream creation time, fetched now.
    fn default() -> (r: Self)
        ensures
            r.source == DataSource::NextID,
            r.record_id is None,
            r.created_at is None,
    {
        Proof {
            uuid: new_uuid(),
            source: DataSource::NextID,
            record_id: None,
            created_at: None,
            last_fetched_at: now_timestamp(),
        }
    }
}

impl Edge<IdentityRecord, IdentityRecord, ProofRecord> for Proof {
    open spec fn uuid_of(&self) -> Option<u128> {
        Some(self.uuid)
    }

    /// Connecting asks that both endpoint records stand in the store.
    open spec fn connect_pre(pre: GraphStore, from: IdentityRecord, to: IdentityRecord) -> bool {
        has_key(pre.identities@, from.key) && has_key(pre.identities@, to.key)
    }

    /// Connecting returns the first edge matching the dedup query
    /// unchanged, or inserts a new directed edge carrying this proof's
    /// data under a fresh store key.
    open spec fn connect_post(
        &self,
        pre: GraphStore,
        post: GraphStore,
        rec: ProofRecord,
        from: IdentityRecord,
        to: IdentityRecord,
    ) -> bool {
        connect_effect(pre, post, rec, *self, from.key, to.key)
    }

    /// A lookup returns the first edge carrying the UUID, or `None` when
    /// no edge does.
    open spec fn find_post(store: GraphStore, uuid: u128, found: Option<ProofRecord>) -> bool {
        match found {
            Some(rec) => is_first_proof_uuid_match(store.proofs@, rec, uuid),
            None => no_proof_uuid_match(store.proofs@, uuid),
        }
    }

    fn uuid(&self) -> (r: Option<u128>) {
        Some(self.uuid)
    }

    fn find_by_uuid(store: &GraphStore, uuid: u128) -> (r: Result<Option<ProofRecord>, Error>) {
        let n = store.proofs.len();
        let mut i: usize = 0;
        while i < n
            invariant
                i <= n,
                n == store.proofs@.len(),
                forall|j: int| 0 <= j < i ==> (#[trigger] store.proofs@[j]).proof.uuid != uuid,
            decreases n - i,
        {
            if store.proofs[i].proof.uuid == uuid {
                return Ok(Some(store.proofs[i].clone()));
            }
            i += 1;
        }
        Ok(None)
    }

    /// The idempotent link; `(from, to)` and `(to, from)` are distinct
    /// queries: proofs have a stated origin and target.
    ///
    /// The exclusive borrow of the store spans the whole check-then-insert,
    /// so no second writer can slip between the existence check and the
    /// insert; the dedup-tuple uniqueness of `GraphStore::wf` is kept as a
    /// store invariant, not merely as a fetch-time convention.
    fn connect(
        &self,
        store: &mut GraphStore,
        from: &IdentityRecord,
        to: &IdentityRecord,
    ) -> (r: Result<ProofRecord, Error>) {
        let found = Self::find_by_from_to(store, from, to, &self.source, &self.record_id);
        match found {
            Ok(Some(edge)) => {
                proof {
                    let s = store.proofs@;
                    let w = choose|w: int|
                        0 <= w < s.len() && #[trigger] s[w] == edge && proof_query_match(
                            edge,
                            from.key,
                            to.key,
                            self.source,
                            opt_str_view(self.record_id),
                        ) && (forall|j: int|
                            0 <= j < w ==> !proof_query_match(
                                #[trigger] s[j],
                                from.key,
                                to.key,
                                self.source,
                                opt_str_view(self.record_id),
                            ));
                    assert(proof_query_match(
                        s[w],
                        from.key,
                        to.key,
                        self.source,
                        opt_str_view(self.record_id),
                    ));
                    assert(!no_proof_match(
                        store.proofs@,
                        from.key,
                        to.key,
                        self.source,
                        opt_str_view(self.record_id),
                    ));
                }
                Ok(edge)
            },
            Ok(None) => {
                let ghost pre = *store;
                let n_identities = store.identities.len();
                let n_proofs = store.proofs.len();
                proof {
                    assert(store.next_key == n_identities + n_proofs + 1);
                    assert(store.next_key < u128::MAX);
                }
                let rec = ProofRecord {
                    key: store.next_key,
                    from_key: from.key,
                    to_key: to.key,
                    proof: self.clone(),
                };
                store.proofs.push(rec.clone());
                store.next_key = store.next_key + 1;
                proof {
                    let pre_proofs = pre.proofs@;
                    let post_proofs = store.proofs@;
                    assert(post_proofs == pre_proofs.push(rec));
                    assert forall|i: int, j: int|
                        0 <= i < j < post_proofs.len() implies !same_dedup_tuple(
                        #[trigger] post_proofs[i],
                        #[trigger] post_proofs[j],
                    ) && post_proofs[i].key != post_proofs[j].key by {
                        if j < pre_proofs.len() {
                            assert(!same_dedup_tuple(pre_proofs[i], pre_proofs[j])
                                && pre_proofs[i].key != pre_proofs[j].key);
                        } else {
                            assert(post_proofs[j] == rec);
                            if same_dedup_tuple(post_proofs[i], rec) {
                                assert(proof_query_match(
                                    pre_proofs[i],
                                    from.key,
                                    to.key,
                                    self.source,
                                    opt_str_view(self.record_id),
                                ));
                            }
                        }
                    }
                    assert(store.wf());
                    assert(connect_effect(pre, *store, rec, *self, from.key, to.key));
                }
                Ok(rec)
            },
            Err(e) => Err(e),
        }
    }
}

impl Proof {
    /// The dedup query: the first edge from `from` to `to` asserted by
    /// `source` and, when the query carries a record id, bearing that
    /// record id.
    pub fn find_by_from_to(
        store: &GraphStore,
        from: &IdentityRecord,
        to: &IdentityRecord,
        source: &DataSource,
        record_id: &Option<String>,
    ) -> (r: Result<Option<ProofRecord>, Error>)
        ensures
            r matches Ok(found) && match found {
                Some(rec) => is_first_proof_match(
                    store.proofs@,
                    rec,
                    from.key,
                    to.key,
                    *source,
                    opt_str_view(*record_id),
                ),
                None => no_proof_match(
                    store.proofs@,
                    from.key,
                    to.key,
                    *source,
                    opt_str_view(*record_id),
                ),
            },
    {
        let n = store.proofs.len();
        let mut i: usize = 0;
        while i < n
            invariant
                i <= n,
                n == store.proofs@.len(),
                forall|j: int|
                    0 <= j < i ==> !proof_query_match(
                        #[trigger] store.proofs@[j],
                        from.key,
                        to.key,
                        *source,
                        opt_str_view(*record_id),
                    ),
            decreases n - i,
        {
            let p = &store.proofs[i];
            let endpoints_match = p.from_key == from.key && p.to_key == to.key && p.proof.source
                == *source;
            let record_id_match = match record_id {
                None => true,
                Some(rid) => match &p.proof.record_id {
                    Some(pr) => str_eq(pr.as_str(), rid.as_str()),
                    None => false,
                },
            };
            if endpoints_match && record_id_match {
                return Ok(Some(store.proofs[i].clone()));
            }
            i += 1;
        }
        Ok(None)
    }
}

impl ProofRecord {
    /// The edge's UUID, rendered as a string.
    pub fn uuid(&self) -> (r: String)
        ensures
            r@ == crate::util::uuid_str(self.proof.uuid),
            crate::util::uuid_of_str(r@) == Some(self.proof.uuid),
    {
        crate::util::format_uuid(self.proof.uuid)
    }

    /// The name of the upstream service that asserted this edge.
    pub fn source(&self) -> (r: String)
        ensures
            r@ == crate::upstream::data_source_name(self.proof.source),
    {
        self.proof.source.name()
    }

    /// The record id of the asserting record at the source, if any.
    pub fn record_id(&self) -> (r: Option<String>)
        ensures
            opt_str_view(r) == opt_str_view(self.proof.record_id),
    {
        match &self.proof.record_id {
            Some(s) => Some(s.clone()),
            None => None,
        }
    }

    /// Upstream-reported assertion time, if any.
    pub fn created_at(&self) -> (r: Option<i64>)
        ensures
            r == self.proof.created_at,
    {
        self.proof.created_at
    }

    /// When this fact was last observed.
    pub fn last_fetched_at(&self) -> (r: i64)
        ensures
            r == self.proof.last_fetched_at,
    {
        self.proof.last_fetched_at
    }

    /// Store key of the origin vertex.
    pub fn id_from(&self) -> (r: u128)
        ensures
            r == self.from_key,
    {
        self.from_key
    }

    /// Store key of the target vertex.
    pub fn id_to(&self) -> (r: u128)
        ensures
            r == self.to_key,
    {
        self.to_key
    }

    /// The origin vertex record of this edge.
    pub fn from(&self, store: &GraphStore) -> (r: Result<IdentityRecord, Error>)
        ensures
            match r {
                Ok(rec) => crate::store::is_first_identity_key_match(
                    store.identities@,
                    rec,
                    self.from_key,
                ),
                Err(e) => e is Store && !has_key(store.identities@, self.from_key),
            },
    {
        lookup_identity_by_key(store, self.from_key)
    }

    /// The target vertex record of this edge.
    pub fn to(&self, store: &GraphStore) -> (r: Result<IdentityRecord, Error>)
        ensures
            match r {
                Ok(rec) => crate::store::is_first_identity_key_match(
                    store.identities@,
                    rec,
                    self.to_key,
                ),
                Err(e) => e is Store && !has_key(store.identities@, self.to_key),
            },
    {
        lookup_identity_by_key(store, self.to_key)
    }
}

/// Resolve a store key to its vertex record; a dangling key is a store
/// failure.
pub(crate) fn lookup_identity_by_key(store: &GraphStore, key: u128) -> (r: Result<
    IdentityRecord,
    Error,
>)
    ensures
        match r {
            Ok(rec) => crate::store::is_first_identity_key_match(store.identities@, rec, key),
            Err(e) => e is Store && !has_key(store.identities@, key),
        },
{
    let n = store.identities.len();
    let mut i: usize = 0;
    while i < n
        invariant
            i <= n,
            n == store.identities@.len(),
            forall|j: int| 0 <= j < i ==> (#[trigger] store.identities@[j]).key != key,
        decreases n - i,
    {
        if store.identities[i].key == key {
            return Ok(store.identities[i].clone());
        }
        i += 1;
    }
    Err(Error::Store("dangling edge endpoint".to_owned()))
}

} // verus!
