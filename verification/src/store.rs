//! The graph store model: vertex and edge records, the store handle, and
//! the invariants that bind them.
//!
//! The store is passed explicitly to every operation so that each caller
//! (and each test) works against its own instance.

use vstd::prelude::*;

use crate::identity::Identity;
use crate::edge::Proof;
use crate::upstream::{DataSource, Platform};

verus! {

/// A persisted `Identity` vertex: the vertex data plus its store key.
#[derive(Debug)]
pub struct IdentityRecord {
    /// Store-assigned record key.
    pub key: u128,
    /// The vertex data.
    pub record: Identity,
}

/// A persisted `Proof` edge: the edge data plus its store key and the
/// keys of its two endpoints.
#[derive(Debug)]
pub struct ProofRecord {
    /// Store-assigned record key.
    pub key: u128,
    /// Key of the origin vertex.
    pub from_key: u128,
    /// Key of the target vertex.
    pub to_key: u128,
    /// The edge data.
    pub proof: Proof,
}

impl Clone for IdentityRecord {
    fn clone(&self) -> (r: Self)
        ensures
            r == *self,
    {
        IdentityRecord { key: self.key, record: self.record.clone() }
    }
}

impl Clone for ProofRecord {
    fn clone(&self) -> (r: Self)
        ensures
            r == *self,
    {
        ProofRecord {
            key: self.key,
            from_key: self.from_key,
            to_key: self.to_key,
            proof: self.proof.clone(),
        }
    }
}

/// `Option<String>` compared by contents.
pub open spec fn opt_str_view(o: Option<String>) -> Option<Seq<char>> {
    match o {
        Some(s) => Some(s@),
        None => None,
    }
}

/// Does the record carry the external key `(platform, identity)`?
pub open spec fn id_key_matches(r: IdentityRecord, platform: Platform, identity: Seq<char>) -> bool {
    r.record.platform == platform && r.record.identity@ == identity
}

/// Two identity records carry the same external key.
pub open spec fn same_identity_ext(a: IdentityRecord, b: IdentityRecord) -> bool {
    a.record.platform == b.record.platform && a.record.identity@ == b.record.identity@
}

/// Some identity record carries the external key.
pub open spec fn has_identity_key(s: Seq<IdentityRecord>, platform: Platform, identity: Seq<char>) -> bool {
    exists|i: int| 0 <= i < s.len() && id_key_matches(#[trigger] s[i], platform, identity)
}

/// Some identity record carries the store key.
pub open spec fn has_key(s: Seq<IdentityRecord>, key: u128) -> bool {
    exists|i: int| 0 <= i < s.len() && (#[trigger] s[i]).key == key
}

/// `rec` is the first identity record with store key `key`.
pub open spec fn is_first_identity_key_match(s: Seq<IdentityRecord>, rec: IdentityRecord, key: u128) -> bool {
    exists|i: int|
        0 <= i < s.len() && #[trigger] s[i] == rec && rec.key == key && (forall|j: int|
            0 <= j < i ==> (#[trigger] s[j]).key != key)
}

/// `rec` is the first identity record whose UUID is `uuid`.
pub open spec fn is_first_identity_uuid_match(s: Seq<IdentityRecord>, rec: IdentityRecord, uuid: u128) -> bool {
    exists|i: int|
        0 <= i < s.len() && #[trigger] s[i] == rec && rec.record.uuid == Some(uuid) && (forall|j: int|
            0 <= j < i ==> (#[trigger] s[j]).record.uuid != Some(uuid))
}

/// No identity record has UUID `uuid`.
pub open spec fn no_identity_uuid_match(s: Seq<IdentityRecord>, uuid: u128) -> bool {
    forall|i: int| 0 <= i < s.len() ==> (#[trigger] s[i]).record.uuid != Some(uuid)
}

/// The dedup query of `find_by_from_to`: endpoints and source must be
/// equal; the record id is compared only when the query carries one.
pub open spec fn proof_query_match(
    p: ProofRecord,
    from_key: u128,
    to_key: u128,
    source: DataSource,
    record_id: Option<Seq<char>>,
) -> bool {
    &&& p.from_key == from_key
    &&& p.to_key == to_key
    &&& p.proof.source == source
    &&& (record_id is Some ==> opt_str_view(p.proof.record_id) == record_id)
}

/// No edge matches the dedup query.
pub open spec fn no_proof_match(
    s: Seq<ProofRecord>,
    from_key: u128,
    to_key: u128,
    source: DataSource,
    record_id: Option<Seq<char>>,
) -> bool {
    forall|i: int|
        0 <= i < s.len() ==> !proof_query_match(#[trigger] s[i], from_key, to_key, source, record_id)
}

/// `rec` is the first edge matching the dedup query.
pub open spec fn is_first_proof_match(
    s: Seq<ProofRecord>,
    rec: ProofRecord,
    from_key: u128,
    to_key: u128,
    source: DataSource,
    record_id: Option<Seq<char>>,
) -> bool {
    exists|i: int|
        0 <= i < s.len() && #[trigger] s[i] == rec && proof_query_match(
            rec,
            from_key,
            to_key,
            source,
            record_id,
        ) && (forall|j: int|
            0 <= j < i ==> !proof_query_match(#[trigger] s[j], from_key, to_key, source, record_id))
}

/// `rec` is the first edge whose UUID is `uuid`.
pub open spec fn is_first_proof_uuid_match(s: Seq<ProofRecord>, rec: ProofRecord, uuid: u128) -> bool {
    exists|i: int|
        0 <= i < s.len() && #[trigger] s[i] == rec && rec.proof.uuid == uuid && (forall|j: int|
            0 <= j < i ==> (#[trigger] s[j]).proof.uuid != uuid)
}

/// No edge has UUID `uuid`.
pub open spec fn no_proof_uuid_match(s: Seq<ProofRecord>, uuid: u128) -> bool {
    forall|i: int| 0 <= i < s.len() ==> (#[trigger] s[i]).proof.uuid != uuid
}

/// Two edges carry the same dedup tuple `(from, to, source, record_id)`.
pub open spec fn same_dedup_tuple(a: ProofRecord, b: ProofRecord) -> bool {
    &&& a.from_key == b.from_key
    &&& a.to_key == b.to_key
    &&& a.proof.source == b.proof.source
    &&& opt_str_view(a.proof.record_id) == opt_str_view(b.proof.record_id)
}

/// The edges leaving the vertex keyed `key`, in store order.
pub open spec fn outgoing(s: Seq<ProofRecord>, key: u128) -> Seq<ProofRecord> {
    s.filter(|p: ProofRecord| p.from_key == key)
}

/// What a neighbor traversal from the vertex keyed `key` returns: one
/// record per outgoing edge, in store order, each the target vertex of
/// its edge.
pub open spec fn neighbor_list(store: GraphStore, key: u128, result: Seq<IdentityRecord>) -> bool {
    let outs = outgoing(store.proofs@, key);
    &&& result.len() == outs.len()
    &&& forall|j: int|
        0 <= j < outs.len() ==> is_first_identity_key_match(
            store.identities@,
            #[trigger] result[j],
            outs[j].to_key,
        )
}

/// How an updated identity record relates to the record it replaces and
/// the vertex data of the call: store key, UUID, `created_at` and
/// `added_at` are kept; the mutable fields come from the call.
pub open spec fn updated_identity(rec: IdentityRecord, existing: IdentityRecord, v: Identity) -> bool {
    &&& rec.key == existing.key
    &&& rec.record.uuid == existing.record.uuid
    &&& rec.record.platform == v.platform
    &&& rec.record.identity@ == v.identity@
    &&& rec.record.display_name@ == v.display_name@
    &&& opt_str_view(rec.record.avatar_url) == opt_str_view(v.avatar_url)
    &&& opt_str_view(rec.record.profile_url) == opt_str_view(v.profile_url)
    &&& rec.record.created_at == existing.record.created_at
    &&& rec.record.added_at == existing.record.added_at
    &&& rec.record.updated_at == v.updated_at
}

/// How a freshly inserted identity record relates to the vertex data of
/// the call: every field comes from the call; a UUID is assigned if the
/// call brought none.
pub open spec fn inserted_identity(rec: IdentityRecord, v: Identity) -> bool {
    &&& rec.record.uuid is Some
    &&& (v.uuid is Some ==> rec.record.uuid == v.uuid)
    &&& rec.record.platform == v.platform
    &&& rec.record.identity@ == v.identity@
    &&& rec.record.display_name@ == v.display_name@
    &&& opt_str_view(rec.record.avatar_url) == opt_str_view(v.avatar_url)
    &&& opt_str_view(rec.record.profile_url) == opt_str_view(v.profile_url)
    &&& rec.record.created_at == v.created_at
    &&& rec.record.added_at == v.added_at
    &&& rec.record.updated_at == v.updated_at
}

/// The effect of `Identity::create_or_update`: resolve the external key
/// `(platform, identity)` to an existing record and refresh its mutable
/// fields, or insert a new record under a fresh store key.
pub open spec fn upsert_effect(pre: GraphStore, post: GraphStore, rec: IdentityRecord, v: Identity) -> bool {
    &&& post.proofs@ == pre.proofs@
    &&& if has_identity_key(pre.identities@, v.platform, v.identity@) {
        exists|i: int|
            0 <= i < pre.identities@.len() && id_key_matches(
                #[trigger] pre.identities@[i],
                v.platform,
                v.identity@,
            ) && updated_identity(rec, pre.identities@[i], v) && post.identities@
                == pre.identities@.update(i, rec) && post.next_key == pre.next_key
    } else {
        &&& rec.key == pre.next_key
        &&& inserted_identity(rec, v)
        &&& post.identities@ == pre.identities@.push(rec)
        &&& post.next_key == pre.next_key + 1
    }
}

/// The effect of `Proof::connect`: return the first edge matching the
/// dedup query unchanged, or insert a new directed edge carrying the
/// call's data under a fresh store key.
pub open spec fn connect_effect(
    pre: GraphStore,
    post: GraphStore,
    rec: ProofRecord,
    data: Proof,
    from_key: u128,
    to_key: u128,
) -> bool {
    &&& post.identities@ == pre.identities@
    &&& if no_proof_match(pre.proofs@, from_key, to_key, data.source, opt_str_view(data.record_id)) {
        &&& rec.key == pre.next_key
        &&& rec.from_key == from_key
        &&& rec.to_key == to_key
        &&& rec.proof == data
        &&& post.proofs@ == pre.proofs@.push(rec)
        &&& post.next_key == pre.next_key + 1
    } else {
        &&& is_first_proof_match(
            pre.proofs@,
            rec,
            from_key,
            to_key,
            data.source,
            opt_str_view(data.record_id),
        )
        &&& post.proofs@ == pre.proofs@
        &&& post.next_key == pre.next_key
    }
}

/// How the outgoing-edge view grows when an edge is appended.
pub proof fn lemma_outgoing_push(s: Seq<ProofRecord>, x: ProofRecord, key: u128)
    ensures
        outgoing(s.push(x), key) == if x.from_key == key {
            outgoing(s, key).push(x)
        } else {
            outgoing(s, key)
        },
{
    reveal(Seq::filter);
    assert(s.push(x).drop_last() =~= s);
    assert(s.push(x).last() == x);
}

/// A store key present in a record list survives appending a record.
pub proof fn lemma_has_key_push(s: Seq<IdentityRecord>, rec: IdentityRecord, key: u128)
    requires
        has_key(s, key),
    ensures
        has_key(s.push(rec), key),
{
    let w = choose|w: int| 0 <= w < s.len() && (#[trigger] s[w]).key == key;
    assert((s.push(rec)[w]).key == key);
}

/// A store key present in a record list survives replacing a record by
/// one with the same key.
pub proof fn lemma_has_key_update(s: Seq<IdentityRecord>, idx: int, rec: IdentityRecord, key: u128)
    requires
        0 <= idx < s.len(),
        rec.key == s[idx].key,
        has_key(s, key),
    ensures
        has_key(s.update(idx, rec), key),
{
    let w = choose|w: int| 0 <= w < s.len() && (#[trigger] s[w]).key == key;
    assert((s.update(idx, rec)[w]).key == key);
}

/// `post` carries everything `pre` carried: every edge record of `pre`
/// stands unchanged at its index, and every vertex external key and store
/// key of `pre` still resolves.
pub open spec fn store_extends(post: GraphStore, pre: GraphStore) -> bool {
    &&& post.proofs@.len() >= pre.proofs@.len()
    &&& forall|k: int| 0 <= k < pre.proofs@.len() ==> post.proofs@[k] == #[trigger] pre.proofs@[k]
    &&& forall|platform: Platform, id: Seq<char>|
        has_identity_key(pre.identities@, platform, id) ==> #[trigger] has_identity_key(
            post.identities@,
            platform,
            id,
        )
    &&& forall|key: u128|
        has_key(pre.identities@, key) ==> #[trigger] has_key(post.identities@, key)
}

/// An upsert keeps every vertex external key that was present.
pub proof fn lemma_upsert_preserves_identity_key(
    pre: GraphStore,
    post: GraphStore,
    rec: IdentityRecord,
    v: Identity,
    platform: Platform,
    id: Seq<char>,
)
    requires
        upsert_effect(pre, post, rec, v),
        has_identity_key(pre.identities@, platform, id),
    ensures
        has_identity_key(post.identities@, platform, id),
{
    let ids = pre.identities@;
    let w = choose|w: int| 0 <= w < ids.len() && id_key_matches(#[trigger] ids[w], platform, id);
    if has_identity_key(ids, v.platform, v.identity@) {
        let i = choose|i: int|
            0 <= i < ids.len() && id_key_matches(#[trigger] ids[i], v.platform, v.identity@)
                && updated_identity(rec, ids[i], v) && post.identities@ == ids.update(i, rec)
                && post.next_key == pre.next_key;
        assert(id_key_matches(post.identities@[w], platform, id));
    } else {
        assert(id_key_matches(post.identities@[w], platform, id));
    }
}

/// An upsert keeps every vertex store key that was present.
pub proof fn lemma_upsert_preserves_has_key(
    pre: GraphStore,
    post: GraphStore,
    rec: IdentityRecord,
    v: Identity,
    key: u128,
)
    requires
        upsert_effect(pre, post, rec, v),
        has_key(pre.identities@, key),
    ensures
        has_key(post.identities@, key),
{
    let ids = pre.identities@;
    let w = choose|w: int| 0 <= w < ids.len() && (#[trigger] ids[w]).key == key;
    if has_identity_key(ids, v.platform, v.identity@) {
        let i = choose|i: int|
            0 <= i < ids.len() && id_key_matches(#[trigger] ids[i], v.platform, v.identity@)
                && updated_identity(rec, ids[i], v) && post.identities@ == ids.update(i, rec)
                && post.next_key == pre.next_key;
        assert((post.identities@[w]).key == key);
    } else {
        assert((post.identities@[w]).key == key);
    }
}

/// An upsert only adds to the store.
pub proof fn lemma_upsert_extends(pre: GraphStore, post: GraphStore, rec: IdentityRecord, v: Identity)
    requires
        upsert_effect(pre, post, rec, v),
    ensures
        store_extends(post, pre),
{
    assert forall|platform: Platform, id: Seq<char>|
        has_identity_key(pre.identities@, platform, id) implies #[trigger] has_identity_key(
        post.identities@,
        platform,
        id,
    ) by {
        lemma_upsert_preserves_identity_key(pre, post, rec, v, platform, id);
    }
    assert forall|key: u128| has_key(pre.identities@, key) implies #[trigger] has_key(
        post.identities@,
        key,
    ) by {
        lemma_upsert_preserves_has_key(pre, post, rec, v, key);
    }
}

/// The record an upsert returns is present under its store key.
pub proof fn lemma_upsert_key_present(pre: GraphStore, post: GraphStore, rec: IdentityRecord, v: Identity)
    requires
        upsert_effect(pre, post, rec, v),
    ensures
        has_key(post.identities@, rec.key),
        has_identity_key(post.identities@, v.platform, v.identity@),
{
    let ids = pre.identities@;
    if has_identity_key(ids, v.platform, v.identity@) {
        let i = choose|i: int|
            0 <= i < ids.len() && id_key_matches(#[trigger] ids[i], v.platform, v.identity@)
                && updated_identity(rec, ids[i], v) && post.identities@ == ids.update(i, rec)
                && post.next_key == pre.next_key;
        assert(post.identities@[i] == rec);
        assert(id_key_matches(post.identities@[i], v.platform, v.identity@));
    } else {
        let n = ids.len() as int;
        assert(post.identities@[n] == rec);
        assert(id_key_matches(post.identities@[n], v.platform, v.identity@));
    }
}

/// A connect only adds to the store.
pub proof fn lemma_connect_extends(
    pre: GraphStore,
    post: GraphStore,
    rec: ProofRecord,
    data: Proof,
    from_key: u128,
    to_key: u128,
)
    requires
        connect_effect(pre, post, rec, data, from_key, to_key),
    ensures
        store_extends(post, pre),
{
}

/// `store_extends` composes.
pub proof fn lemma_extends_trans(s2: GraphStore, s1: GraphStore, s0: GraphStore)
    requires
        store_extends(s2, s1),
        store_extends(s1, s0),
    ensures
        store_extends(s2, s0),
{
}

/// The identity graph store: all vertex and edge records, plus the next
/// free store key.
pub struct GraphStore {
    /// All `Identity` vertex records.
    pub identities: Vec<IdentityRecord>,
    /// All `Proof` edge records.
    pub proofs: Vec<ProofRecord>,
    /// The next store key to assign.
    pub next_key: u128,
}

impl GraphStore {
    /// Store invariants:
    /// - at most one identity vertex per `(platform, identity)` pair;
    /// - at most one proof edge per `(from, to, source, record_id)` tuple;
    /// - store keys are unique and below `next_key`;
    /// - every edge links two existing vertices;
    /// - `next_key` counts the records assigned so far.
    pub open spec fn wf(&self) -> bool {
        &&& forall|i: int, j: int|
            0 <= i < j < self.identities@.len() ==> !same_identity_ext(
                #[trigger] self.identities@[i],
                #[trigger] self.identities@[j],
            ) && self.identities@[i].key != self.identities@[j].key
        &&& forall|i: int, j: int|
            0 <= i < j < self.proofs@.len() ==> !same_dedup_tuple(
                #[trigger] self.proofs@[i],
                #[trigger] self.proofs@[j],
            ) && self.proofs@[i].key != self.proofs@[j].key
        &&& forall|i: int|
            0 <= i < self.identities@.len() ==> (#[trigger] self.identities@[i]).key
                < self.next_key
        &&& forall|i: int|
            0 <= i < self.proofs@.len() ==> (#[trigger] self.proofs@[i]).key < self.next_key
        &&& forall|i: int|
            0 <= i < self.proofs@.len() ==> has_key(
                self.identities@,
                (#[trigger] self.proofs@[i]).from_key,
            ) && has_key(self.identities@, self.proofs@[i].to_key)
        &&& self.next_key == self.identities@.len() + self.proofs@.len() + 1
    }

    /// An empty store.
    pub fn new() -> (s: Self)
        ensures
            s.wf(),
            s.identities@.len() == 0,
            s.proofs@.len() == 0,
    {
        GraphStore { identities: Vec::new(), proofs: Vec::new(), next_key: 1 }
    }
}

} // verus!
