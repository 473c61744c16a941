//! Library-wide laws, proved over the store transitions that
//! `Identity::create_or_update` and `Proof::connect` establish.

use vstd::prelude::*;

use crate::edge::Proof;
use crate::identity::Identity;
use crate::store::{
    GraphStore, IdentityRecord, ProofRecord, connect_effect, id_key_matches, inserted_identity,
    is_first_identity_uuid_match, is_first_proof_uuid_match, no_identity_uuid_match,
    no_proof_match, no_proof_uuid_match, opt_str_view, proof_query_match, same_dedup_tuple,
    upsert_effect, updated_identity,
};

verus! {

/// Idempotent edge creation: connecting the same endpoints twice with
/// equivalent proof data (same source, same record id) leaves the store
/// of the first connect unchanged, returns the very record the first
/// connect returned, and that record's dedup tuple is carried by exactly
/// one stored edge.
pub proof fn lemma_connect_idempotent(
    s0: GraphStore,
    s1: GraphStore,
    s2: GraphStore,
    r1: ProofRecord,
    r2: ProofRecord,
    d1: Proof,
    d2: Proof,
    from_key: u128,
    to_key: u128,
)
    requires
        s0.wf(),
        s1.wf(),
        connect_effect(s0, s1, r1, d1, from_key, to_key),
        connect_effect(s1, s2, r2, d2, from_key, to_key),
        d1.source == d2.source,
        opt_str_view(d1.record_id) == opt_str_view(d2.record_id),
    ensures
        s2.identities@ == s1.identities@,
        s2.proofs@ == s1.proofs@,
        s2.next_key == s1.next_key,
        r2 == r1,
        exists|i: int|
            0 <= i < s1.proofs@.len() && #[trigger] s1.proofs@[i] == r1 && (forall|j: int|
                0 <= j < s1.proofs@.len() && same_dedup_tuple(#[trigger] s1.proofs@[j], r1) ==> j
                    == i),
{
    let rid = opt_str_view(d1.record_id);
    let source = d1.source;
    // where r1 stands in s1, and that it matches the dedup query
    let i1: int = if no_proof_match(s0.proofs@, from_key, to_key, source, rid) {
        let i = s0.proofs@.len() as int;
        assert(s1.proofs@[i] == r1);
        assert(proof_query_match(r1, from_key, to_key, source, rid));
        i
    } else {
        let i = choose|i: int|
            0 <= i < s0.proofs@.len() && #[trigger] s0.proofs@[i] == r1 && proof_query_match(
                r1,
                from_key,
                to_key,
                source,
                rid,
            ) && (forall|j: int|
                0 <= j < i ==> !proof_query_match(#[trigger] s0.proofs@[j], from_key, to_key, source, rid));
        assert(s1.proofs@[i] == r1);
        i
    };
    assert(0 <= i1 < s1.proofs@.len() && s1.proofs@[i1] == r1);
    assert(proof_query_match(s1.proofs@[i1], from_key, to_key, source, rid));
    assert(!no_proof_match(s1.proofs@, from_key, to_key, source, rid));
    // so the second connect found an edge and changed nothing
    let i2 = choose|i: int|
        0 <= i < s1.proofs@.len() && #[trigger] s1.proofs@[i] == r2 && proof_query_match(
            r2,
            from_key,
            to_key,
            source,
            rid,
        ) && (forall|j: int|
            0 <= j < i ==> !proof_query_match(#[trigger] s1.proofs@[j], from_key, to_key, source, rid));
    // the first match is unique: both candidate indices match, and no
    // earlier index does
    if no_proof_match(s0.proofs@, from_key, to_key, source, rid) {
        if i2 < i1 {
            assert(proof_query_match(s0.proofs@[i2], from_key, to_key, source, rid));
        }
        assert(i2 == i1);
    } else {
        if i2 < i1 {
            assert(proof_query_match(s1.proofs@[i2], from_key, to_key, source, rid));
        }
        if i1 < i2 {
            assert(proof_query_match(s1.proofs@[i1], from_key, to_key, source, rid));
        }
        assert(i2 == i1);
    }
    assert(r2 == r1);
    // exactly one stored edge carries r1's dedup tuple
    assert forall|j: int|
        0 <= j < s1.proofs@.len() && same_dedup_tuple(#[trigger] s1.proofs@[j], r1) implies j
        == i1 by {
        if j != i1 {
            if j < i1 {
                assert(!same_dedup_tuple(s1.proofs@[j], s1.proofs@[i1]));
            } else {
                assert(!same_dedup_tuple(s1.proofs@[i1], s1.proofs@[j]));
            }
        }
    }
}

/// Directionality: connecting `a -> b` and then `b -> a` (distinct
/// vertices) yields two distinct edges, both standing in the final store,
/// each keeping its own stated origin and target.
pub proof fn lemma_connect_directional(
    s0: GraphStore,
    s1: GraphStore,
    s2: GraphStore,
    r1: ProofRecord,
    r2: ProofRecord,
    d1: Proof,
    d2: Proof,
    a_key: u128,
    b_key: u128,
)
    requires
        s0.wf(),
        s1.wf(),
        connect_effect(s0, s1, r1, d1, a_key, b_key),
        connect_effect(s1, s2, r2, d2, b_key, a_key),
        a_key != b_key,
    ensures
        r1.from_key == a_key && r1.to_key == b_key,
        r2.from_key == b_key && r2.to_key == a_key,
        r1 != r2,
        exists|i: int| 0 <= i < s2.proofs@.len() && #[trigger] s2.proofs@[i] == r1,
        exists|i: int| 0 <= i < s2.proofs@.len() && #[trigger] s2.proofs@[i] == r2,
{
    let rid1 = opt_str_view(d1.record_id);
    let rid2 = opt_str_view(d2.record_id);
    // r1 stands in s1
    let i1: int = if no_proof_match(s0.proofs@, a_key, b_key, d1.source, rid1) {
        s0.proofs@.len() as int
    } else {
        choose|i: int|
            0 <= i < s0.proofs@.len() && #[trigger] s0.proofs@[i] == r1 && proof_query_match(
                r1,
                a_key,
                b_key,
                d1.source,
                rid1,
            ) && (forall|j: int|
                0 <= j < i ==> !proof_query_match(#[trigger] s0.proofs@[j], a_key, b_key, d1.source, rid1))
    };
    assert(0 <= i1 < s1.proofs@.len() && s1.proofs@[i1] == r1);
    // r2 stands in s2
    let i2: int = if no_proof_match(s1.proofs@, b_key, a_key, d2.source, rid2) {
        s1.proofs@.len() as int
    } else {
        choose|i: int|
            0 <= i < s1.proofs@.len() && #[trigger] s1.proofs@[i] == r2 && proof_query_match(
                r2,
                b_key,
                a_key,
                d2.source,
                rid2,
            ) && (forall|j: int|
                0 <= j < i ==> !proof_query_match(#[trigger] s1.proofs@[j], b_key, a_key, d2.source, rid2))
    };
    assert(0 <= i2 < s2.proofs@.len() && s2.proofs@[i2] == r2);
    // s2 keeps every edge of s1 at its index
    assert(s2.proofs@[i1] == r1);
}

/// Vertex external-key uniqueness: a second upsert of the same
/// `(platform, identity)` pair adds no vertex, lands on the same store
/// key, refreshes the mutable fields to the latest call's values, and the
/// pair is carried by exactly one stored vertex.
pub proof fn lemma_upsert_unique_key(
    s0: GraphStore,
    s1: GraphStore,
    s2: GraphStore,
    r1: IdentityRecord,
    r2: IdentityRecord,
    v1: Identity,
    v2: Identity,
)
    requires
        s0.wf(),
        s1.wf(),
        s2.wf(),
        upsert_effect(s0, s1, r1, v1),
        upsert_effect(s1, s2, r2, v2),
        v1.platform == v2.platform,
        v1.identity@ == v2.identity@,
    ensures
        s2.identities@.len() == s1.identities@.len(),
        r2.key == r1.key,
        r2.record.uuid == r1.record.uuid,
        r2.record.display_name@ == v2.display_name@,
        r2.record.updated_at == v2.updated_at,
        exists|i: int|
            0 <= i < s2.identities@.len() && id_key_matches(
                #[trigger] s2.identities@[i],
                v2.platform,
                v2.identity@,
            ) && (forall|j: int|
                0 <= j < s2.identities@.len() && id_key_matches(
                    #[trigger] s2.identities@[j],
                    v2.platform,
                    v2.identity@,
                ) ==> j == i),
{
    let ids1 = s1.identities@;
    // where r1 stands in s1; it carries the external key
    let i1: int = if crate::store::has_identity_key(s0.identities@, v1.platform, v1.identity@) {
        choose|i: int|
            0 <= i < s0.identities@.len() && id_key_matches(
                #[trigger] s0.identities@[i],
                v1.platform,
                v1.identity@,
            ) && updated_identity(r1, s0.identities@[i], v1) && s1.identities@
                == s0.identities@.update(i, r1) && s1.next_key == s0.next_key
    } else {
        s0.identities@.len() as int
    };
    assert(0 <= i1 < ids1.len() && ids1[i1] == r1);
    assert(id_key_matches(r1, v1.platform, v1.identity@));
    assert(crate::store::has_identity_key(ids1, v2.platform, v2.identity@));
    // the second upsert resolves the same key, so it updates in place
    let i2 = choose|i: int|
        0 <= i < ids1.len() && id_key_matches(#[trigger] ids1[i], v2.platform, v2.identity@)
            && updated_identity(r2, ids1[i], v2) && s2.identities@ == ids1.update(i, r2)
            && s2.next_key == s1.next_key;
    // s1 is well formed, so the external key resolves to one index
    if i1 != i2 {
        if i1 < i2 {
            assert(!crate::store::same_identity_ext(ids1[i1], ids1[i2]));
        } else {
            assert(!crate::store::same_identity_ext(ids1[i2], ids1[i1]));
        }
    }
    assert(i1 == i2);
    assert(updated_identity(r2, r1, v2));
    // exactly one stored vertex carries the pair
    crate::store::lemma_upsert_key_present(s1, s2, r2, v2);
    let w = choose|i: int|
        0 <= i < s2.identities@.len() && id_key_matches(
            #[trigger] s2.identities@[i],
            v2.platform,
            v2.identity@,
        );
    assert forall|j: int|
        0 <= j < s2.identities@.len() && id_key_matches(
            #[trigger] s2.identities@[j],
            v2.platform,
            v2.identity@,
        ) implies j == w by {
        if j != w {
            if j < w {
                assert(!crate::store::same_identity_ext(s2.identities@[j], s2.identities@[w]));
            } else {
                assert(!crate::store::same_identity_ext(s2.identities@[w], s2.identities@[j]));
            }
        }
    }
}

/// Lookup correctness for a fresh edge: after connecting a proof whose
/// dedup tuple and UUID were both unused, looking its UUID up finds
/// exactly the record the connect returned, carrying the proof data
/// unchanged.
pub proof fn lemma_find_created_edge(
    s0: GraphStore,
    s1: GraphStore,
    rec: ProofRecord,
    d: Proof,
    from_key: u128,
    to_key: u128,
)
    requires
        s0.wf(),
        connect_effect(s0, s1, rec, d, from_key, to_key),
        no_proof_match(s0.proofs@, from_key, to_key, d.source, opt_str_view(d.record_id)),
        no_proof_uuid_match(s0.proofs@, d.uuid),
    ensures
        rec.proof == d,
        rec.from_key == from_key,
        rec.to_key == to_key,
        is_first_proof_uuid_match(s1.proofs@, rec, d.uuid),
{
    let k = s0.proofs@.len() as int;
    assert(s1.proofs@[k] == rec);
}

/// Lookup correctness for a fresh vertex: after inserting an identity
/// whose external key and UUID were both unused, looking its UUID up
/// finds exactly the record the upsert returned, carrying the vertex
/// data unchanged.
pub proof fn lemma_find_created_identity(
    s0: GraphStore,
    s1: GraphStore,
    rec: IdentityRecord,
    v: Identity,
    uuid: u128,
)
    requires
        s0.wf(),
        upsert_effect(s0, s1, rec, v),
        !crate::store::has_identity_key(s0.identities@, v.platform, v.identity@),
        v.uuid == Some(uuid),
        no_identity_uuid_match(s0.identities@, uuid),
    ensures
        inserted_identity(rec, v),
        rec.record.uuid == Some(uuid),
        is_first_identity_uuid_match(s1.identities@, rec, uuid),
{
    let k = s0.identities@.len() as int;
    assert(s1.identities@[k] == rec);
}

} // verus!
