//! The `Identity` vertex: one account on one platform.

use vstd::prelude::*;

use crate::error::Error;
use crate::graph::Vertex;
use crate::store::{
    GraphStore, IdentityRecord, has_identity_key, id_key_matches, is_first_identity_uuid_match,
    neighbor_list, no_identity_uuid_match, same_identity_ext, updated_identity, upsert_effect,
};
use crate::upstream::{Platform, str_eq};
use crate::util::new_uuid;

verus! {

/// A vertex of the identity graph: one account on one platform.
///
/// `(platform, identity)` is the natural external key: the store holds at
/// most one vertex per pair. `uuid` is assigned once, at creation;
/// `display_name`, `avatar_url`, `profile_url` and `updated_at` are
/// refreshed on every re-discovery; `added_at` and `created_at` are kept
/// from the first record.
#[derive(Debug)]
pub struct Identity {
    /// UUID of this record, if assigned yet.
    pub uuid: Option<u128>,
    /// The account namespace this identity lives on.
    pub platform: Platform,
    /// Platform-native account identifier.
    pub identity: String,
    /// Display name reported by the upstream.
    pub display_name: String,
    /// Avatar URL, if the upstream gives one.
    pub avatar_url: Option<String>,
    /// Profile URL, if the upstream gives one.
    pub profile_url: Option<String>,
    /// Upstream-reported account creation time (seconds since the epoch).
    pub created_at: Option<i64>,
    /// When this system first saw the account.
    pub added_at: i64,
    /// Bumped on every refresh.
    pub updated_at: i64,
}

impl Clone for Identity {
    fn clone(&self) -> (r: Self)
        ensures
            r == *self,
    {
        Identity {
            uuid: self.uuid,
            platform: self.platform,
            identity: self.identity.clone(),
            display_name: self.display_name.clone(),
            avatar_url: match &self.avatar_url {
                Some(s) => Some(s.clone()),
                None => None,
            },
            profile_url: match &self.profile_url {
                Some(s) => Some(s.clone()),
                None => None,
            },
            created_at: self.created_at,
            added_at: self.added_at,
            updated_at: self.updated_at,
        }
    }
}

impl Vertex<IdentityRecord> for Identity {
    open spec fn uuid_of(&self) -> Option<u128> {
        self.uuid
    }

    /// An upsert resolves the external key `(platform, identity)` to an
    /// existing record and refreshes its mutable fields, or inserts a new
    /// record under a fresh store key.
    open spec fn upsert_post(&self, pre: GraphStore, post: GraphStore, rec: IdentityRecord) -> bool {
        upsert_effect(pre, post, rec, *self)
    }

    /// A lookup returns the first record carrying the UUID, or `None`
    /// when no record does.
    open spec fn find_post(store: GraphStore, uuid: u128, found: Option<IdentityRecord>) -> bool {
        match found {
            Some(rec) => is_first_identity_uuid_match(store.identities@, rec, uuid),
            None => no_identity_uuid_match(store.identities@, uuid),
        }
    }

    /// The traversal resolves this vertex's external key and follows its
    /// record's outgoing edges; an unstored vertex has no neighbors.
    open spec fn neighbors_post(&self, store: GraphStore, result: Seq<IdentityRecord>) -> bool {
        if has_identity_key(store.identities@, self.platform, self.identity@) {
            exists|i: int|
                0 <= i < store.identities@.len() && id_key_matches(
                    #[trigger] store.identities@[i],
                    self.platform,
                    self.identity@,
                ) && neighbor_list(store, store.identities@[i].key, result)
        } else {
            result.len() == 0
        }
    }

    fn uuid(&self) -> (r: Option<u128>) {
        self.uuid
    }

    fn create_or_update(&self, store: &mut GraphStore) -> (r: Result<IdentityRecord, Error>) {
        let found = find_identity_index(store, self.platform, self.identity.as_str());
        match found {
            Some(idx) => {
                let ghost pre = *store;
                let existing_uuid = store.identities[idx].record.uuid;
                let existing_created_at = store.identities[idx].record.created_at;
                let existing_added_at = store.identities[idx].record.added_at;
                let existing_key = store.identities[idx].key;
                let rec = IdentityRecord {
                    key: existing_key,
                    record: Identity {
                        uuid: existing_uuid,
                        platform: self.platform,
                        identity: self.identity.clone(),
                        display_name: self.display_name.clone(),
                        avatar_url: match &self.avatar_url {
                            Some(s) => Some(s.clone()),
                            None => None,
                        },
                        profile_url: match &self.profile_url {
                            Some(s) => Some(s.clone()),
                            None => None,
                        },
                        created_at: existing_created_at,
                        added_at: existing_added_at,
                        updated_at: self.updated_at,
                    },
                };
                store.identities[idx] = rec.clone();
                proof {
                    let ids = pre.identities@;
                    let post_ids = store.identities@;
                    assert(post_ids == ids.update(idx as int, rec));
                    assert(updated_identity(rec, ids[idx as int], *self));
                    assert forall|k: int| 0 <= k < post_ids.len() implies (#[trigger] post_ids[k]).key
                        == ids[k].key && same_identity_ext(post_ids[k], ids[k]) by {
                        if k == idx {
                            assert(id_key_matches(ids[k], self.platform, self.identity@));
                        }
                    }
                    assert forall|i: int, j: int|
                        0 <= i < j < post_ids.len() implies !same_identity_ext(
                        #[trigger] post_ids[i],
                        #[trigger] post_ids[j],
                    ) && post_ids[i].key != post_ids[j].key by {
                        assert(!same_identity_ext(ids[i], ids[j]) && ids[i].key != ids[j].key);
                    }
                    assert forall|i: int|
                        0 <= i < store.proofs@.len() implies crate::store::has_key(
                        post_ids,
                        (#[trigger] store.proofs@[i]).from_key,
                    ) && crate::store::has_key(post_ids, store.proofs@[i].to_key) by {
                        crate::store::lemma_has_key_update(
                            ids,
                            idx as int,
                            rec,
                            store.proofs@[i].from_key,
                        );
                        crate::store::lemma_has_key_update(
                            ids,
                            idx as int,
                            rec,
                            store.proofs@[i].to_key,
                        );
                    }
                    assert(store.wf());
                    assert(has_identity_key(ids, self.platform, self.identity@));
                    assert(id_key_matches(ids[idx as int], self.platform, self.identity@)
                        && updated_identity(rec, ids[idx as int], *self) && post_ids == ids.update(
                        idx as int,
                        rec,
                    ) && store.next_key == pre.next_key);
                    assert(upsert_effect(pre, *store, rec, *self));
                }
                Ok(rec)
            },
            None => {
                let ghost pre = *store;
                let uuid: u128 = match self.uuid {
                    Some(u) => u,
                    None => new_uuid(),
                };
                let n_identities = store.identities.len();
                let n_proofs = store.proofs.len();
                proof {
                    assert(store.next_key == n_identities + n_proofs + 1);
                    assert(store.next_key < u128::MAX);
                }
                let rec = IdentityRecord {
                    key: store.next_key,
                    record: Identity {
                        uuid: Some(uuid),
                        platform: self.platform,
                        identity: self.identity.clone(),
                        display_name: self.display_name.clone(),
                        avatar_url: match &self.avatar_url {
                            Some(s) => Some(s.clone()),
                            None => None,
                        },
                        profile_url: match &self.profile_url {
                            Some(s) => Some(s.clone()),
                            None => None,
                        },
                        created_at: self.created_at,
                        added_at: self.added_at,
                        updated_at: self.updated_at,
                    },
                };
                store.identities.push(rec.clone());
                store.next_key = store.next_key + 1;
                proof {
                    let ids = pre.identities@;
                    let post_ids = store.identities@;
                    assert(post_ids.len() == ids.len() + 1);
                    assert(!has_identity_key(ids, self.platform, self.identity@));
                    assert forall|i: int, j: int|
                        0 <= i < j < post_ids.len() implies !same_identity_ext(
                        #[trigger] post_ids[i],
                        #[trigger] post_ids[j],
                    ) && post_ids[i].key != post_ids[j].key by {
                        if j < ids.len() {
                            assert(!same_identity_ext(ids[i], ids[j]) && ids[i].key != ids[j].key);
                        } else {
                            assert(post_ids[j] == rec);
                            assert(!id_key_matches(ids[i], self.platform, self.identity@));
                        }
                    }
                    assert forall|i: int|
                        0 <= i < store.proofs@.len() implies crate::store::has_key(
                        post_ids,
                        (#[trigger] store.proofs@[i]).from_key,
                    ) && crate::store::has_key(post_ids, store.proofs@[i].to_key) by {
                        crate::store::lemma_has_key_push(ids, rec, store.proofs@[i].from_key);
                        crate::store::lemma_has_key_push(ids, rec, store.proofs@[i].to_key);
                    }
                    assert(store.wf());
                    assert(upsert_effect(pre, *store, rec, *self));
                }
                Ok(rec)
            },
        }
    }

    fn find_by_uuid(store: &GraphStore, uuid: u128) -> (r: Result<
        Option<IdentityRecord>,
        Error,
    >) {
        let n = store.identities.len();
        let mut i: usize = 0;
        while i < n
            invariant
                i <= n,
                n == store.identities@.len(),
                forall|j: int|
                    0 <= j < i ==> (#[trigger] store.identities@[j]).record.uuid != Some(uuid),
            decreases n - i,
        {
            let matches_uuid = match store.identities[i].record.uuid {
                Some(u) => u == uuid,
                None => false,
            };
            if matches_uuid {
                return Ok(Some(store.identities[i].clone()));
            }
            i += 1;
        }
        Ok(None)
    }

    fn neighbors(&self, store: &GraphStore) -> (r: Result<Vec<IdentityRecord>, Error>) {
        let found = find_identity_index(store, self.platform, self.identity.as_str());
        match found {
            Some(idx) => {
                let record = store.identities[idx].clone();
                let result = record.neighbors(store);
                proof {
                    assert(id_key_matches(store.identities@[idx as int], self.platform, self.identity@));
                }
                result
            },
            None => {
                Ok(Vec::new())
            },
        }
    }
}

impl IdentityRecord {
    /// Store key of this record.
    pub fn id(&self) -> (r: u128)
        ensures
            r == self.key,
    {
        self.key
    }

    /// All vertices directly linked by an outgoing edge of this vertex,
    /// in store order of the edges.
    #[verifier::rlimit(60)]
    pub fn neighbors(&self, store: &GraphStore) -> (r: Result<Vec<IdentityRecord>, Error>)
        requires
            store.wf(),
        ensures
            r matches Ok(v) && neighbor_list(*store, self.key, v@),
    {
        let mut result: Vec<IdentityRecord> = Vec::new();
        let n = store.proofs.len();
        let mut i: usize = 0;
        while i < n
            invariant
                i <= n,
                n == store.proofs@.len(),
                store.wf(),
                result@.len() == crate::store::outgoing(
                    store.proofs@.take(i as int),
                    self.key,
                ).len(),
                forall|j: int|
                    0 <= j < result@.len() ==> crate::store::is_first_identity_key_match(
                        store.identities@,
                        #[trigger] result@[j],
                        crate::store::outgoing(store.proofs@.take(i as int), self.key)[j].to_key,
                    ),
            decreases n - i,
        {
            let ghost prefix = store.proofs@.take(i as int);
            proof {
                assert(store.proofs@.take(i as int + 1) =~= prefix.push(store.proofs@[i as int]));
                crate::store::lemma_outgoing_push(prefix, store.proofs@[i as int], self.key);
            }
            if store.proofs[i].from_key == self.key {
                let to_key = store.proofs[i].to_key;
                proof {
                    assert(crate::store::has_key(store.identities@, to_key));
                }
                match crate::edge::lookup_identity_by_key(store, to_key) {
                    Ok(rec) => {
                        result.push(rec);
                    },
                    Err(e) => {
                        proof {
                            assert(false);
                        }
                        return Err(e);
                    },
                }
            }
            i += 1;
        }
        proof {
            assert(store.proofs@.take(n as int) =~= store.proofs@);
        }
        Ok(result)
    }
}

/// First identity record carrying the external key `(platform, identity)`,
/// as an index, or `None` when the key is absent.
fn find_identity_index(store: &GraphStore, platform: Platform, identity: &str) -> (r: Option<
    usize,
>)
    ensures
        match r {
            Some(i) => i < store.identities@.len() && id_key_matches(
                store.identities@[i as int],
                platform,
                identity@,
            ),
            None => !has_identity_key(store.identities@, platform, identity@),
        },
{
    let n = store.identities.len();
    let mut i: usize = 0;
    while i < n
        invariant
            i <= n,
            n == store.identities@.len(),
            forall|j: int|
                0 <= j < i ==> !id_key_matches(#[trigger] store.identities@[j], platform, identity@),
        decreases n - i,
    {
        let candidate = &store.identities[i];
        if candidate.record.platform == platform && str_eq(
            candidate.record.identity.as_str(),
            identity,
        ) {
            return Some(i);
        }
        i += 1;
    }
    None
}

} // verus!
