//! The Keybase connector: normalizes a Keybase user-lookup response into
//! identity pairs and proof edges, and materializes them in the store.
//!
//! The HTTP exchange itself happens outside this library; `fetch` takes
//! the decoded response and performs the normalization and the graph
//! mutations.

use vstd::prelude::*;

use crate::edge::Proof;
use crate::error::Error;
use crate::graph::{Edge, Vertex};
use crate::identity::Identity;
use crate::store::{
    GraphStore, ProofRecord, has_identity_key, has_key, lemma_connect_extends,
    lemma_extends_trans, lemma_upsert_extends, lemma_upsert_key_present, no_proof_match,
    opt_str_view, proof_query_match, store_extends,
};
use crate::upstream::{Connection, DataSource, Platform, platform_of};
use crate::util::{new_uuid, now_timestamp, uri_ok, uri_parses};

verus! {

/// A decoded Keybase user-lookup response.
pub struct KeybaseResponse {
    /// Keybase's own embedded status.
    pub status: Status,
    /// The resolved subjects; Keybase returns one per lookup.
    pub them: Vec<PersonInfo>,
}

/// One resolved Keybase subject.
pub struct PersonInfo {
    /// Keybase's identifier of the subject.
    pub id: String,
    /// Account basics.
    pub basics: Basics,
    /// The subject's ownership proofs.
    pub proofs_summary: ProofsSummary,
}

/// The embedded status of a Keybase response; a non-zero code signals
/// failure even under a successful HTTP exchange.
pub struct Status {
    /// Zero on success.
    pub code: i32,
    /// Keybase's own diagnostic name for the code.
    pub name: String,
}

/// The proofs of one subject.
pub struct ProofsSummary {
    /// One entry per asserted link.
    pub all: Vec<ProofItem>,
}

/// Account basics of a Keybase subject.
pub struct Basics {
    pub username: String,
    pub ctime: i64,
    pub mtime: i64,
    pub id_version: i32,
    pub track_version: i32,
    pub last_id_change: i64,
    pub username_cased: String,
    pub status: i32,
    pub salt: String,
    pub eldest_seqno: i32,
}

/// One asserted link of a Keybase subject.
pub struct ProofItem {
    /// The linked account's platform, as Keybase names it.
    pub proof_type: String,
    /// The linked account's identifier on that platform.
    pub nametag: String,
    pub state: i32,
    pub service_url: String,
    pub proof_url: String,
    /// Keybase's identifier of this proof record.
    pub sig_id: String,
    pub proof_id: String,
    pub human_url: String,
    pub presentation_group: String,
    pub presentation_tag: String,
}

/// The body Keybase sends with a non-success HTTP status.
pub struct ErrorResponse {
    /// Keybase's own diagnostic message.
    pub message: String,
}

/// The Keybase connector: looks `identity` up under the query key
/// `platform` at Keybase's user-lookup endpoint.
pub struct Keybase {
    /// The lookup query key (for example a username lookup).
    pub platform: String,
    /// The subject to look up.
    pub identity: String,
}

/// The items of a response whose platform belongs to the closed
/// enumeration; the others are skipped.
pub open spec fn supported(items: Seq<ProofItem>) -> Seq<ProofItem> {
    items.filter(|p: ProofItem| platform_of(p.proof_type@) is Some)
}

/// How the supported-item view grows when an item is appended.
pub proof fn lemma_supported_push(items: Seq<ProofItem>, x: ProofItem)
    ensures
        supported(items.push(x)) == if platform_of(x.proof_type@) is Some {
            supported(items).push(x)
        } else {
            supported(items)
        },
{
    reveal(Seq::filter);
    assert(items.push(x).drop_last() =~= items);
    assert(items.push(x).last() == x);
}

/// How a connection relates to the response item it was normalized from:
/// `from` is the looked-up subject, `to` the linked account, and the
/// proof carries this connector's provenance and the item's record id.
pub open spec fn connection_for(
    c: Connection,
    subject_id: Seq<char>,
    subject_name: Seq<char>,
    item: ProofItem,
) -> bool {
    &&& c.from.platform == Platform::Keybase
    &&& c.from.identity@ == subject_id
    &&& c.from.display_name@ == subject_name
    &&& c.from.uuid is Some
    &&& c.from.created_at is None
    &&& c.from.avatar_url is None
    &&& c.from.profile_url is None
    &&& platform_of(item.proof_type@) == Some(c.to.platform)
    &&& c.to.identity@ == item.nametag@
    &&& c.to.display_name@ == item.nametag@
    &&& c.to.uuid is Some
    &&& c.to.created_at is None
    &&& c.to.avatar_url is None
    &&& c.to.profile_url is None
    &&& c.proof.source == DataSource::Keybase
    &&& opt_str_view(c.proof.record_id) == Some(item.proof_id@)
}

/// The connection's proof edge stands in the store.
pub open spec fn edge_materialized(proofs: Seq<ProofRecord>, c: Connection, item: ProofItem) -> bool {
    exists|k: int|
        0 <= k < proofs.len() && (#[trigger] proofs[k]).proof.uuid == c.proof.uuid
            && proofs[k].proof.source == DataSource::Keybase && opt_str_view(
            proofs[k].proof.record_id,
        ) == Some(item.proof_id@)
}

/// Both of the connection's identities and its proof edge stand in the
/// store.
pub open spec fn connection_materialized(st: GraphStore, c: Connection, item: ProofItem) -> bool {
    &&& has_identity_key(st.identities@, c.from.platform, c.from.identity@)
    &&& has_identity_key(st.identities@, c.to.platform, c.to.identity@)
    &&& edge_materialized(st.proofs@, c, item)
}

/// What holds of a materialized store fact as the store grows.
pub proof fn lemma_materialized_stable(pre: GraphStore, post: GraphStore, c: Connection, item: ProofItem)
    requires
        connection_materialized(pre, c, item),
        store_extends(post, pre),
    ensures
        connection_materialized(post, c, item),
{
    let k = choose|k: int|
        0 <= k < pre.proofs@.len() && (#[trigger] pre.proofs@[k]).proof.uuid == c.proof.uuid
            && pre.proofs@[k].proof.source == DataSource::Keybase && opt_str_view(
            pre.proofs@[k].proof.record_id,
        ) == Some(item.proof_id@);
    assert(post.proofs@[k] == pre.proofs@[k]);
}

/// A successful fetch: one connection per supported item, in response
/// order, each normalized from its item and materialized in the store.
pub open spec fn fetch_ok(cs: Seq<Connection>, post: GraphStore, person: PersonInfo) -> bool {
    let sup = supported(person.proofs_summary.all@);
    &&& cs.len() == sup.len()
    &&& forall|j: int|
        0 <= j < sup.len() ==> connection_for(
            #[trigger] cs[j],
            person.id@,
            person.basics.username@,
            sup[j],
        )
    &&& forall|j: int|
        0 <= j < sup.len() ==> connection_materialized(post, #[trigger] cs[j], sup[j])
}

/// The URL of Keybase's user-lookup endpoint for the given query key and
/// subject.
pub open spec fn keybase_lookup_url(platform: Seq<char>, identity: Seq<char>) -> Seq<char> {
    "https://keybase.io/_/api/1.0/user/lookup.json?"@ + platform + "="@ + identity
        + "&fields=proofs_summary"@
}

/// The error surfaced when the HTTP exchange itself fails: the upstream's
/// own message, wrapped with the response status.
pub fn upstream_failure(status: u16, body: ErrorResponse) -> (r: Error)
    ensures
        r matches Error::General(m, s) && m@ == body.message@ && s == status,
{
    Error::General(body.message, status)
}

impl Keybase {
    /// The lookup URL for this connector's query key and subject; a
    /// malformed URL is a parameter error, rejected before any exchange.
    pub fn lookup_url(&self) -> (r: Result<String, Error>)
        ensures
            match r {
                Ok(s) => s@ == keybase_lookup_url(self.platform@, self.identity@) && uri_ok(s@),
                Err(e) => e is ParamError && !uri_ok(
                    keybase_lookup_url(self.platform@, self.identity@),
                ),
            },
    {
        let url = "https://keybase.io/_/api/1.0/user/lookup.json?".to_owned().concat(
            self.platform.as_str(),
        ).concat("=").concat(self.identity.as_str()).concat("&fields=proofs_summary");
        proof {
            assert(url@ =~= keybase_lookup_url(self.platform@, self.identity@));
        }
        if uri_parses(url.as_str()) {
            Ok(url)
        } else {
            Err(Error::ParamError("invalid lookup uri: ".to_owned().concat(url.as_str())))
        }
    }

    /// Normalize a decoded lookup response and materialize it: a non-zero
    /// embedded status surfaces Keybase's own diagnostic; an empty subject
    /// list is the no-result condition; otherwise each supported item
    /// upserts the two identities and connects them with a proof edge,
    /// and unsupported items are skipped silently.
    ///
    /// `status` is the HTTP status of the exchange the response came from.
    #[verifier::rlimit(100)]
    pub fn fetch(&self, store: &mut GraphStore, status: u16, response: KeybaseResponse) -> (r:
        Result<Vec<Connection>, Error>)
        requires
            old(store).wf(),
        ensures
            final(store).wf(),
            response.status.code != 0 ==> (r matches Err(e) && (e matches Error::General(m, s)
                && m@ == response.status.name@ && s == status) && *final(store) == *old(store)),
            response.status.code == 0 && response.them@.len() == 0 ==> (r matches Err(e)
                && e is NoResult && *final(store) == *old(store)),
            response.status.code == 0 && response.them@.len() > 0 ==> (r matches Ok(cs)
                && fetch_ok(cs@, *final(store), response.them@.last())),
    {
        if response.status.code != 0 {
            return Err(Error::General(response.status.name, status));
        }
        let mut them = response.them;
        let person = match them.pop() {
            Some(p) => p,
            None => {
                return Err(Error::NoResult);
            },
        };
        let user_id = person.id;
        let user_name = person.basics.username;
        let items = person.proofs_summary.all;

        let mut connections: Vec<Connection> = Vec::new();
        let n = items.len();
        let mut idx: usize = 0;
        while idx < n
            invariant
                idx <= n,
                n == items@.len(),
                store.wf(),
                user_id@ == response.them@.last().id@,
                user_name@ == response.them@.last().basics.username@,
                items@ == response.them@.last().proofs_summary.all@,
                connections@.len() == supported(items@.take(idx as int)).len(),
                forall|j: int|
                    0 <= j < connections@.len() ==> connection_for(
                        #[trigger] connections@[j],
                        user_id@,
                        user_name@,
                        supported(items@.take(idx as int))[j],
                    ),
                forall|j: int|
                    0 <= j < connections@.len() ==> connection_materialized(
                        *store,
                        #[trigger] connections@[j],
                        supported(items@.take(idx as int))[j],
                    ),
            decreases n - idx,
        {
            let ghost sup_old = supported(items@.take(idx as int));
            proof {
                assert(items@.take(idx as int + 1) =~= items@.take(idx as int).push(
                    items@[idx as int],
                ));
                lemma_supported_push(items@.take(idx as int), items@[idx as int]);
            }
            match Platform::from_str(items[idx].proof_type.as_str()) {
                None => {
                    proof {
                        assert(supported(items@.take(idx as int + 1)) == sup_old);
                    }
                },
                Some(platform) => {
                    let ghost s0 = *store;
                    let from = Identity {
                        uuid: Some(new_uuid()),
                        platform: Platform::Keybase,
                        identity: user_id.clone(),
                        created_at: None,
                        display_name: user_name.clone(),
                        added_at: now_timestamp(),
                        avatar_url: None,
                        profile_url: None,
                        updated_at: now_timestamp(),
                    };
                    let from_record = match from.create_or_update(store) {
                        Ok(rec) => rec,
                        Err(e) => {
                            proof {
                                assert(false);
                            }
                            return Err(e);
                        },
                    };
                    let ghost s1 = *store;
                    let to = Identity {
                        uuid: Some(new_uuid()),
                        platform,
                        identity: items[idx].nametag.clone(),
                        created_at: None,
                        display_name: items[idx].nametag.clone(),
                        added_at: now_timestamp(),
                        avatar_url: None,
                        profile_url: None,
                        updated_at: now_timestamp(),
                    };
                    let to_record = match to.create_or_update(store) {
                        Ok(rec) => rec,
                        Err(e) => {
                            proof {
                                assert(false);
                            }
                            return Err(e);
                        },
                    };
                    let ghost s2 = *store;
                    let pf = Proof {
                        uuid: new_uuid(),
                        source: DataSource::Keybase,
                        record_id: Some(items[idx].proof_id.clone()),
                        created_at: Some(now_timestamp()),
                        last_fetched_at: now_timestamp(),
                    };
                    proof {
                        lemma_upsert_key_present(s0, s1, from_record, from);
                        lemma_upsert_extends(s1, s2, to_record, to);
                        lemma_upsert_key_present(s1, s2, to_record, to);
                        assert(has_key(s2.identities@, from_record.key));
                        assert(has_key(s2.identities@, to_record.key));
                    }
                    let prec = match pf.connect(store, &from_record, &to_record) {
                        Ok(rec) => rec,
                        Err(e) => {
                            proof {
                                assert(false);
                            }
                            return Err(e);
                        },
                    };
                    let ghost s3 = *store;
                    let ghost old_connections = connections@;
                    let c = Connection { from, to, proof: prec.proof };
                    connections.push(c);
                    proof {
                        lemma_upsert_extends(s0, s1, from_record, from);
                        lemma_connect_extends(s2, s3, prec, pf, from_record.key, to_record.key);
                        lemma_extends_trans(s2, s1, s0);
                        lemma_extends_trans(s3, s2, s0);
                        lemma_extends_trans(s3, s2, s1);
                        // the new connection's identities and edge stand in s3
                        assert(has_identity_key(s3.identities@, Platform::Keybase, user_id@));
                        assert(has_identity_key(s3.identities@, platform, items@[idx as int].nametag@));
                        if no_proof_match(
                            s2.proofs@,
                            from_record.key,
                            to_record.key,
                            pf.source,
                            opt_str_view(pf.record_id),
                        ) {
                            let k = s2.proofs@.len() as int;
                            assert(s3.proofs@[k] == prec);
                            assert(edge_materialized(s3.proofs@, c, items@[idx as int]));
                        } else {
                            let w = choose|w: int|
                                0 <= w < s2.proofs@.len() && #[trigger] s2.proofs@[w] == prec
                                    && proof_query_match(
                                    prec,
                                    from_record.key,
                                    to_record.key,
                                    pf.source,
                                    opt_str_view(pf.record_id),
                                ) && (forall|j: int|
                                    0 <= j < w ==> !proof_query_match(
                                        #[trigger] s2.proofs@[j],
                                        from_record.key,
                                        to_record.key,
                                        pf.source,
                                        opt_str_view(pf.record_id),
                                    ));
                            assert(s3.proofs@[w] == prec);
                            assert(edge_materialized(s3.proofs@, c, items@[idx as int]));
                        }
                        assert(connection_materialized(s3, c, items@[idx as int]));
                        assert(connection_for(c, user_id@, user_name@, items@[idx as int]));
                        // the connections of earlier iterations carry over
                        let sup_new = supported(items@.take(idx as int + 1));
                        assert(sup_new == sup_old.push(items@[idx as int]));
                        assert forall|j: int|
                            0 <= j < connections@.len() implies connection_materialized(
                            s3,
                            #[trigger] connections@[j],
                            sup_new[j],
                        ) by {
                            if j < old_connections.len() {
                                assert(connections@[j] == old_connections[j]);
                                assert(sup_new[j] == sup_old[j]);
                                lemma_materialized_stable(s0, s3, old_connections[j], sup_old[j]);
                            } else {
                                assert(connections@[j] == c);
                                assert(sup_new[j] == items@[idx as int]);
                            }
                        }
                        assert forall|j: int|
                            0 <= j < connections@.len() implies connection_for(
                            #[trigger] connections@[j],
                            user_id@,
                            user_name@,
                            sup_new[j],
                        ) by {
                            if j < old_connections.len() {
                                assert(connections@[j] == old_connections[j]);
                                assert(sup_new[j] == sup_old[j]);
                            } else {
                                assert(connections@[j] == c);
                                assert(sup_new[j] == items@[idx as int]);
                            }
                        }
                    }
                },
            }
            idx += 1;
        }
        proof {
            assert(items@.take(n as int) =~= items@);
        }
        Ok(connections)
    }
}

} // verus!
