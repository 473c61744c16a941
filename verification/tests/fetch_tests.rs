use relation_service::edge::Proof;
use relation_service::error::Error;
use relation_service::graph::{Edge, Vertex};
use relation_service::identity::Identity;
use relation_service::keybase::{
    Basics, ErrorResponse, Keybase, KeybaseResponse, PersonInfo, ProofItem, ProofsSummary, Status,
    upstream_failure,
};
use relation_service::query::ProofQuery;
use relation_service::store::GraphStore;
use relation_service::upstream::{DataSource, Platform};

fn basics(username: &str) -> Basics {
    Basics {
        username: username.to_owned(),
        ctime: 1_500_000_000,
        mtime: 1_500_000_000,
        id_version: 1,
        track_version: 1,
        last_id_change: 1_500_000_000,
        username_cased: username.to_owned(),
        status: 0,
        salt: "00".to_owned(),
        eldest_seqno: 1,
    }
}

fn item(proof_type: &str, nametag: &str, proof_id: &str) -> ProofItem {
    ProofItem {
        proof_type: proof_type.to_owned(),
        nametag: nametag.to_owned(),
        state: 1,
        service_url: "https://example.net/".to_owned(),
        proof_url: "https://example.net/proof".to_owned(),
        sig_id: "sig".to_owned(),
        proof_id: proof_id.to_owned(),
        human_url: "https://example.net/h".to_owned(),
        presentation_group: "g".to_owned(),
        presentation_tag: "t".to_owned(),
    }
}

fn response_for(subject_id: &str, username: &str, items: Vec<ProofItem>) -> KeybaseResponse {
    KeybaseResponse {
        status: Status { code: 0, name: "OK".to_owned() },
        them: vec![PersonInfo {
            id: subject_id.to_owned(),
            basics: basics(username),
            proofs_summary: ProofsSummary { all: items },
        }],
    }
}

fn keybase() -> Keybase {
    Keybase { platform: "username".to_owned(), identity: "alice".to_owned() }
}

#[test]
fn unsupported_platform_is_skipped() {
    let mut db = GraphStore::new();
    let response = response_for(
        "alice_kb_id",
        "alice",
        vec![item("twitter", "alice_tw", "p1"), item("unknownchain", "alice_uc", "p2")],
    );
    let connections = keybase().fetch(&mut db, 200, response).unwrap();
    assert_eq!(connections.len(), 1);
    assert_eq!(connections[0].to.platform, Platform::Twitter);
    assert_eq!(connections[0].to.identity, "alice_tw".to_owned());
}

#[test]
fn fetch_materializes_and_repeats_idempotently() {
    let mut db = GraphStore::new();
    let response = response_for("alice_kb_id", "alice", vec![item("twitter", "alice_tw", "p1")]);
    let first = keybase().fetch(&mut db, 200, response).unwrap();
    assert_eq!(first.len(), 1);
    assert_eq!(first[0].from.platform, Platform::Keybase);
    assert_eq!(first[0].from.identity, "alice_kb_id".to_owned());
    assert_eq!(first[0].from.display_name, "alice".to_owned());
    assert_eq!(first[0].to.platform, Platform::Twitter);
    assert_eq!(first[0].to.identity, "alice_tw".to_owned());
    assert_eq!(first[0].proof.source, DataSource::Keybase);
    assert_eq!(first[0].proof.record_id, Some("p1".to_owned()));
    assert_eq!(db.identities.len(), 2);
    assert_eq!(db.proofs.len(), 1);

    let again = response_for("alice_kb_id", "alice", vec![item("twitter", "alice_tw", "p1")]);
    let second = keybase().fetch(&mut db, 200, again).unwrap();
    assert_eq!(second.len(), 1);
    // the same two vertices and the same edge, no duplicates
    assert_eq!(db.identities.len(), 2);
    assert_eq!(db.proofs.len(), 1);
    assert_eq!(second[0].proof.uuid, first[0].proof.uuid);
}

#[test]
fn fetch_subject_with_zero_proofs_is_empty_not_error() {
    let mut db = GraphStore::new();
    let response = response_for("alice_kb_id", "alice", Vec::new());
    let connections = keybase().fetch(&mut db, 200, response).unwrap();
    assert_eq!(connections.len(), 0);
    assert_eq!(db.identities.len(), 0);
    assert_eq!(db.proofs.len(), 0);
}

#[test]
fn fetch_surfaces_embedded_failure() {
    let mut db = GraphStore::new();
    let response = KeybaseResponse {
        status: Status { code: 205, name: "input error".to_owned() },
        them: Vec::new(),
    };
    let err = keybase().fetch(&mut db, 200, response).unwrap_err();
    match err {
        Error::General(message, status) => {
            assert_eq!(message, "input error".to_owned());
            assert_eq!(status, 200);
        }
        _ => panic!("expected a general upstream error"),
    }
    assert_eq!(db.identities.len(), 0);
}

#[test]
fn fetch_no_subject_is_no_result() {
    let mut db = GraphStore::new();
    let response = KeybaseResponse {
        status: Status { code: 0, name: "OK".to_owned() },
        them: Vec::new(),
    };
    let err = keybase().fetch(&mut db, 200, response).unwrap_err();
    assert!(matches!(err, Error::NoResult));
}

#[test]
fn upstream_failure_wraps_message_and_status() {
    let err = upstream_failure(404, ErrorResponse { message: "not found".to_owned() });
    match err {
        Error::General(message, status) => {
            assert_eq!(message, "not found".to_owned());
            assert_eq!(status, 404);
        }
        _ => panic!("expected a general upstream error"),
    }
}

#[test]
fn lookup_url_is_built_and_validated() {
    let url = keybase().lookup_url().unwrap();
    assert_eq!(
        url,
        "https://keybase.io/_/api/1.0/user/lookup.json?username=alice&fields=proofs_summary"
            .to_owned()
    );
    let bad = Keybase { platform: "user name".to_owned(), identity: "a b".to_owned() };
    assert!(matches!(bad.lookup_url().unwrap_err(), Error::ParamError(_)));
}

#[test]
fn platform_parsing_is_closed() {
    assert_eq!(Platform::from_str("keybase"), Some(Platform::Keybase));
    assert_eq!(Platform::from_str("twitter"), Some(Platform::Twitter));
    assert_eq!(Platform::from_str("ethereum"), Some(Platform::Ethereum));
    assert_eq!(Platform::from_str("generic_web_site"), None);
    assert_eq!(Platform::from_str(""), None);
    assert_eq!(Platform::Keybase.name(), "keybase".to_owned());
    assert_eq!(DataSource::NextID.name(), "nextid".to_owned());
}

#[test]
fn proof_query_finds_by_uuid_string() {
    let mut db = GraphStore::new();
    let a = Identity {
        uuid: None,
        platform: Platform::Keybase,
        identity: "alice".to_owned(),
        display_name: "Alice".to_owned(),
        avatar_url: None,
        profile_url: None,
        created_at: None,
        added_at: 0,
        updated_at: 0,
    }
    .create_or_update(&mut db)
    .unwrap();
    let b = Identity {
        uuid: None,
        platform: Platform::Twitter,
        identity: "alice_tw".to_owned(),
        display_name: "alice_tw".to_owned(),
        avatar_url: None,
        profile_url: None,
        created_at: None,
        added_at: 0,
        updated_at: 0,
    }
    .create_or_update(&mut db)
    .unwrap();
    let p = Proof {
        uuid: 0xdead_beef,
        source: DataSource::Keybase,
        record_id: Some("p1".to_owned()),
        created_at: None,
        last_fetched_at: 0,
    };
    let rec = p.connect(&mut db, &a, &b).unwrap();

    let query = ProofQuery::default();
    // the record's own rendering parses back to the same record
    let found = query.proof_by_uuid(&db, Some(rec.uuid())).unwrap().unwrap();
    assert_eq!(found.proof.uuid, 0xdead_beef);
    // an absent UUID finds nothing, without error
    assert!(query.proof_by_uuid(&db, None).unwrap().is_none());
    // an unused UUID finds nothing, without error
    let unused = "00000000-0000-0000-0000-00000000002a".to_owned();
    assert!(query.proof_by_uuid(&db, Some(unused)).unwrap().is_none());
    // an unparsable UUID is a parameter error
    let err = query.proof_by_uuid(&db, Some("not-a-uuid".to_owned())).unwrap_err();
    assert!(matches!(err, Error::ParamError(_)));
}

#[test]
fn error_messages() {
    assert_eq!(Error::NoResult.message(), "no result".to_owned());
    assert_eq!(Error::ParamError("bad".to_owned()).message(), "bad".to_owned());
    assert_eq!(Error::General("oops".to_owned(), 500).message(), "oops".to_owned());
    assert_eq!(Error::Store("down".to_owned()).message(), "down".to_owned());
}
