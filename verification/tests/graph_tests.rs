use relation_service::edge::Proof;
use relation_service::graph::{Edge, Vertex};
use relation_service::identity::Identity;
use relation_service::store::GraphStore;
use relation_service::upstream::{DataSource, Platform};

fn plain_identity(platform: Platform, id: &str, name: &str) -> Identity {
    Identity {
        uuid: None,
        platform,
        identity: id.to_owned(),
        display_name: name.to_owned(),
        avatar_url: None,
        profile_url: None,
        created_at: None,
        added_at: 1_600_000_000,
        updated_at: 1_600_000_000,
    }
}

#[test]
fn test_create_and_find() {
    let mut db = GraphStore::new();
    let from = plain_identity(Platform::Twitter, "dummy_from", "Dummy From")
        .create_or_update(&mut db)
        .unwrap();
    let to = plain_identity(Platform::Ethereum, "dummy_to", "Dummy To")
        .create_or_update(&mut db)
        .unwrap();
    let connection = Proof {
        uuid: 0x1111_2222_3333_4444,
        source: DataSource::SybilList,
        record_id: Some("fake-record-id".to_owned()),
        created_at: Some(1_500_000_000),
        last_fetched_at: 1_600_000_000,
    };
    let generated = connection.connect(&mut db, &from, &to).unwrap();

    assert_eq!(generated.id_from(), from.id());
    assert_eq!(generated.id_to(), to.id());
    assert_eq!(generated.record_id(), connection.record_id);
    assert_eq!(generated.proof.source, connection.source);
    assert_eq!(generated.proof.uuid, connection.uuid);

    let found_by_from_to =
        Proof::find_by_from_to(&db, &from, &to, &connection.source, &connection.record_id)
            .unwrap()
            .unwrap();
    assert_eq!(found_by_from_to.proof.uuid, generated.proof.uuid);

    let found_by_uuid = Proof::find_by_uuid(&db, generated.proof.uuid).unwrap().unwrap();
    assert_eq!(found_by_uuid.proof.uuid, generated.proof.uuid);
}

#[test]
fn connect_twice_is_idempotent() {
    let mut db = GraphStore::new();
    let a = plain_identity(Platform::Keybase, "alice", "Alice")
        .create_or_update(&mut db)
        .unwrap();
    let b = plain_identity(Platform::Twitter, "alice_tw", "alice_tw")
        .create_or_update(&mut db)
        .unwrap();
    let first = Proof {
        uuid: 1,
        source: DataSource::Keybase,
        record_id: Some("p1".to_owned()),
        created_at: None,
        last_fetched_at: 10,
    };
    let r1 = first.connect(&mut db, &a, &b).unwrap();
    // a later fetch of the same fact carries a fresh UUID
    let second = Proof {
        uuid: 2,
        source: DataSource::Keybase,
        record_id: Some("p1".to_owned()),
        created_at: None,
        last_fetched_at: 20,
    };
    let r2 = second.connect(&mut db, &a, &b).unwrap();
    assert_eq!(db.proofs.len(), 1);
    assert_eq!(r2.proof.uuid, r1.proof.uuid);
    assert_eq!(r2.key, r1.key);
}

#[test]
fn connect_distinguishes_record_ids() {
    let mut db = GraphStore::new();
    let a = plain_identity(Platform::Keybase, "alice", "Alice")
        .create_or_update(&mut db)
        .unwrap();
    let b = plain_identity(Platform::Twitter, "alice_tw", "alice_tw")
        .create_or_update(&mut db)
        .unwrap();
    let first = Proof {
        uuid: 1,
        source: DataSource::Keybase,
        record_id: Some("p1".to_owned()),
        created_at: None,
        last_fetched_at: 10,
    };
    first.connect(&mut db, &a, &b).unwrap();
    // same endpoints and source, different asserting record: a new edge
    let other = Proof {
        uuid: 2,
        source: DataSource::Keybase,
        record_id: Some("p2".to_owned()),
        created_at: None,
        last_fetched_at: 10,
    };
    let r2 = other.connect(&mut db, &a, &b).unwrap();
    assert_eq!(db.proofs.len(), 2);
    assert_eq!(r2.proof.uuid, 2);
}

#[test]
fn connect_is_directional() {
    let mut db = GraphStore::new();
    let a = plain_identity(Platform::Keybase, "alice", "Alice")
        .create_or_update(&mut db)
        .unwrap();
    let b = plain_identity(Platform::Twitter, "alice_tw", "alice_tw")
        .create_or_update(&mut db)
        .unwrap();
    let forward = Proof {
        uuid: 1,
        source: DataSource::Keybase,
        record_id: Some("p1".to_owned()),
        created_at: None,
        last_fetched_at: 10,
    };
    let r1 = forward.connect(&mut db, &a, &b).unwrap();
    let backward = Proof {
        uuid: 2,
        source: DataSource::Keybase,
        record_id: Some("p1".to_owned()),
        created_at: None,
        last_fetched_at: 10,
    };
    let r2 = backward.connect(&mut db, &b, &a).unwrap();
    assert_eq!(db.proofs.len(), 2);
    assert_ne!(r1.key, r2.key);
    assert_eq!(r1.id_from(), a.id());
    assert_eq!(r1.id_to(), b.id());
    assert_eq!(r2.id_from(), b.id());
    assert_eq!(r2.id_to(), a.id());
}

#[test]
fn upsert_keeps_external_key_unique() {
    let mut db = GraphStore::new();
    let first = Identity {
        uuid: Some(7),
        platform: Platform::Keybase,
        identity: "alice".to_owned(),
        display_name: "Alice".to_owned(),
        avatar_url: None,
        profile_url: None,
        created_at: Some(1_000),
        added_at: 2_000,
        updated_at: 2_000,
    };
    let r1 = first.create_or_update(&mut db).unwrap();
    let second = Identity {
        uuid: Some(9),
        platform: Platform::Keybase,
        identity: "alice".to_owned(),
        display_name: "Alice Renamed".to_owned(),
        avatar_url: Some("https://example.net/a.png".to_owned()),
        profile_url: None,
        created_at: Some(5_000),
        added_at: 3_000,
        updated_at: 3_000,
    };
    let r2 = second.create_or_update(&mut db).unwrap();
    assert_eq!(db.identities.len(), 1);
    assert_eq!(r2.key, r1.key);
    // immutable fields are kept from the first record
    assert_eq!(r2.record.uuid, Some(7));
    assert_eq!(r2.record.created_at, Some(1_000));
    assert_eq!(r2.record.added_at, 2_000);
    // mutable fields reflect the latest call
    assert_eq!(r2.record.display_name, "Alice Renamed".to_owned());
    assert_eq!(r2.record.avatar_url, Some("https://example.net/a.png".to_owned()));
    assert_eq!(r2.record.updated_at, 3_000);
}

#[test]
fn upsert_distinguishes_platforms() {
    let mut db = GraphStore::new();
    plain_identity(Platform::Keybase, "alice", "Alice")
        .create_or_update(&mut db)
        .unwrap();
    plain_identity(Platform::Twitter, "alice", "Alice")
        .create_or_update(&mut db)
        .unwrap();
    assert_eq!(db.identities.len(), 2);
}

#[test]
fn find_by_uuid_fresh_vertex_and_unused_uuid() {
    let mut db = GraphStore::new();
    let v = Identity {
        uuid: Some(42),
        platform: Platform::Ethereum,
        identity: "0xabc".to_owned(),
        display_name: "0xabc".to_owned(),
        avatar_url: None,
        profile_url: None,
        created_at: None,
        added_at: 5,
        updated_at: 5,
    };
    v.create_or_update(&mut db).unwrap();
    let found = Identity::find_by_uuid(&db, 42).unwrap().unwrap();
    assert_eq!(found.record.uuid, Some(42));
    assert_eq!(found.record.platform, Platform::Ethereum);
    assert_eq!(found.record.identity, "0xabc".to_owned());
    assert_eq!(found.record.display_name, "0xabc".to_owned());
    assert_eq!(found.record.added_at, 5);
    // an unused UUID is not found, and that is not an error
    assert!(Identity::find_by_uuid(&db, 43).unwrap().is_none());
    assert!(Proof::find_by_uuid(&db, 43).unwrap().is_none());
}

#[test]
fn neighbors_follow_outgoing_edges() {
    let mut db = GraphStore::new();
    let a = plain_identity(Platform::Keybase, "alice", "Alice")
        .create_or_update(&mut db)
        .unwrap();
    let b = plain_identity(Platform::Twitter, "alice_tw", "alice_tw")
        .create_or_update(&mut db)
        .unwrap();
    let c = plain_identity(Platform::Ethereum, "0xalice", "0xalice")
        .create_or_update(&mut db)
        .unwrap();
    let p1 = Proof {
        uuid: 1,
        source: DataSource::Keybase,
        record_id: Some("p1".to_owned()),
        created_at: None,
        last_fetched_at: 10,
    };
    p1.connect(&mut db, &a, &b).unwrap();
    let p2 = Proof {
        uuid: 2,
        source: DataSource::Keybase,
        record_id: Some("p2".to_owned()),
        created_at: None,
        last_fetched_at: 10,
    };
    p2.connect(&mut db, &a, &c).unwrap();
    // an incoming edge is not a neighbor of its target
    let of_a = a.neighbors(&db).unwrap();
    assert_eq!(of_a.len(), 2);
    assert_eq!(of_a[0].key, b.key);
    assert_eq!(of_a[1].key, c.key);
    let of_b = b.neighbors(&db).unwrap();
    assert_eq!(of_b.len(), 0);
}

#[test]
fn vertex_neighbors_resolve_external_key() {
    let mut db = GraphStore::new();
    let alice = plain_identity(Platform::Keybase, "alice", "Alice");
    let a = alice.create_or_update(&mut db).unwrap();
    let b = plain_identity(Platform::Twitter, "alice_tw", "alice_tw")
        .create_or_update(&mut db)
        .unwrap();
    let p = Proof {
        uuid: 1,
        source: DataSource::Keybase,
        record_id: Some("p1".to_owned()),
        created_at: None,
        last_fetched_at: 10,
    };
    p.connect(&mut db, &a, &b).unwrap();
    // the vertex value itself resolves its record by external key
    let found = alice.neighbors(&db).unwrap();
    assert_eq!(found.len(), 1);
    assert_eq!(found[0].key, b.key);
    // an unstored vertex has no neighbors, and that is not an error
    let stranger = plain_identity(Platform::Ethereum, "0xnobody", "nobody");
    assert_eq!(stranger.neighbors(&db).unwrap().len(), 0);
}

#[test]
fn proof_record_accessors() {
    let mut db = GraphStore::new();
    let a = plain_identity(Platform::Keybase, "alice", "Alice")
        .create_or_update(&mut db)
        .unwrap();
    let b = plain_identity(Platform::Twitter, "alice_tw", "alice_tw")
        .create_or_update(&mut db)
        .unwrap();
    let p = Proof {
        uuid: 5,
        source: DataSource::SybilList,
        record_id: None,
        created_at: Some(77),
        last_fetched_at: 99,
    };
    let rec = p.connect(&mut db, &a, &b).unwrap();
    assert_eq!(rec.source(), "sybil_list".to_owned());
    assert_eq!(rec.record_id(), None);
    assert_eq!(rec.created_at(), Some(77));
    assert_eq!(rec.last_fetched_at(), 99);
    let from_rec = rec.from(&db).unwrap();
    assert_eq!(from_rec.key, a.key);
    assert_eq!(from_rec.record.identity, "alice".to_owned());
    let to_rec = rec.to(&db).unwrap();
    assert_eq!(to_rec.key, b.key);
}

#[test]
fn default_proof_is_blank() {
    let p = Proof::default();
    assert_eq!(p.source, DataSource::NextID);
    assert_eq!(p.record_id, None);
    assert_eq!(p.created_at, None);
}

#[test]
fn getter_uuids() {
    let v = plain_identity(Platform::Keybase, "alice", "Alice");
    assert_eq!(v.uuid(), None);
    let p = Proof {
        uuid: 5,
        source: DataSource::Keybase,
        record_id: None,
        created_at: None,
        last_fetched_at: 0,
    };
    assert_eq!(p.uuid(), Some(5));
}
