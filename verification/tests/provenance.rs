use message_relay::provenance::{
    duplicate_author, ChannelMessageAuthorModel, ChannelMessageModel, ProvenanceUpsert,
};

fn author() -> ChannelMessageAuthorModel {
    ChannelMessageAuthorModel { id: 7, is_owner: true, permissions: 1 << 29, role_ids: vec![3, 4] }
}

fn record(channel_id: u64, hash: &str, at: i64) -> ChannelMessageModel {
    ChannelMessageModel {
        channel_id,
        message_id: 42,
        hash: hash.to_string(),
        created_at: at,
        updated_at: at,
        author: Some(author()),
    }
}

#[test]
fn upsert_names_what_is_set_and_what_is_inserted() {
    let upsert = record(2, "h1", 1000).update_or_create();
    assert_eq!(
        upsert,
        ProvenanceUpsert {
            message_id: 42,
            set_hash: "h1".to_string(),
            set_updated_at: 1000,
            insert_channel_id: 2,
            insert_created_at: 1000,
            insert_author: Some(author()),
        }
    );
}

#[test]
fn first_upsert_creates_the_record_whole() {
    let first = record(2, "h1", 1000);
    assert_eq!(first.update_or_create().apply(None), first);
}

#[test]
fn second_upsert_updates_digest_and_time_only() {
    let first = record(2, "h1", 1000);
    let mut second = record(9, "h2", 2000);
    second.author = None;
    let once = first.update_or_create().apply(None);
    let twice = second.update_or_create().apply(Some(once));
    assert_eq!(twice.channel_id, 2);
    assert_eq!(twice.created_at, 1000);
    assert_eq!(twice.message_id, 42);
    assert_eq!(twice.author, Some(author()));
    assert_eq!(twice.hash, "h2");
    assert_eq!(twice.updated_at, 2000);
}

#[test]
fn upsert_of_the_same_record_twice_changes_nothing() {
    let first = record(2, "h1", 1000);
    let once = first.update_or_create().apply(None);
    let twice = first.update_or_create().apply(Some(once.clone()));
    assert_eq!(twice, once);
}

#[test]
fn existing_record_without_author_keeps_none() {
    let mut old = record(2, "h0", 500);
    old.author = None;
    let stored = record(3, "h1", 1000).update_or_create().apply(Some(old));
    assert_eq!(stored.author, None);
    assert_eq!(stored.channel_id, 2);
    assert_eq!(stored.created_at, 500);
    assert_eq!(stored.hash, "h1");
    assert_eq!(stored.updated_at, 1000);
}

#[test]
fn author_copies_hold_the_same() {
    assert_eq!(author().duplicate(), author());
    assert_eq!(duplicate_author(&Some(author())), Some(author()));
    assert_eq!(duplicate_author(&None), None);
}
