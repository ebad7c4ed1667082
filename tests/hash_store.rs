use doc_chat::hash_store::MAX_HASH_LEN;
use doc_chat::{store_hash, HashRecord, HashStoreError, Identity, StoreHash};

fn slot(owner: Identity, hash: &str, timestamp: i64) -> StoreHash {
    StoreHash { hash_record: HashRecord { owner, hash: hash.to_string(), timestamp }, user: owner }
}

#[test]
fn store_hash_writes_record() {
    let me = Identity::new([3u8; 32]);
    let mut ctx = slot(Identity::new([0u8; 32]), "", 0);
    ctx.user = me;
    assert_eq!(store_hash(&mut ctx, 55, "abc123".to_string()), Ok(()));
    assert!(ctx.hash_record.owner.same_as(&me));
    assert_eq!(ctx.hash_record.hash, "abc123");
    assert_eq!(ctx.hash_record.timestamp, 55);
}

#[test]
fn store_hash_overwrites_earlier_hash() {
    let me = Identity::new([3u8; 32]);
    let mut ctx = slot(me, "old", 1);
    assert_eq!(store_hash(&mut ctx, 2, "new".to_string()), Ok(()));
    assert_eq!(ctx.hash_record.hash, "new");
    assert_eq!(ctx.hash_record.timestamp, 2);
}

#[test]
fn store_hash_accepts_exactly_max_length() {
    assert_eq!(MAX_HASH_LEN, 64);
    let mut ctx = slot(Identity::new([3u8; 32]), "old", 1);
    let h = "a".repeat(64);
    assert_eq!(store_hash(&mut ctx, 2, h.clone()), Ok(()));
    assert_eq!(ctx.hash_record.hash, h);
}

#[test]
fn store_hash_rejects_long_hash_without_writing() {
    let mut ctx = slot(Identity::new([3u8; 32]), "old", 1);
    assert_eq!(store_hash(&mut ctx, 2, "a".repeat(65)), Err(HashStoreError::InvalidHashLength));
    assert_eq!(ctx.hash_record.hash, "old");
    assert_eq!(ctx.hash_record.timestamp, 1);
}

#[test]
fn store_hash_counts_characters_not_bytes() {
    let mut ctx = slot(Identity::new([3u8; 32]), "old", 1);
    let h = "\u{e9}".repeat(64);
    assert_eq!(store_hash(&mut ctx, 2, h), Ok(()));
    assert_eq!(store_hash(&mut ctx, 3, "\u{e9}".repeat(65)), Err(HashStoreError::InvalidHashLength));
    assert_eq!(ctx.hash_record.timestamp, 2);
}

#[test]
fn store_hash_accepts_empty_hash() {
    let mut ctx = slot(Identity::new([3u8; 32]), "old", 1);
    assert_eq!(store_hash(&mut ctx, 4, String::new()), Ok(()));
    assert_eq!(ctx.hash_record.hash, "");
}
