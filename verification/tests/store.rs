use narwhal_evm::error::EngineError;
use narwhal_evm::store::{batch_from_read, batch_locations, worker_db, BatchLocation, PayloadEntry, StoreRead};

#[test]
fn worker_store_is_beside_the_primary_store() {
    assert_eq!(worker_db("db-0", 0), "db-0-0");
    assert_eq!(worker_db("db-0", 1), "db-0-1");
    assert_eq!(worker_db("/data/primary", 42), "/data/primary-42");
}

#[test]
fn worker_store_path_writes_every_digit() {
    assert_eq!(worker_db("s", 10), "s-10");
    assert_eq!(worker_db("s", 4294967295), "s-4294967295");
    assert_eq!(worker_db("", 7), "-7");
}

#[test]
fn batch_locations_follow_the_payload() {
    let payload = vec![
        PayloadEntry { digest: vec![1, 2, 3], worker_id: 0 },
        PayloadEntry { digest: vec![9], worker_id: 3 },
    ];
    let locs = batch_locations("db-1", &payload);
    assert_eq!(locs.len(), 2);
    assert_eq!(locs[0].path, "db-1-0");
    assert_eq!(locs[0].key, vec![1, 2, 3]);
    assert_eq!(locs[1].path, "db-1-3");
    assert_eq!(locs[1].key, vec![9]);
}

#[test]
fn reads_become_batches_or_errors() {
    let loc = BatchLocation { path: "db-0-0".to_string(), key: vec![7, 7] };
    match batch_from_read(&loc, StoreRead::Found(vec![5, 6])) {
        Ok(b) => assert_eq!(b, vec![5, 6]),
        Err(_) => panic!("expected the stored bytes"),
    }
    match batch_from_read(&loc, StoreRead::Missing) {
        Err(EngineError::DigestNotFound(d)) => assert_eq!(d, vec![7, 7]),
        _ => panic!("expected DigestNotFound"),
    }
    match batch_from_read(&loc, StoreRead::Failed("IO error".to_string())) {
        Err(EngineError::Store(m)) => assert_eq!(m, "IO error"),
        _ => panic!("expected a store error"),
    }
}
