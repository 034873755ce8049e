use data_backed_nfts::{
    grant_access, initialize, AccessRecordStore, CustomError, DataAccount, Identity,
};

fn id(byte: u8) -> Identity {
    Identity::new([byte; 32])
}

fn make(
    store: &mut AccessRecordStore,
    asset: u8,
    dataset: &str,
    authority: u8,
    expiry: i64,
) -> Result<DataAccount, CustomError> {
    store.create(id(asset), String::from(dataset), String::from("url"), id(authority), 9, expiry)
}

#[test]
fn a_new_store_is_empty() {
    let store = AccessRecordStore::new();
    assert!(!store.contains(&id(1)));
    assert_eq!(store.get(&id(1)), None);
}

#[test]
fn create_returns_and_keeps_the_record() {
    let mut store = AccessRecordStore::new();
    let expected = initialize(String::from("first"), String::from("url"), id(50), 9, 1_000);
    assert_eq!(make(&mut store, 1, "first", 50, 1_000), Ok(expected.clone()));
    assert!(store.contains(&id(1)));
    assert_eq!(store.get(&id(1)), Some(&expected));
    assert!(!store.contains(&id(2)));
}

#[test]
fn a_second_create_for_an_asset_is_a_duplicate() {
    let mut store = AccessRecordStore::new();
    assert!(make(&mut store, 1, "first", 50, 1_000).is_ok());
    assert_eq!(make(&mut store, 1, "second", 60, 2_000), Err(CustomError::DuplicateRecord));
    let kept = initialize(String::from("first"), String::from("url"), id(50), 9, 1_000);
    assert_eq!(store.get(&id(1)), Some(&kept));
    assert_eq!(make(&mut store, 1, "first", 50, 1_000), Err(CustomError::DuplicateRecord));
    assert_eq!(store.get(&id(1)), Some(&kept));
}

#[test]
fn each_asset_has_a_record_of_its_own() {
    let mut store = AccessRecordStore::new();
    assert!(make(&mut store, 1, "one", 50, 1_000).is_ok());
    assert!(make(&mut store, 2, "two", 60, 2_000).is_ok());
    assert!(make(&mut store, 3, "three", 70, 3_000).is_ok());
    assert_eq!(store.get(&id(2)).map(|r| r.dataset_id.as_str()), Some("two"));
    assert_eq!(store.get(&id(3)).map(|r| r.expiry), Some(3_000));
    assert_eq!(store.extend_lease(&id(2), 1, 5), Some(Ok(2_005)));
    assert_eq!(store.get(&id(1)).map(|r| r.expiry), Some(1_000));
    assert_eq!(store.get(&id(2)).map(|r| r.expiry), Some(2_005));
    assert_eq!(store.get(&id(3)).map(|r| r.expiry), Some(3_000));
}

#[test]
fn operations_on_a_missing_record_do_nothing() {
    let mut store = AccessRecordStore::new();
    assert!(make(&mut store, 1, "one", 50, 1_000).is_ok());
    assert_eq!(store.extend_lease(&id(2), 1, 5), None);
    assert_eq!(store.transfer_ownership(&id(2), &id(50), id(51)), None);
    assert_eq!(store.get(&id(1)).map(|r| (r.expiry, r.authority)), Some((1_000, id(50))));
    assert!(!store.contains(&id(2)));
}

#[test]
fn stored_leases_extend_as_records_do() {
    let mut store = AccessRecordStore::new();
    assert!(make(&mut store, 1, "one", 50, 1_000).is_ok());
    assert_eq!(store.extend_lease(&id(1), 0, 5), Some(Err(CustomError::NoAssetHeld)));
    assert_eq!(store.extend_lease(&id(1), 1, 0), Some(Err(CustomError::InvalidDuration)));
    assert_eq!(store.get(&id(1)).map(|r| r.expiry), Some(1_000));
    assert_eq!(store.extend_lease(&id(1), 1, 500), Some(Ok(1_500)));
    assert_eq!(store.get(&id(1)).map(|r| r.expiry), Some(1_500));
}

#[test]
fn stored_records_change_hands_as_records_do() {
    let mut store = AccessRecordStore::new();
    assert!(make(&mut store, 1, "one", 50, 1_000).is_ok());
    assert_eq!(
        store.transfer_ownership(&id(1), &id(51), id(51)),
        Some(Err(CustomError::Unauthorized))
    );
    assert_eq!(store.get(&id(1)).map(|r| r.authority), Some(id(50)));
    assert_eq!(store.transfer_ownership(&id(1), &id(50), id(51)), Some(Ok(())));
    assert_eq!(store.get(&id(1)).map(|r| r.authority), Some(id(51)));
    assert_eq!(
        store.transfer_ownership(&id(1), &id(50), id(52)),
        Some(Err(CustomError::Unauthorized))
    );
    assert_eq!(store.transfer_ownership(&id(1), &id(51), id(52)), Some(Ok(())));
}

#[test]
fn access_is_decided_on_the_stored_record() {
    let mut store = AccessRecordStore::new();
    assert!(make(&mut store, 1, "one", 50, 1_000).is_ok());
    let record = store.get(&id(1)).expect("just made");
    assert!(grant_access(record, id(7), 1, 1_000).is_ok());
    assert_eq!(grant_access(record, id(7), 1, 1_001), Err(CustomError::AccessExpired));
    assert_eq!(store.extend_lease(&id(1), 1, 1), Some(Ok(1_001)));
    let record = store.get(&id(1)).expect("still there");
    assert!(grant_access(record, id(7), 1, 1_001).is_ok());
}
