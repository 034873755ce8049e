use data_backed_nfts::{initialize, transfer_ownership, CustomError, DataAccount, Identity};

fn id(byte: u8) -> Identity {
    Identity::new([byte; 32])
}

fn record(authority: Identity) -> DataAccount {
    initialize(String::from("d"), String::from("u"), authority, 3, 77)
}

#[test]
fn the_authority_can_hand_the_record_over() {
    let a = id(10);
    let b = id(11);
    let mut r = record(a);
    assert_eq!(transfer_ownership(&mut r, &a, b), Ok(()));
    assert_eq!(r.authority, b);
}

#[test]
fn anyone_else_is_unauthorized() {
    let a = id(10);
    let b = id(11);
    let mut r = record(a);
    assert_eq!(transfer_ownership(&mut r, &b, b), Err(CustomError::Unauthorized));
    assert_eq!(r, record(a));
}

#[test]
fn the_former_authority_is_refused_and_the_new_one_accepted() {
    let a = id(10);
    let b = id(11);
    let c = id(12);
    let mut r = record(a);
    assert_eq!(transfer_ownership(&mut r, &a, b), Ok(()));
    assert_eq!(transfer_ownership(&mut r, &a, c), Err(CustomError::Unauthorized));
    assert_eq!(r.authority, b);
    assert_eq!(transfer_ownership(&mut r, &b, c), Ok(()));
    assert_eq!(r.authority, c);
}

#[test]
fn transfer_changes_nothing_but_the_authority() {
    let a = id(10);
    let mut r = record(a);
    assert_eq!(transfer_ownership(&mut r, &a, id(200)), Ok(()));
    assert_eq!(r.dataset_id, "d");
    assert_eq!(r.metadata_url, "u");
    assert_eq!(r.bump, 3);
    assert_eq!(r.expiry, 77);
}

#[test]
fn a_single_differing_byte_is_another_principal() {
    let a = id(10);
    let mut bytes: [u8; 32] = a.to_bytes();
    bytes[17] = 11;
    let near = Identity::new(bytes);
    let mut r = record(a);
    assert_eq!(transfer_ownership(&mut r, &near, near), Err(CustomError::Unauthorized));
    assert_eq!(r.authority, a);
}

#[test]
fn transfer_to_oneself_keeps_the_authority() {
    let a = id(10);
    let mut r = record(a);
    assert_eq!(transfer_ownership(&mut r, &a, a), Ok(()));
    assert_eq!(transfer_ownership(&mut r, &a, a), Ok(()));
    assert_eq!(r, record(a));
}
