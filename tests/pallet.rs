use username_storage::{DispatchError, Error, Event, Origin, Pallet};

fn new_test_ext() -> Pallet {
    Pallet::new(32)
}

#[test]
fn lib_test_set_username() {
    let mut pallet = new_test_ext();
    let account_id = 1;
    let username = b"test_user".to_vec();

    assert_eq!(pallet.set_username(Origin::Signed(account_id), username.clone()), Ok(()));
    assert_eq!(pallet.usernames(account_id), Some(username));
}

#[test]
fn lib_test_set_username_empty() {
    let mut pallet = new_test_ext();
    let account_id = 1;
    let username = b"".to_vec();

    assert_eq!(
        pallet.set_username(Origin::Signed(account_id), username),
        Err(DispatchError::Module(Error::UsernameEmpty))
    );
    assert_eq!(pallet.usernames(account_id), None);
    assert!(pallet.events().is_empty());
}

#[test]
fn lib_test_set_username_too_long() {
    let mut pallet = new_test_ext();
    let account_id = 1;
    let username = vec![0; 33]; // 33 bytes is too long

    assert_eq!(
        pallet.set_username(Origin::Signed(account_id), username),
        Err(DispatchError::Module(Error::UsernameTooLong))
    );
    assert_eq!(pallet.usernames(account_id), None);
    assert!(pallet.events().is_empty());
}

#[test]
fn tests_test_set_username() {
    let mut pallet = new_test_ext();
    let account_id = 1;
    let username = b"test_user".to_vec();

    assert_eq!(pallet.set_username(Origin::Signed(account_id), username.clone()), Ok(()));
    assert_eq!(pallet.usernames(account_id), Some(username));
}

#[test]
fn tests_test_set_username_empty() {
    let mut pallet = new_test_ext();
    let account_id = 1;
    let username = b"".to_vec();

    assert_eq!(
        pallet.set_username(Origin::Signed(account_id), username),
        Err(DispatchError::Module(Error::UsernameEmpty))
    );
    assert_eq!(pallet.usernames(account_id), None);
    assert!(pallet.events().is_empty());
}

#[test]
fn tests_test_set_username_too_long() {
    let mut pallet = new_test_ext();
    let account_id = 1;
    let username = vec![0; 33]; // 33 bytes is too long

    assert_eq!(
        pallet.set_username(Origin::Signed(account_id), username),
        Err(DispatchError::Module(Error::UsernameTooLong))
    );
    assert_eq!(pallet.usernames(account_id), None);
    assert!(pallet.events().is_empty());
}

#[test]
fn first_write_deposits_created_event() {
    let mut pallet = new_test_ext();
    assert_eq!(pallet.set_username(Origin::Signed(7), b"bob".to_vec()), Ok(()));
    assert_eq!(
        pallet.events(),
        &vec![Event::UsernameSet { who: 7, username: b"bob".to_vec() }]
    );
}

#[test]
fn overwrite_deposits_updated_event() {
    let mut pallet = new_test_ext();
    assert_eq!(pallet.set_username(Origin::Signed(7), b"bob".to_vec()), Ok(()));
    assert_eq!(pallet.set_username(Origin::Signed(7), b"robert".to_vec()), Ok(()));
    assert_eq!(pallet.usernames(7), Some(b"robert".to_vec()));
    assert_eq!(
        pallet.events(),
        &vec![
            Event::UsernameSet { who: 7, username: b"bob".to_vec() },
            Event::UsernameUpdated { who: 7, username: b"robert".to_vec() },
        ]
    );
}

#[test]
fn accounts_are_independent() {
    let mut pallet = new_test_ext();
    assert_eq!(pallet.set_username(Origin::Signed(1), b"same".to_vec()), Ok(()));
    assert_eq!(pallet.set_username(Origin::Signed(2), b"same".to_vec()), Ok(()));
    assert_eq!(pallet.usernames(1), Some(b"same".to_vec()));
    assert_eq!(pallet.usernames(2), Some(b"same".to_vec()));
    assert_eq!(
        pallet.events(),
        &vec![
            Event::UsernameSet { who: 1, username: b"same".to_vec() },
            Event::UsernameSet { who: 2, username: b"same".to_vec() },
        ]
    );
}

#[test]
fn name_of_exactly_the_bound_is_accepted() {
    let mut pallet = new_test_ext();
    let name = vec![b'x'; 32];
    assert_eq!(pallet.set_username(Origin::Signed(3), name.clone()), Ok(()));
    assert_eq!(pallet.usernames(3), Some(name));
}

#[test]
fn single_byte_name_is_accepted() {
    let mut pallet = new_test_ext();
    assert_eq!(pallet.set_username(Origin::Signed(3), vec![0]), Ok(()));
    assert_eq!(pallet.usernames(3), Some(vec![0]));
}

#[test]
fn empty_is_reported_before_too_long_under_zero_bound() {
    let mut pallet = Pallet::new(0);
    assert_eq!(pallet.max_username_length(), 0);
    assert_eq!(
        pallet.set_username(Origin::Signed(1), Vec::new()),
        Err(DispatchError::Module(Error::UsernameEmpty))
    );
    assert_eq!(
        pallet.set_username(Origin::Signed(1), vec![1]),
        Err(DispatchError::Module(Error::UsernameTooLong))
    );
}

#[test]
fn refused_write_keeps_earlier_name() {
    let mut pallet = new_test_ext();
    assert_eq!(pallet.set_username(Origin::Signed(1), b"alice".to_vec()), Ok(()));
    assert_eq!(
        pallet.set_username(Origin::Signed(1), vec![b'a'; 40]),
        Err(DispatchError::Module(Error::UsernameTooLong))
    );
    assert_eq!(pallet.usernames(1), Some(b"alice".to_vec()));
    assert_eq!(pallet.events().len(), 1);
}

#[test]
fn unsigned_and_root_origins_are_refused() {
    let mut pallet = new_test_ext();
    assert_eq!(
        pallet.set_username(Origin::Unsigned, b"alice".to_vec()),
        Err(DispatchError::BadOrigin)
    );
    assert_eq!(
        pallet.set_username(Origin::Root, b"alice".to_vec()),
        Err(DispatchError::BadOrigin)
    );
    assert!(pallet.events().is_empty());
}

#[test]
fn ensure_signed_gives_the_signer() {
    assert_eq!(username_storage::ensure_signed(Origin::Signed(9)), Ok(9));
    assert_eq!(username_storage::ensure_signed(Origin::Root), Err(DispatchError::BadOrigin));
}

#[test]
fn snapshot_keeps_names_and_drops_events() {
    let mut pallet = new_test_ext();
    assert_eq!(pallet.set_username(Origin::Signed(1), b"alice".to_vec()), Ok(()));
    let copy = pallet.snapshot();
    assert_eq!(copy.usernames(1), Some(b"alice".to_vec()));
    assert_eq!(copy.max_username_length(), 32);
    assert!(copy.events().is_empty());
}
