use solana_client_ext::loader::{
    owner_position, Account, AccountLookup, OwnerLookup, RollUpAccountLoader,
};
use solana_client_ext::pubkey::Pubkey;

fn key(n: u8) -> Pubkey {
    Pubkey { bytes: [n; 32] }
}

fn account(lamports: u64, owner: Pubkey) -> Account {
    Account { lamports, data: vec![1, 2, 3], owner, executable: false, rent_epoch: 9 }
}

#[test]
fn account_is_fetched_once() {
    let client = "client";
    let mut loader = RollUpAccountLoader::new(&client);
    assert_eq!(*loader.rpc_client(), "client");
    assert_eq!(loader.get_account_shared_data(&key(1)), AccountLookup::Fetch(key(1)));
    let fetched = loader.account_fetched(&key(1), Some(account(5, key(8))));
    assert_eq!(fetched, Some(account(5, key(8))));
    assert_eq!(
        loader.get_account_shared_data(&key(1)),
        AccountLookup::Cached(account(5, key(8)))
    );
    assert_eq!(loader.get_account_shared_data(&key(2)), AccountLookup::Fetch(key(2)));
}

#[test]
fn failed_fetch_is_not_remembered() {
    let mut loader = RollUpAccountLoader::new(&());
    assert_eq!(loader.account_fetched(&key(1), None), None);
    assert_eq!(loader.get_account_shared_data(&key(1)), AccountLookup::Fetch(key(1)));
    loader.account_fetched(&key(1), Some(account(5, key(8))));
    assert_eq!(loader.account_fetched(&key(1), None), None);
    assert_eq!(
        loader.get_account_shared_data(&key(1)),
        AccountLookup::Cached(account(5, key(8)))
    );
}

#[test]
fn later_fetch_counts() {
    let mut loader = RollUpAccountLoader::new(&());
    loader.account_fetched(&key(1), Some(account(5, key(8))));
    loader.account_fetched(&key(2), Some(account(6, key(8))));
    loader.account_fetched(&key(1), Some(account(7, key(9))));
    assert_eq!(
        loader.get_account_shared_data(&key(1)),
        AccountLookup::Cached(account(7, key(9)))
    );
    assert_eq!(
        loader.get_account_shared_data(&key(2)),
        AccountLookup::Cached(account(6, key(8)))
    );
}

#[test]
fn first_matching_owner_is_found() {
    let mut loader = RollUpAccountLoader::new(&());
    let owners = [key(7), key(8), key(8)];
    assert_eq!(loader.account_matches_owners(&key(1), &owners), OwnerLookup::Fetch(key(1)));
    loader.account_fetched(&key(1), Some(account(5, key(8))));
    assert_eq!(loader.account_matches_owners(&key(1), &owners), OwnerLookup::Known(Some(1)));
    assert_eq!(loader.account_matches_owners(&key(1), &[key(7)]), OwnerLookup::Known(None));
    assert_eq!(owner_position(Some(&account(5, key(7))), &owners), Some(0));
    assert_eq!(owner_position(None, &owners), None);
    assert_eq!(owner_position(Some(&account(5, key(7))), &[]), None);
}

#[test]
fn keys_that_differ_in_one_byte_differ() {
    let mut bytes = [1; 32];
    bytes[31] = 2;
    assert!(Pubkey { bytes } != key(1));
    assert!(Pubkey { bytes } == Pubkey { bytes });
    let mut loader = RollUpAccountLoader::new(&());
    loader.account_fetched(&key(1), Some(account(5, key(8))));
    assert_eq!(
        loader.get_account_shared_data(&Pubkey { bytes }),
        AccountLookup::Fetch(Pubkey { bytes })
    );
}

#[test]
fn loaders_of_one_client_share_nothing() {
    let mut first = RollUpAccountLoader::new(&());
    first.account_fetched(&key(1), Some(account(5, key(8))));
    let mut second = RollUpAccountLoader::new(&());
    assert_eq!(second.get_account_shared_data(&key(1)), AccountLookup::Fetch(key(1)));
    second.account_fetched(&key(1), Some(account(6, key(8))));
    assert_eq!(
        second.get_account_shared_data(&key(1)),
        AccountLookup::Cached(account(6, key(8)))
    );
}
