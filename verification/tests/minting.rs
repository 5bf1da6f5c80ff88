use nft_contract::account::AccountId;
use nft_contract::contract::Contract;
use nft_contract::error::ContractError;
use nft_contract::host::HostContext;

fn acct(s: &str) -> AccountId {
    AccountId::new(s.to_string()).unwrap()
}

fn ctx(predecessor: &str, current: &str, state_exists: bool) -> HostContext {
    HostContext {
        predecessor_account_id: acct(predecessor),
        current_account_id: acct(current),
        state_exists,
    }
}

/// Points the thread's mocked host at the given accounts with a deposit large
/// enough to cover token storage, carrying existing storage over.
fn set_host(predecessor: &str, current: &str, deposit_yoctonear: u128) {
    let context = near_sdk::test_utils::VMContextBuilder::new()
        .current_account_id(current.parse().unwrap())
        .predecessor_account_id(predecessor.parse().unwrap())
        .attached_deposit(near_sdk::NearToken::from_yoctonear(deposit_yoctonear))
        .build();
    near_sdk::env::set_blockchain_interface(near_sdk::MockedBlockchain::new(
        context,
        near_sdk::test_vm_config(),
        near_sdk::RuntimeFeesConfig::test(),
        Default::default(),
        near_sdk::mock::with_mocked_blockchain(|b| b.take_storage()),
        Default::default(),
        None,
    ));
}

const ONE_NEAR: u128 = 1_000_000_000_000_000_000_000_000;

#[test]
fn fresh_ledger_is_empty() {
    set_host("alice", "alice", ONE_NEAR);
    let c = Contract::new_default_meta(&ctx("alice", "alice", false), acct("alice")).unwrap();
    assert!(c.nft_token("tok1".to_string()).is_none());
}

#[test]
fn mint_records_token_for_receiver() {
    set_host("alice", "alice", ONE_NEAR);
    let mut c = Contract::new_default_meta(&ctx("alice", "alice", false), acct("alice")).unwrap();
    let cx = ctx("alice", "alice", true);

    let snapshot = c.mk_metadata();
    let tok = c
        .nft_mint(&cx, "tok1".to_string(), acct("carol"))
        .unwrap();
    assert_eq!(tok.token_id, "tok1".to_string());
    assert_eq!(tok.owner_id.id, "carol".to_string());
    assert_eq!(tok.metadata, Some(c.mk_metadata()));

    let stored = c.nft_token("tok1".to_string()).unwrap();
    assert_eq!(stored.token_id, "tok1".to_string());
    assert_eq!(stored.owner_id.id, "carol".to_string());
    assert_eq!(stored.metadata, Some(snapshot));
}

#[test]
fn minted_metadata_is_a_snapshot() {
    set_host("alice", "alice", ONE_NEAR);
    let mut c = Contract::new_default_meta(&ctx("alice", "alice", false), acct("alice")).unwrap();
    let cx = ctx("alice", "alice", true);

    let snapshot = c.mk_metadata();
    c.nft_mint(&cx, "tok1".to_string(), acct("carol")).unwrap();

    c.set_title(&cx, "changed title".to_string()).unwrap();
    c.set_description(&cx, "changed description".to_string()).unwrap();
    c.set_media(&cx, "ipfs://changed".to_string()).unwrap();
    c.set_copies(&cx, 99).unwrap();

    let stored = c.nft_token("tok1".to_string()).unwrap();
    assert_eq!(stored.metadata, Some(snapshot));
    assert_eq!(
        stored.metadata.as_ref().unwrap().title,
        Some("This is the default title".to_string())
    );
}

#[test]
fn duplicate_token_id_fails() {
    set_host("alice", "alice", ONE_NEAR);
    let mut c = Contract::new_default_meta(&ctx("alice", "alice", false), acct("alice")).unwrap();
    let cx = ctx("alice", "alice", true);

    assert!(c.nft_mint(&cx, "tok1".to_string(), acct("carol")).is_ok());
    let second = c.nft_mint(&cx, "tok1".to_string(), acct("carol"));
    assert!(matches!(second, Err(ContractError::TokenIdAlreadyExists)));

    let stored = c.nft_token("tok1".to_string()).unwrap();
    assert_eq!(stored.owner_id.id, "carol".to_string());
}

#[test]
fn unauthorized_caller_cannot_mint() {
    set_host("alice", "alice", ONE_NEAR);
    let mut c = Contract::new_default_meta(&ctx("alice", "alice", false), acct("alice")).unwrap();
    let bob = ctx("bob", "alice", true);

    let r = c.nft_mint(&bob, "tok1".to_string(), acct("carol"));
    assert!(matches!(r, Err(ContractError::UnauthorizedCaller)));
    assert!(c.nft_token("tok1".to_string()).is_none());
}

#[test]
fn mint_after_setters_snapshots_new_state() {
    set_host("alice", "alice", ONE_NEAR);
    let mut c = Contract::new_default_meta(&ctx("alice", "alice", false), acct("alice")).unwrap();
    let cx = ctx("alice", "alice", true);

    c.set_title(&cx, "Hello".to_string()).unwrap();
    c.set_copies(&cx, 7).unwrap();
    let tok = c.nft_mint(&cx, "tok2".to_string(), acct("dave")).unwrap();
    let md = tok.metadata.unwrap();
    assert_eq!(md.title, Some("Hello".to_string()));
    assert_eq!(md.copies, Some(7));
    assert_eq!(md.media_hash, None);
    assert_eq!(md.reference, None);
}
