use storefront::contract::{
    tgas, Context, Contract, ContractError, GAGAS, NFT_METADATA_SPEC, NFT_STANDARD_NAME,
    NO_DEPOSIT, ONE_YOCTO, TOKEN_BALANCE,
};
use storefront::metadata::{NFTContractMetadata, NonFungibleTokenMetadata};
use storefront::factory::token_account;
use storefront::near::storage_cost;

fn s(text: &str) -> String {
    text.to_string()
}

fn description() -> NFTContractMetadata {
    NFTContractMetadata {
        spec: s("nft-1.0.0"),
        name: s("Puma"),
        symbol: s("PMA"),
        icon: Some(s("icon.png")),
        bg_icon: None,
        category: Some(s("shoes")),
        description: None,
        facebook: None,
        twitter: None,
        instagram: None,
        tiktok: None,
        youtube: None,
        zip: None,
        city: None,
        state: None,
        country: None,
        base_uri: None,
        reference: Some(s("https://example.org/store.json")),
        reference_hash: Some(vec![1, 2, 3, 255]),
    }
}

fn store() -> Contract {
    Contract::new(s("owner.near"), s("market.near"), description())
}

fn call_from(caller: &str) -> Context {
    Context {
        current_account_id: s("store.near"),
        signer_account_id: s("signer.near"),
        signer_account_pk: vec![0, 7, 7, 7],
        predecessor_account_id: s(caller),
        attached_deposit: 0,
    }
}

#[test]
fn constants_have_their_values() {
    assert_eq!(NFT_METADATA_SPEC, "1.0.0");
    assert_eq!(NFT_STANDARD_NAME, "nep171");
    assert_eq!(TOKEN_BALANCE, 4_000_000_000_000_000_000_000_000u128);
    assert_eq!(ONE_YOCTO, 10_000_000_000_000_000_000_000u128);
    assert_eq!(NO_DEPOSIT, 0);
    assert_eq!(GAGAS, 40_000_000_000_000u64);
}

#[test]
fn tgas_scales_by_ten_to_the_twelfth() {
    assert_eq!(tgas(0), 0);
    assert_eq!(tgas(1), 1_000_000_000_000);
    assert_eq!(tgas(35 + 5), GAGAS);
    assert_eq!(tgas(18_446_744), 18_446_744_000_000_000_000);
}

#[test]
fn storage_cost_is_ten_to_the_nineteenth_per_byte() {
    assert_eq!(storage_cost(0), 0);
    assert_eq!(storage_cost(1), 10_000_000_000_000_000_000u128);
    assert_eq!(storage_cost(5), 50_000_000_000_000_000_000u128);
    assert_eq!(
        storage_cost(u64::MAX),
        184_467_440_737_095_516_150_000_000_000_000_000_000u128
    );
}

#[test]
fn token_accounts_with_valid_names() {
    for name in [
        "a",
        "aa",
        "a-a",
        "100",
        "0o",
        "near",
        "b-o_w_e-n",
        "b.owen",
        "a.b-a.ra",
        "over.9000",
        "illia.cheapaccounts.near",
        "0o0ooo00oo00o",
        "10-4.8-2",
        "no_lols",
        "0123456789012345678901234567890123456789012345678901234567890",
    ] {
        assert_eq!(token_account(&s(name)), Some(format!("ft.{}", name)), "{}", name);
    }
}

#[test]
fn token_accounts_with_names_that_are_not_valid() {
    for name in [
        "",
        "A",
        "Abc",
        "-near",
        "near-",
        "near.",
        ".near",
        "_bowen",
        "near@",
        "@near",
        "неар",
        "@@@@@",
        "0__0",
        "0_-_0",
        "..",
        "a..near",
        "a.-near",
        "nEar",
        "hello world",
        "near\n",
        "a/b",
        "a{",
        "a`",
        "01234567890123456789012345678901234567890123456789012345678901",
        "abcdefghijklmnopqrstuvwxyz.abcdefghijklmnopqrstuvwxyz.abcdefghijklmnopqrstuvwxyz",
        "some-complex-address@gmail.com",
    ] {
        assert_eq!(token_account(&s(name)), None, "{}", name);
    }
}

#[test]
fn new_store_is_fresh() {
    let store = store();
    assert_eq!(store.owner_id, "owner.near");
    assert_eq!(store.marketplace_contract_id, "market.near");
    assert!(!store.token);
    assert_eq!(store.token_cost, TOKEN_BALANCE);
    assert!(store.affiliate_requests.is_empty());
    assert!(store.series_by_id.is_empty());
    assert!(store.tokens_by_id.entries().is_empty());
    assert!(store.tokens_per_owner.entries().is_empty());
    assert!(store.tokens_locked.items().is_empty());
    assert!(store.approved_minters.contains(&s("owner.near")));
    assert!(store.approved_minters.contains(&s("market.near")));
    assert!(!store.approved_minters.contains(&s("signer.near")));
    assert_eq!(store.approved_minters.items().len(), 2);
    assert!(store.approved_creators.contains(&s("owner.near")));
    assert!(!store.approved_creators.contains(&s("market.near")));
    assert_eq!(store.approved_creators.items().len(), 1);
    let held = store.metadata.as_ref().unwrap();
    assert_eq!(held.name, "Puma");
    assert_eq!(held.reference_hash, Some(vec![1, 2, 3, 255]));
}

#[test]
fn new_store_where_owner_is_marketplace() {
    let store = Contract::new(s("same.near"), s("same.near"), description());
    assert_eq!(store.approved_minters.items().len(), 1);
    assert!(store.approved_minters.contains(&s("same.near")));
}

#[test]
fn new_default_meta_fills_the_description() {
    let store = Contract::new_default_meta(
        s("owner.near"),
        s("market.near"),
        s("Puma"),
        s("PMA"),
        Some(s("icon")),
        Some(s("bg")),
        Some(s("category")),
        Some(s("description")),
        Some(s("facebook")),
        Some(s("twitter")),
        Some(s("instagram")),
        Some(s("tiktok")),
        Some(s("youtube")),
        Some(s("zip")),
        Some(s("city")),
        Some(s("state")),
        Some(s("country")),
    );
    assert_eq!(store.owner_id, "owner.near");
    assert_eq!(store.marketplace_contract_id, "market.near");
    assert!(!store.token);
    assert_eq!(store.token_cost, TOKEN_BALANCE);
    let held = store.metadata.as_ref().unwrap();
    assert_eq!(held.spec, "nft-1.0.0");
    assert_eq!(held.name, "Puma");
    assert_eq!(held.symbol, "PMA");
    assert_eq!(held.icon, Some(s("icon")));
    assert_eq!(held.bg_icon, Some(s("bg")));
    assert_eq!(held.category, Some(s("category")));
    assert_eq!(held.description, Some(s("description")));
    assert_eq!(held.facebook, Some(s("facebook")));
    assert_eq!(held.twitter, Some(s("twitter")));
    assert_eq!(held.instagram, Some(s("instagram")));
    assert_eq!(held.tiktok, Some(s("tiktok")));
    assert_eq!(held.youtube, Some(s("youtube")));
    assert_eq!(held.zip, Some(s("zip")));
    assert_eq!(held.city, Some(s("city")));
    assert_eq!(held.state, Some(s("state")));
    assert_eq!(held.country, Some(s("country")));
    assert_eq!(held.base_uri, None);
    assert_eq!(held.reference, None);
    assert_eq!(held.reference_hash, None);
}

#[test]
fn nft_metadata_copies_the_description() {
    let store = store();
    let copy = store.nft_metadata();
    let held = description();
    assert_eq!(copy.spec, held.spec);
    assert_eq!(copy.name, held.name);
    assert_eq!(copy.symbol, held.symbol);
    assert_eq!(copy.icon, held.icon);
    assert_eq!(copy.category, held.category);
    assert_eq!(copy.reference, held.reference);
    assert_eq!(copy.reference_hash, held.reference_hash);
    assert_eq!(copy.country, None);
}

#[test]
fn getters_read_the_store() {
    let mut store = store();
    assert_eq!(store.get_store_owner(), "owner.near");
    assert_eq!(store.get_token_cost(), 4_000_000_000_000_000_000_000_000u128);
    assert!(!store.has_token());
    store.token = true;
    store.token_cost = 12;
    assert!(store.has_token());
    assert_eq!(store.get_token_cost(), 12);
}

#[test]
fn store_owner_is_told_by_the_signer() {
    let store = store();
    let mut ctx = call_from("market.near");
    assert!(!store.assert_store_owner(&ctx));
    ctx.signer_account_id = s("owner.near");
    assert!(store.assert_store_owner(&ctx));
    ctx.predecessor_account_id = s("owner.near");
    ctx.signer_account_id = s("market.near");
    assert!(!store.assert_store_owner(&ctx));
}

#[test]
fn guards_pass_only_their_caller() {
    let mut store = store();
    assert_eq!(store.assert_contract_owner(&call_from("owner.near")), Ok(()));
    assert_eq!(
        store.assert_contract_owner(&call_from("market.near")),
        Err(ContractError::NotContractOwner)
    );
    assert_eq!(store.assert_marketplace_contract(&call_from("market.near")), Ok(()));
    assert_eq!(
        store.assert_marketplace_contract(&call_from("owner.near")),
        Err(ContractError::NotMarketplaceCaller)
    );
    assert_eq!(store.assert_contract_token_false(), Ok(()));
    store.token = true;
    assert_eq!(store.assert_contract_token_false(), Err(ContractError::TokenAlreadyDeployed));
}

#[test]
fn unlock_releases_a_locked_token() {
    let mut store = store();
    store.tokens_locked.insert(s("1:1"));
    store.tokens_locked.insert(s("1:2"));
    assert_eq!(store.unlock_token(&call_from("market.near"), &s("1:1")), Ok(()));
    assert!(!store.tokens_locked.contains(&s("1:1")));
    assert!(store.tokens_locked.contains(&s("1:2")));
}

#[test]
fn unlock_twice_fails_the_second_time() {
    let mut store = store();
    store.tokens_locked.insert(s("1:1"));
    assert_eq!(store.unlock_token(&call_from("market.near"), &s("1:1")), Ok(()));
    assert_eq!(
        store.unlock_token(&call_from("market.near"), &s("1:1")),
        Err(ContractError::TokenNotLocked)
    );
}

#[test]
fn unlock_of_a_token_never_locked_fails() {
    let mut store = store();
    assert_eq!(
        store.unlock_token(&call_from("market.near"), &s("1:1")),
        Err(ContractError::TokenNotLocked)
    );
}

#[test]
fn unlock_is_for_the_marketplace_only() {
    let mut store = store();
    store.tokens_locked.insert(s("1:1"));
    assert_eq!(
        store.unlock_token(&call_from("owner.near"), &s("1:1")),
        Err(ContractError::NotMarketplaceCaller)
    );
    assert!(store.tokens_locked.contains(&s("1:1")));
    assert_eq!(
        store.unlock_token(&call_from("owner.near"), &s("9:9")),
        Err(ContractError::NotMarketplaceCaller)
    );
}
