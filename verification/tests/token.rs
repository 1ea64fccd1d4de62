use storefront::collections::{StringMap, StringSet};
use storefront::contract::{
    Context, Contract, ContractError, Series, GAGAS, NO_DEPOSIT, ONE_YOCTO, TOKEN_BALANCE,
};
use storefront::factory::{token_account, DeployOutcome, FtData};
use storefront::metadata::{NFTContractMetadata, StorageData, TokenData, TokenMetadata};
use storefront::promise::{Action, CallArguments, Chain, Completion, Transfer};
use storefront::reward::append_decimal;

fn s(text: &str) -> String {
    text.to_string()
}

fn description() -> NFTContractMetadata {
    NFTContractMetadata {
        spec: s("nft-1.0.0"),
        name: s("Puma"),
        symbol: s("PMA"),
        icon: None,
        bg_icon: None,
        category: None,
        description: None,
        facebook: None,
        twitter: None,
        instagram: None,
        tiktok: None,
        youtube: None,
        zip: None,
        city: None,
        state: None,
        country: None,
        base_uri: None,
        reference: None,
        reference_hash: None,
    }
}

fn series(is_reward: bool, reward: u128) -> Series {
    Series {
        metadata: TokenMetadata {
            title: None,
            description: s("A shoe"),
            media: s("https://example.org/shoe.png"),
            media_hash: None,
            copies: None,
            buy_timeout: 3600,
            is_discount: false,
            discount_percent: 0,
            token_amount_per_unit: 0,
            is_reward,
            reward_amount_per_unit: reward,
            is_custom_user: false,
            user: None,
            issued_at: None,
            expires_at: None,
            starts_at: None,
            updated_at: None,
            extra: None,
            reference: None,
            reference_hash: None,
        },
        colors: StringMap::new(),
        royalty: None,
        affiliate: None,
        tokens: StringSet::new(),
        price: None,
        owner_id: s("owner.near"),
    }
}

/// Series 1 rewards 250 tokens, series 2 rewards nothing.
fn store() -> Contract {
    let mut store = Contract::new(s("owner.near"), s("market.near"), description());
    store.series_by_id.insert(1, series(true, 250));
    store.series_by_id.insert(2, series(false, 250));
    store
}

fn call(caller: &str, deposit: u128) -> Context {
    Context {
        current_account_id: s("store.near"),
        signer_account_id: s("signer.near"),
        signer_account_pk: vec![0, 9, 8, 7],
        predecessor_account_id: s(caller),
        attached_deposit: deposit,
    }
}

fn deploy(store: &Contract, ctx: &Context) -> Result<Chain, ContractError> {
    store.deploy_token(ctx, 1_000_000, s("Puma Coin"), s("PUMA"), s("data:image/png"), vec![0, 97, 115, 109])
}

#[test]
fn token_account_stands_below_the_store() {
    assert_eq!(token_account(&s("store.near")), Some(s("ft.store.near")));
    assert_eq!(token_account(&s("aa")), Some(s("ft.aa")));
    assert_eq!(
        token_account(&s("0123456789012345678901234567890123456789012345678901234567890")),
        Some(s("ft.0123456789012345678901234567890123456789012345678901234567890"))
    );
}

#[test]
fn token_account_must_be_a_valid_name() {
    assert_eq!(
        token_account(&s("01234567890123456789012345678901234567890123456789012345678901")),
        None
    );
    assert_eq!(token_account(&s("")), None);
    assert_eq!(token_account(&s(".near")), None);
    assert_eq!(token_account(&s("Store.near")), None);
}

#[test]
fn deployment_is_planned_step_by_step() {
    let store = store();
    let chain = deploy(&store, &call("owner.near", TOKEN_BALANCE + 1));
    assert_eq!(
        chain,
        Ok(Chain {
            receiver_id: s("ft.store.near"),
            actions: vec![
                Action::CreateAccount,
                Action::AddFullAccessKey { public_key: vec![0, 9, 8, 7] },
                Action::Transfer { amount: 4_000_000_000_000_000_000_000_000 },
                Action::DeployContract { code: vec![0, 97, 115, 109] },
                Action::FunctionCall {
                    method_name: s("new_default_meta"),
                    arguments: CallArguments::Init(FtData {
                        owner_id: s("store.near"),
                        total_supply: 1_000_000,
                        name: s("Puma Coin"),
                        symbol: s("PUMA"),
                        icon: s("data:image/png"),
                    }),
                    deposit: 0,
                    gas: 40_000_000_000_000,
                },
            ],
            completion: Completion::DeployToken {
                token_creator_id: s("owner.near"),
                attached_deposit: TOKEN_BALANCE + 1,
            },
        })
    );
    assert!(!store.token);
}

#[test]
fn deployment_needs_more_than_the_cost() {
    let store = store();
    assert_eq!(
        deploy(&store, &call("owner.near", TOKEN_BALANCE)),
        Err(ContractError::InsufficientDeposit { required_cost: TOKEN_BALANCE, price: 0 })
    );
    assert_eq!(
        deploy(&store, &call("market.near", 0)),
        Err(ContractError::InsufficientDeposit {
            required_cost: 4_000_000_000_000_000_000_000_000,
            price: 0
        })
    );
}

#[test]
fn deployment_happens_once() {
    let mut store = store();
    store.token = true;
    assert_eq!(
        deploy(&store, &call("owner.near", TOKEN_BALANCE + 1)),
        Err(ContractError::TokenAlreadyDeployed)
    );
    assert_eq!(
        deploy(&store, &call("market.near", TOKEN_BALANCE + 1)),
        Err(ContractError::TokenAlreadyDeployed)
    );
}

#[test]
fn deployment_is_for_the_owner_only() {
    let store = store();
    assert_eq!(
        deploy(&store, &call("market.near", TOKEN_BALANCE + 1)),
        Err(ContractError::NotContractOwner)
    );
}

#[test]
fn deployment_needs_a_valid_token_account() {
    let store = store();
    let mut ctx = call("owner.near", TOKEN_BALANCE + 1);
    ctx.current_account_id =
        s("a-store-whose-name-has-sixty-two-characters.is-too-long.x.near");
    assert_eq!(ctx.current_account_id.len(), 62);
    assert_eq!(deploy(&store, &ctx), Err(ContractError::InvalidTokenAccount));
}

#[test]
fn completion_of_a_good_chain_sets_the_flag() {
    let mut store = store();
    let outcome =
        store.deploy_token_callback(&call("store.near", 0), s("owner.near"), TOKEN_BALANCE + 1, true);
    assert_eq!(outcome, Ok(DeployOutcome::Deployed));
    assert!(store.token);
    assert_eq!(store.token_cost, TOKEN_BALANCE);
    assert_eq!(store.series_by_id.len(), 2);
}

#[test]
fn completion_of_a_failed_chain_refunds_everything() {
    let mut store = store();
    let outcome = store.deploy_token_callback(
        &call("store.near", 0),
        s("owner.near"),
        4_000_000_000_000_000_000_000_123,
        false,
    );
    assert_eq!(
        outcome,
        Ok(DeployOutcome::Refunded(Transfer {
            receiver_id: s("owner.near"),
            amount: 4_000_000_000_000_000_000_000_123,
        }))
    );
    assert!(!store.token);
    assert_eq!(deploy(&store, &call("owner.near", TOKEN_BALANCE + 1)).is_ok(), true);
}

#[test]
fn completion_of_a_failed_chain_leaves_a_set_flag() {
    let mut store = store();
    store.token = true;
    let outcome = store.deploy_token_callback(&call("store.near", 0), s("owner.near"), 5, false);
    assert_eq!(
        outcome,
        Ok(DeployOutcome::Refunded(Transfer { receiver_id: s("owner.near"), amount: 5 }))
    );
    assert!(store.token);
}

#[test]
fn completion_is_for_the_store_itself_only() {
    let mut store = store();
    assert_eq!(
        store.deploy_token_callback(&call("owner.near", 0), s("owner.near"), 5, true),
        Err(ContractError::NotSelf)
    );
    assert!(!store.token);
    assert_eq!(
        store.deploy_token_callback(&call("market.near", 0), s("owner.near"), 5, false),
        Err(ContractError::NotSelf)
    );
    assert_eq!(
        store.reward_with_token_callback(&call("market.near", 0), 5, true),
        Err(ContractError::NotSelf)
    );
}

#[test]
fn outcome_is_reported_in_a_line() {
    assert_eq!(DeployOutcome::Deployed.log_message(), "Successful token deployment");
    assert_eq!(
        DeployOutcome::Refunded(Transfer { receiver_id: s("owner.near"), amount: 1 }).log_message(),
        "failed token deployment"
    );
}

#[test]
fn reward_is_planned_in_two_calls() {
    let mut store = store();
    store.token = true;
    let chain = store.reward_with_token(&call("market.near", 0), 1, s("buyer.near"));
    assert_eq!(
        chain,
        Ok(Chain {
            receiver_id: s("ft.store.near"),
            actions: vec![
                Action::FunctionCall {
                    method_name: s("storage_deposit"),
                    arguments: CallArguments::Storage(StorageData {
                        account_id: s("buyer.near"),
                        registration_only: false,
                    }),
                    deposit: 10_000_000_000_000_000_000_000,
                    gas: 40_000_000_000_000,
                },
                Action::FunctionCall {
                    method_name: s("ft_transfer"),
                    arguments: CallArguments::Token(TokenData {
                        receiver_id: s("buyer.near"),
                        amount: 250,
                        memo: s("Thank You for Shopping at AccountId(\"store.near\")!"),
                    }),
                    deposit: 0,
                    gas: 40_000_000_000_000,
                },
            ],
            completion: Completion::RewardWithToken { token_quantity: 250 },
        })
    );
    assert_eq!(ONE_YOCTO, 10_000_000_000_000_000_000_000);
    assert_eq!(NO_DEPOSIT, 0);
    assert_eq!(GAGAS, 40_000_000_000_000);
}

#[test]
fn reward_needs_a_deployed_token() {
    let store = store();
    assert_eq!(
        store.reward_with_token(&call("market.near", 0), 1, s("buyer.near")),
        Err(ContractError::TokenNotDeployed)
    );
    assert_eq!(
        store.reward_with_token(&call("market.near", 0), 9, s("buyer.near")),
        Err(ContractError::TokenNotDeployed)
    );
}

#[test]
fn reward_needs_a_rewarding_series() {
    let mut store = store();
    store.token = true;
    assert_eq!(
        store.reward_with_token(&call("market.near", 0), 2, s("buyer.near")),
        Err(ContractError::NoReward)
    );
    assert_eq!(
        store.reward_with_token(&call("market.near", 0), 3, s("buyer.near")),
        Err(ContractError::SeriesNotFound)
    );
}

#[test]
fn reward_is_for_the_marketplace_only() {
    let mut store = store();
    store.token = true;
    assert_eq!(
        store.reward_with_token(&call("owner.near", 0), 1, s("buyer.near")),
        Err(ContractError::NotMarketplaceCaller)
    );
    assert_eq!(
        store.reward_with_token(&call("buyer.near", 0), 1, s("buyer.near")),
        Err(ContractError::NotMarketplaceCaller)
    );
}

#[test]
fn reward_needs_a_valid_token_account() {
    let mut store = store();
    store.token = true;
    let mut ctx = call("market.near", 0);
    ctx.current_account_id = s("Store.near");
    assert_eq!(
        store.reward_with_token(&ctx, 1, s("buyer.near")),
        Err(ContractError::InvalidTokenAccount)
    );
}

#[test]
fn reward_report_names_the_amount() {
    let store = store();
    let ctx = call("store.near", 0);
    assert_eq!(
        store.reward_with_token_callback(&ctx, 250, true),
        Ok(s("Sent 250 token successfully!"))
    );
    assert_eq!(store.reward_with_token_callback(&ctx, 0, true), Ok(s("Sent 0 token successfully!")));
    assert_eq!(
        store.reward_with_token_callback(&ctx, u128::MAX, true),
        Ok(s("Sent 340282366920938463463374607431768211455 token successfully!"))
    );
}

#[test]
fn reward_report_of_a_failed_chain() {
    let store = store();
    assert_eq!(
        store.reward_with_token_callback(&call("store.near", 0), 250, false),
        Ok(s("failed sending token"))
    );
}

#[test]
fn decimal_is_written_without_leading_zeros() {
    for (n, text) in [
        (0u128, "0"),
        (7, "7"),
        (9, "9"),
        (10, "10"),
        (99, "99"),
        (100, "100"),
        (1_000_000, "1000000"),
        (4_000_000_000_000_000_000_000_000, "4000000000000000000000000"),
        (u128::MAX, "340282366920938463463374607431768211455"),
    ] {
        let mut out = s("n=");
        append_decimal(&mut out, n);
        assert_eq!(out, format!("n={}", text));
        assert_eq!(out, format!("n={}", n));
    }
}
