//! The store's state, the caller checks, and the settlement of a sale.

use crate::collections::{StringMap, StringSet};
use crate::metadata::{
    AffiliatesRequests, MarketplaceData, NFTContractMetadata, NonFungibleTokenMetadata, Token,
    TokenMetadata,
};
use crate::near::{storage_cost, storage_cost_of};
use std::collections::HashMap;
use vstd::prelude::*;

verus! {

broadcast use vstd::std_specs::hash::group_hash_axioms;

/// A series is named by a number.
pub type SeriesId = u64;

/// Version of the metadata standard.
pub const NFT_METADATA_SPEC: &'static str = "1.0.0";

/// Name of the token standard.
pub const NFT_STANDARD_NAME: &'static str = "nep171";

/// What deploying the store's token costs, in yocto.
pub const TOKEN_BALANCE: u128 = 4_000_000_000_000_000_000_000_000;

/// The deposit that an affiliate request must exceed, which also pays for a
/// receiver's registration with the token.
pub const ONE_YOCTO: u128 = 10_000_000_000_000_000_000_000;

/// No deposit.
pub const NO_DEPOSIT: u128 = 0;

/// Gas given to each remote call.
pub const GAGAS: u64 = 40_000_000_000_000;

/// `n` tera-gas in units of gas.
pub fn tgas(n: u64) -> (gas: u64)
    requires
        n * 1_000_000_000_000 <= u64::MAX,
    ensures
        gas == n * 1_000_000_000_000,
{
    n * 1_000_000_000_000
}

/// What the chain tells a call about itself.
pub struct Context {
    /// The account that holds the store.
    pub current_account_id: String,
    /// The account that signed the transaction.
    pub signer_account_id: String,
    /// The public key that signed the transaction.
    pub signer_account_pk: Vec<u8>,
    /// The account that made this call.
    pub predecessor_account_id: String,
    /// The deposit that came with the call, in yocto.
    pub attached_deposit: u128,
}

/// Why a call was refused.
#[derive(Debug, PartialEq, Eq)]
pub enum ContractError {
    /// The caller is not the store's owner.
    NotContractOwner,
    /// The caller is not the marketplace.
    NotMarketplaceCaller,
    /// A completion step was called by another account than the store itself.
    NotSelf,
    /// The store's token is deployed already.
    TokenAlreadyDeployed,
    /// The store's token is not deployed yet.
    TokenNotDeployed,
    /// No series has the given number.
    SeriesNotFound,
    /// The series takes no affiliates.
    AffiliateNotAccepted,
    /// The deposit does not cover `required_cost` and, for a sale, `price` on
    /// top of it.
    InsufficientDeposit { required_cost: u128, price: u128 },
    /// The account has asked before; the earlier request is given.
    DuplicateRequest(AffiliatesRequests),
    /// No open request of the account for the series.
    RequestNotFound,
    /// The series does not list the account among its affiliates.
    AffiliateNotEligible,
    /// The token is not locked.
    TokenNotLocked,
    /// The series rewards no purchase.
    NoReward,
    /// The name of the store's token account is not a valid account name.
    InvalidTokenAccount,
}

/// A product from which tokens are minted.
pub struct Series {
    /// What every token of the series says of itself.
    pub metadata: TokenMetadata,
    /// The colours in which the product comes.
    pub colors: StringMap<u32>,
    /// The share of each sale that each account is owed as royalty.
    pub royalty: Option<StringMap<u32>>,
    /// The affiliates of the series with their commission. A series without
    /// this map takes no affiliates.
    pub affiliate: Option<StringMap<u32>>,
    /// The tokens minted so far.
    pub tokens: StringSet,
    /// The price of one token, where it is fixed.
    pub price: Option<u128>,
    /// The account that owns the series.
    pub owner_id: String,
}

impl Series {
    /// The commission that the series grants `account`, if it lists it.
    pub open spec fn commission(&self, account: Seq<char>) -> Option<u32> {
        match self.affiliate {
            Some(listed) => if listed@.contains_key(account) {
                Some(listed@[account])
            } else {
                None
            },
            None => None,
        }
    }
}

/// Everything the store keeps.
pub struct Contract {
    /// The account that owns the store.
    pub owner_id: String,
    /// The marketplace through which the store sells.
    pub marketplace_contract_id: String,
    /// Whether the store's token is deployed.
    pub token: bool,
    /// What deploying the token costs.
    pub token_cost: u128,
    /// Every affiliate request, in the order in which they came.
    pub affiliate_requests: Vec<AffiliatesRequests>,
    /// The accounts that may mint.
    pub approved_minters: StringSet,
    /// The accounts that may create series.
    pub approved_creators: StringSet,
    /// The series by number.
    pub series_by_id: HashMap<u64, Series>,
    /// The tokens by name.
    pub tokens_by_id: StringMap<Token>,
    /// The tokens of each owner.
    pub tokens_per_owner: StringMap<StringSet>,
    /// The tokens held back while a sale is under way.
    pub tokens_locked: StringSet,
    /// What the store says of itself.
    pub metadata: Option<NFTContractMetadata>,
}

impl Contract {
    /// Whether the call comes from the marketplace.
    pub open spec fn from_marketplace(&self, ctx: &Context) -> bool {
        ctx.predecessor_account_id@ == self.marketplace_contract_id@
    }

    /// Whether the call comes from the store's owner.
    pub open spec fn from_owner(&self, ctx: &Context) -> bool {
        ctx.predecessor_account_id@ == self.owner_id@
    }

    /// A store owned by `owner_id` that sells through `marketplace_contract_id`
    /// and describes itself by its name and symbol and what else is given.
    pub fn new_default_meta(
        owner_id: String,
        marketplace_contract_id: String,
        name: String,
        symbol: String,
        icon: Option<String>,
        bg_icon: Option<String>,
        category: Option<String>,
        description: Option<String>,
        facebook: Option<String>,
        twitter: Option<String>,
        instagram: Option<String>,
        tiktok: Option<String>,
        youtube: Option<String>,
        zip: Option<String>,
        city: Option<String>,
        state: Option<String>,
        country: Option<String>,
    ) -> (store: Self)
        ensures
            store.is_fresh(owner_id, marketplace_contract_id),
            store.metadata is Some,
            store.metadata->0.spec@ == "nft-1.0.0"@,
            store.metadata->0 == (NFTContractMetadata {
                spec: store.metadata->0.spec,
                name,
                symbol,
                icon,
                bg_icon,
                category,
                description,
                facebook,
                twitter,
                instagram,
                tiktok,
                youtube,
                zip,
                city,
                state,
                country,
                base_uri: None,
                reference: None,
                reference_hash: None,
            }),
    {
        Self::new(
            owner_id,
            marketplace_contract_id,
            NFTContractMetadata {
                spec: "nft-1.0.0".to_owned(),
                name,
                symbol,
                icon,
                bg_icon,
                category,
                description,
                facebook,
                twitter,
                instagram,
                tiktok,
                youtube,
                zip,
                city,
                state,
                country,
                base_uri: None,
                reference: None,
                reference_hash: None,
            },
        )
    }

    /// Whether this is a store as it is first set up for `owner_id` and
    /// `marketplace_contract_id`: no token deployed, no requests, series or
    /// tokens, the owner and the marketplace as minters, the owner as creator.
    pub open spec fn is_fresh(&self, owner_id: String, marketplace_contract_id: String) -> bool {
        &&& self.owner_id == owner_id
        &&& self.marketplace_contract_id == marketplace_contract_id
        &&& !self.token
        &&& self.token_cost == TOKEN_BALANCE
        &&& self.affiliate_requests@ == Seq::<AffiliatesRequests>::empty()
        &&& self.approved_minters@ == Set::<Seq<char>>::empty().insert(owner_id@).insert(
            marketplace_contract_id@,
        )
        &&& self.approved_creators@ == Set::<Seq<char>>::empty().insert(owner_id@)
        &&& self.series_by_id@ == Map::<u64, Series>::empty()
        &&& self.tokens_by_id@ == Map::<Seq<char>, Token>::empty()
        &&& self.tokens_per_owner@ == Map::<Seq<char>, StringSet>::empty()
        &&& self.tokens_locked@ == Set::<Seq<char>>::empty()
    }

    /// A store owned by `owner_id` that sells through `marketplace_contract_id`
    /// and describes itself by `metadata`.
    pub fn new(owner_id: String, marketplace_contract_id: String, metadata: NFTContractMetadata) -> (store:
        Self)
        ensures
            store.is_fresh(owner_id, marketplace_contract_id),
            store.metadata == Some(metadata),
    {
        let mut approved_minters = StringSet::new();
        approved_minters.insert(owner_id.clone());
        approved_minters.insert(marketplace_contract_id.clone());
        let mut approved_creators = StringSet::new();
        approved_creators.insert(owner_id.clone());
        Contract {
            approved_minters,
            approved_creators,
            affiliate_requests: Vec::new(),
            series_by_id: HashMap::new(),
            tokens_per_owner: StringMap::new(),
            tokens_by_id: StringMap::new(),
            tokens_locked: StringSet::new(),
            owner_id,
            marketplace_contract_id,
            token: false,
            token_cost: TOKEN_BALANCE,
            metadata: Some(metadata),
        }
    }

    /// Whether the transaction was signed by the store's owner.
    pub fn assert_store_owner(&self, ctx: &Context) -> (signed_by_owner: bool)
        ensures
            signed_by_owner == (ctx.signer_account_id@ == self.owner_id@),
    {
        ctx.signer_account_id == self.owner_id
    }

    /// The account that owns the store.
    pub fn get_store_owner(&self) -> (owner: String)
        ensures
            owner == self.owner_id,
    {
        self.owner_id.clone()
    }

    /// What deploying the store's token costs.
    pub fn get_token_cost(&self) -> (cost: u128)
        ensures
            cost == self.token_cost,
    {
        self.token_cost
    }

    /// Whether the store's token is deployed.
    pub fn has_token(&self) -> (deployed: bool)
        ensures
            deployed == self.token,
    {
        self.token
    }

    /// Passes only a call from the store's owner.
    pub fn assert_contract_owner(&self, ctx: &Context) -> (result: Result<(), ContractError>)
        ensures
            result is Ok <==> self.from_owner(ctx),
            result is Err ==> result == Err::<(), ContractError>(ContractError::NotContractOwner),
    {
        if self.owner_id == ctx.predecessor_account_id {
            Ok(())
        } else {
            Err(ContractError::NotContractOwner)
        }
    }

    /// Passes only a call from the marketplace.
    pub fn assert_marketplace_contract(&self, ctx: &Context) -> (result: Result<(), ContractError>)
        ensures
            result is Ok <==> self.from_marketplace(ctx),
            result is Err ==> result == Err::<(), ContractError>(
                ContractError::NotMarketplaceCaller,
            ),
    {
        if self.marketplace_contract_id == ctx.predecessor_account_id {
            Ok(())
        } else {
            Err(ContractError::NotMarketplaceCaller)
        }
    }

    /// Passes only while the store's token is not deployed.
    pub fn assert_contract_token_false(&self) -> (result: Result<(), ContractError>)
        ensures
            result is Ok <==> !self.token,
            result is Err ==> result == Err::<(), ContractError>(
                ContractError::TokenAlreadyDeployed,
            ),
    {
        if !self.token {
            Ok(())
        } else {
            Err(ContractError::TokenAlreadyDeployed)
        }
    }

    /// Why an unlock is refused, if it is: the caller is checked first, then
    /// the lock.
    pub open spec fn unlock_refusal(&self, ctx: &Context, token_id: Seq<char>) -> Option<
        ContractError,
    > {
        if !self.from_marketplace(ctx) {
            Some(ContractError::NotMarketplaceCaller)
        } else if !self.tokens_locked@.contains(token_id) {
            Some(ContractError::TokenNotLocked)
        } else {
            None
        }
    }

    /// Releases a token that was held back for a sale. Only the marketplace may
    /// ask, and only for a token that is locked; a refused call changes
    /// nothing.
    pub fn unlock_token(&mut self, ctx: &Context, token_id: &String) -> (result: Result<
        (),
        ContractError,
    >)
        ensures
            match result {
                Ok(_) => {
                    &&& old(self).unlock_refusal(ctx, token_id@) is None
                    &&& final(self).tokens_locked@ == old(self).tokens_locked@.remove(token_id@)
                    &&& *final(self) == (Contract {
                        tokens_locked: final(self).tokens_locked,
                        ..*old(self)
                    })
                    &&& final(self).token == old(self).token
                },
                Err(e) => {
                    &&& old(self).unlock_refusal(ctx, token_id@) == Some(e)
                    &&& *final(self) == *old(self)
                },
            },
    {
        if self.marketplace_contract_id != ctx.predecessor_account_id {
            return Err(ContractError::NotMarketplaceCaller);
        }
        if !self.tokens_locked.contains(token_id) {
            return Err(ContractError::TokenNotLocked);
        }
        self.tokens_locked.remove(token_id);
        Ok(())
    }

    /// The commission that series `id` grants the candidate of a sale: none
    /// without a candidate, without a list of affiliates, or for a candidate
    /// that the list does not name.
    pub open spec fn sale_commission(&self, id: u64, candidate: Option<String>) -> Option<u32> {
        match candidate {
            Some(account) => self.series_by_id@[id].commission(account@),
            None => None,
        }
    }

    /// How the proceeds of a sale from series `id` are split: the price, the
    /// parties, and the candidate with its commission where the series grants
    /// it one.
    pub open spec fn settlement(
        &self,
        id: u64,
        price_per_token: u128,
        store_owner: String,
        owner_id: String,
        token_id: String,
        candidate: Option<String>,
    ) -> MarketplaceData {
        let commission = self.sale_commission(id, candidate);
        MarketplaceData {
            price: price_per_token,
            affiliate: commission is Some,
            affiliate_id: if commission is Some {
                candidate
            } else {
                None
            },
            affiliate_percentage: commission,
            token_id,
            token_owner: owner_id,
            store_owner,
        }
    }

    /// Why a sale is refused, if it is: the caller is checked first, then the
    /// deposit, then the series.
    pub open spec fn sale_refusal(
        &self,
        ctx: &Context,
        id: u64,
        storage_used: u64,
        price_per_token: u128,
        attached_deposit: u128,
    ) -> Option<ContractError> {
        if !self.from_marketplace(ctx) {
            Some(ContractError::NotMarketplaceCaller)
        } else if attached_deposit < storage_cost_of(storage_used) + price_per_token {
            Some(
                ContractError::InsufficientDeposit {
                    required_cost: storage_cost_of(storage_used) as u128,
                    price: price_per_token,
                },
            )
        } else if !self.series_by_id@.contains_key(id) {
            Some(ContractError::SeriesNotFound)
        } else {
            None
        }
    }

    /// Settles one sale of a token of series `id`: checks that the marketplace
    /// calls and that the deposit covers the storage used and the price, and
    /// says how the proceeds are split. The candidate earns a commission only
    /// where the series lists it; otherwise the sale goes through without an
    /// affiliate.
    pub fn marketplace_series_callback(
        &self,
        ctx: &Context,
        id: u64,
        storage_used: u64,
        price_per_token: u128,
        store_owner: String,
        owner_id: String,
        token_id: String,
        attached_deposit: u128,
        affiliate: Option<String>,
    ) -> (result: Result<MarketplaceData, ContractError>)
        ensures
            match result {
                Ok(data) => {
                    &&& self.sale_refusal(
                        ctx,
                        id,
                        storage_used,
                        price_per_token,
                        attached_deposit,
                    ) is None
                    &&& data == self.settlement(
                        id,
                        price_per_token,
                        store_owner,
                        owner_id,
                        token_id,
                        affiliate,
                    )
                    &&& data.consistent()
                },
                Err(e) => self.sale_refusal(
                    ctx,
                    id,
                    storage_used,
                    price_per_token,
                    attached_deposit,
                ) == Some(e),
            },
    {
        if ctx.predecessor_account_id != self.marketplace_contract_id {
            return Err(ContractError::NotMarketplaceCaller);
        }
        let required_cost = storage_cost(storage_used);
        let covered = match required_cost.checked_add(price_per_token) {
            Some(total) => attached_deposit >= total,
            None => false,
        };
        if !covered {
            return Err(
                ContractError::InsufficientDeposit { required_cost, price: price_per_token },
            );
        }
        let series = match self.series_by_id.get(&id) {
            Some(series) => series,
            None => {
                return Err(ContractError::SeriesNotFound);
            },
        };
        let percentage = match &affiliate {
            Some(account) => match &series.affiliate {
                Some(listed) => match listed.get(account) {
                    Some(share) => Some(*share),
                    None => None,
                },
                None => None,
            },
            None => None,
        };
        let affiliate_id = if percentage.is_some() {
            affiliate
        } else {
            None
        };
        Ok(
            MarketplaceData {
                price: price_per_token,
                affiliate: percentage.is_some(),
                affiliate_id,
                affiliate_percentage: percentage,
                token_id,
                token_owner: owner_id,
                store_owner,
            },
        )
    }
}

impl NonFungibleTokenMetadata for Contract {
    open spec fn held_metadata(&self) -> Option<NFTContractMetadata> {
        self.metadata
    }

    fn nft_metadata(&self) -> (metadata: NFTContractMetadata) {
        self.metadata.as_ref().unwrap().clone()
    }
}

/// A sale from a series without a list of affiliates, or with a list that
/// does not name the candidate, is settled without an affiliate, whoever the
/// candidate is.
pub proof fn law_unlisted_candidate_earns_nothing(
    store: Contract,
    id: u64,
    price_per_token: u128,
    store_owner: String,
    owner_id: String,
    token_id: String,
    candidate: Option<String>,
)
    requires
        store.series_by_id@[id].affiliate is None || (candidate is Some
            ==> !store.series_by_id@[id].affiliate->0@.contains_key(candidate->0@)),
    ensures
        ({
            let data = store.settlement(
                id,
                price_per_token,
                store_owner,
                owner_id,
                token_id,
                candidate,
            );
            &&& !data.affiliate
            &&& data.affiliate_id is None
            &&& data.affiliate_percentage is None
        }),
{
}

/// A candidate that the series lists earns the commission that the list gives
/// it.
pub proof fn law_listed_candidate_earns_commission(
    store: Contract,
    id: u64,
    price_per_token: u128,
    store_owner: String,
    owner_id: String,
    token_id: String,
    candidate: String,
)
    requires
        store.series_by_id@[id].affiliate is Some,
        store.series_by_id@[id].affiliate->0@.contains_key(candidate@),
    ensures
        ({
            let data = store.settlement(
                id,
                price_per_token,
                store_owner,
                owner_id,
                token_id,
                Some(candidate),
            );
            &&& data.affiliate
            &&& data.affiliate_id == Some(candidate)
            &&& data.affiliate_percentage == Some(
                store.series_by_id@[id].affiliate->0@[candidate@],
            )
        }),
{
}

/// A deposit below the cost of the storage plus the price fails every sale. A
/// deposit of exactly that sum passes a sale that the marketplace asks for
/// from a series that exists.
pub proof fn law_deposit_must_cover_sale(
    store: Contract,
    ctx: Context,
    id: u64,
    storage_used: u64,
    price_per_token: u128,
    attached_deposit: u128,
)
    ensures
        attached_deposit < storage_cost_of(storage_used) + price_per_token ==> store.sale_refusal(
            &ctx,
            id,
            storage_used,
            price_per_token,
            attached_deposit,
        ) is Some,
        attached_deposit == storage_cost_of(storage_used) + price_per_token
            && store.from_marketplace(&ctx) && store.series_by_id@.contains_key(id)
            ==> store.sale_refusal(&ctx, id, storage_used, price_per_token, attached_deposit)
            is None,
{
}

/// Once a token is unlocked, a second unlock of it is refused.
pub proof fn law_unlock_only_once(before: Contract, after: Contract, ctx: Context, token_id: Seq<char>)
    requires
        after.tokens_locked@ == before.tokens_locked@.remove(token_id),
    ensures
        after.unlock_refusal(&ctx, token_id) is Some,
        after.from_marketplace(&ctx) ==> after.unlock_refusal(&ctx, token_id) == Some(
            ContractError::TokenNotLocked,
        ),
{
}

} // verus!
