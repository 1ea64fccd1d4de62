//! The records that the store keeps and hands out.

use crate::collections::StringMap;
use vstd::prelude::*;

verus! {

/// A token is named by a string.
pub type TokenId = String;

/// What each account is paid out of a sale.
pub struct Payout {
    pub payout: StringMap<u128>,
}

/// What the store says of itself.
#[derive(Debug)]
pub struct NFTContractMetadata {
    /// Version of the metadata layout, such as "nft-1.0.0".
    pub spec: String,
    /// Name of the store.
    pub name: String,
    /// Short symbol of the store.
    pub symbol: String,
    /// Logo.
    pub icon: Option<String>,
    /// Background image.
    pub bg_icon: Option<String>,
    pub category: Option<String>,
    pub description: Option<String>,
    pub facebook: Option<String>,
    pub twitter: Option<String>,
    pub instagram: Option<String>,
    pub tiktok: Option<String>,
    pub youtube: Option<String>,
    pub zip: Option<String>,
    pub city: Option<String>,
    pub state: Option<String>,
    pub country: Option<String>,
    /// Gateway through which `reference` and media can be fetched.
    pub base_uri: Option<String>,
    /// Address of a document with more about the store.
    pub reference: Option<String>,
    /// SHA-256 of the document at `reference`.
    pub reference_hash: Option<Vec<u8>>,
}

/// What a series says of the tokens minted from it.
#[derive(Debug)]
pub struct TokenMetadata {
    pub title: Option<String>,
    pub description: String,
    /// Address of the media that shows the product.
    pub media: String,
    /// SHA-256 of what `media` points to.
    pub media_hash: Option<Vec<u8>>,
    /// How many copies existed when the token was minted.
    pub copies: Option<u64>,
    /// How long the seller has to fulfil an order before the buyer is refunded.
    pub buy_timeout: u64,
    /// Whether a buyer may pay part of the price in store tokens.
    pub is_discount: bool,
    pub discount_percent: u64,
    /// Store tokens that a buyer gives up for the discount.
    pub token_amount_per_unit: u128,
    /// Whether a purchase is rewarded with store tokens.
    pub is_reward: bool,
    /// Store tokens that one purchase earns.
    pub reward_amount_per_unit: u128,
    /// Whether the series is made for one user.
    pub is_custom_user: bool,
    pub user: Option<String>,
    /// Unix time in milliseconds.
    pub issued_at: Option<u64>,
    pub expires_at: Option<u64>,
    pub starts_at: Option<u64>,
    pub updated_at: Option<u64>,
    pub extra: Option<String>,
    pub reference: Option<String>,
    pub reference_hash: Option<Vec<u8>>,
}

/// A minted token.
pub struct Token {
    pub series_id: u64,
    pub owner_id: String,
    /// The accounts that may transfer the token, each with its approval number.
    pub approved_account_ids: StringMap<u64>,
    pub next_approval_id: u64,
}

/// A token as it is shown to a reader.
pub struct JsonToken {
    pub series_id: u64,
    pub token_id: TokenId,
    pub owner_id: String,
    pub metadata: TokenMetadata,
    pub colors: StringMap<u32>,
    pub approved_account_ids: StringMap<u64>,
    pub royalty: Option<StringMap<u32>>,
    pub price: Option<u128>,
}

/// Argument of the token's storage registration.
#[derive(Debug, PartialEq, Eq)]
pub struct StorageData {
    pub account_id: String,
    pub registration_only: bool,
}

/// Argument of a token transfer.
#[derive(Debug, PartialEq, Eq)]
pub struct TokenData {
    pub receiver_id: String,
    pub amount: u128,
    pub memo: String,
}

/// One account's request to sell a series as an affiliate.
#[derive(Debug, PartialEq, Eq)]
pub struct AffiliatesRequests {
    pub account_id: String,
    pub series_id: u64,
    pub approved: bool,
}

impl Clone for AffiliatesRequests {
    fn clone(&self) -> (copy: Self)
        ensures
            copy == *self,
    {
        AffiliatesRequests {
            account_id: self.account_id.clone(),
            series_id: self.series_id,
            approved: self.approved,
        }
    }
}

/// How the proceeds of one sale are to be split.
#[derive(Debug, PartialEq, Eq)]
pub struct MarketplaceData {
    pub price: u128,
    pub affiliate: bool,
    pub affiliate_id: Option<String>,
    pub affiliate_percentage: Option<u32>,
    pub token_id: String,
    pub token_owner: String,
    pub store_owner: String,
}

impl MarketplaceData {
    /// The affiliate fields are filled exactly when the sale has an affiliate.
    pub open spec fn consistent(&self) -> bool {
        &&& self.affiliate <==> self.affiliate_id is Some
        &&& self.affiliate <==> self.affiliate_percentage is Some
    }
}

/// A copy of an optional string.
fn copy_text(text: &Option<String>) -> (copy: Option<String>)
    ensures
        copy == *text,
{
    match text {
        Some(t) => Some(t.clone()),
        None => None,
    }
}

/// A copy of an optional run of bytes.
fn copy_bytes(bytes: &Option<Vec<u8>>) -> (copy: Option<Vec<u8>>)
    ensures
        copy is Some == bytes is Some,
        copy is Some ==> copy->0@ == bytes->0@,
{
    match bytes {
        Some(b) => Some(b.clone()),
        None => None,
    }
}

impl NFTContractMetadata {
    /// Two descriptions that say the same: equal texts and the same hash bytes.
    pub open spec fn same_as(&self, other: &NFTContractMetadata) -> bool {
        &&& self.spec == other.spec
        &&& self.name == other.name
        &&& self.symbol == other.symbol
        &&& self.icon == other.icon
        &&& self.bg_icon == other.bg_icon
        &&& self.category == other.category
        &&& self.description == other.description
        &&& self.facebook == other.facebook
        &&& self.twitter == other.twitter
        &&& self.instagram == other.instagram
        &&& self.tiktok == other.tiktok
        &&& self.youtube == other.youtube
        &&& self.zip == other.zip
        &&& self.city == other.city
        &&& self.state == other.state
        &&& self.country == other.country
        &&& self.base_uri == other.base_uri
        &&& self.reference == other.reference
        &&& self.reference_hash is Some == other.reference_hash is Some
        &&& self.reference_hash is Some ==> self.reference_hash->0@ == other.reference_hash->0@
    }
}

impl Clone for NFTContractMetadata {
    fn clone(&self) -> (copy: Self)
        ensures
            copy.same_as(self),
    {
        NFTContractMetadata {
            spec: self.spec.clone(),
            name: self.name.clone(),
            symbol: self.symbol.clone(),
            icon: copy_text(&self.icon),
            bg_icon: copy_text(&self.bg_icon),
            category: copy_text(&self.category),
            description: copy_text(&self.description),
            facebook: copy_text(&self.facebook),
            twitter: copy_text(&self.twitter),
            instagram: copy_text(&self.instagram),
            tiktok: copy_text(&self.tiktok),
            youtube: copy_text(&self.youtube),
            zip: copy_text(&self.zip),
            city: copy_text(&self.city),
            state: copy_text(&self.state),
            country: copy_text(&self.country),
            base_uri: copy_text(&self.base_uri),
            reference: copy_text(&self.reference),
            reference_hash: copy_bytes(&self.reference_hash),
        }
    }
}

/// A holder of the store's description.
pub trait NonFungibleTokenMetadata {
    /// The description that is held, if one is.
    spec fn held_metadata(&self) -> Option<NFTContractMetadata>;

    /// A copy of the description that is held.
    fn nft_metadata(&self) -> (metadata: NFTContractMetadata)
        requires
            self.held_metadata() is Some,
        ensures
            metadata.same_as(&self.held_metadata()->0),
    ;
}

} // verus!
