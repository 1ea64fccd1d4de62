//! The remote work that the store asks for: payments, and chains of actions on
//! another account that end in a completion step of the store.

use crate::factory::FtData;
use crate::metadata::{StorageData, TokenData};
use vstd::prelude::*;

verus! {

/// A payment to be made from the store's balance.
#[derive(Debug, PartialEq, Eq)]
pub struct Transfer {
    pub receiver_id: String,
    /// In yocto.
    pub amount: u128,
}

/// What a remote method is called with.
#[derive(Debug, PartialEq, Eq)]
pub enum CallArguments {
    /// For the token's initialiser.
    Init(FtData),
    /// For the token's storage registration.
    Storage(StorageData),
    /// For a token transfer.
    Token(TokenData),
}

/// One step of a chain.
#[derive(Debug, PartialEq, Eq)]
pub enum Action {
    /// Create the receiving account.
    CreateAccount,
    /// Give the receiving account a key with full access.
    AddFullAccessKey { public_key: Vec<u8> },
    /// Pay the receiving account.
    Transfer { amount: u128 },
    /// Install a program on the receiving account.
    DeployContract { code: Vec<u8> },
    /// Call a method of the receiving account.
    FunctionCall { method_name: String, arguments: CallArguments, deposit: u128, gas: u64 },
}

/// The step of the store that runs once a chain has ended, well or not.
#[derive(Debug, PartialEq, Eq)]
pub enum Completion {
    /// Ends a token deployment; handed to `deploy_token_callback`.
    DeployToken { token_creator_id: String, attached_deposit: u128 },
    /// Ends a reward; handed to `reward_with_token_callback`.
    RewardWithToken { token_quantity: u128 },
}

/// Actions to run in order on one account, each only if the one before went
/// well, and the completion step that runs afterwards in either case.
#[derive(Debug, PartialEq, Eq)]
pub struct Chain {
    pub receiver_id: String,
    pub actions: Vec<Action>,
    pub completion: Completion,
}

} // verus!
