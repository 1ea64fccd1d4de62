//! Deploying the store's own token: the chain of actions that sets it up on an
//! account below the store's, and the step that ends the chain.

use crate::contract::{Context, Contract, ContractError, GAGAS, NO_DEPOSIT, TOKEN_BALANCE};
use crate::near::{is_valid_account_id, valid_account_id};
use crate::promise::{Action, CallArguments, Chain, Completion, Transfer};
use vstd::prelude::*;
use vstd::string::StringExecFns;

verus! {

/// Argument of the token's initialiser.
#[derive(Debug, PartialEq, Eq)]
pub struct FtData {
    /// The account that administers the token.
    pub owner_id: String,
    pub total_supply: u128,
    pub name: String,
    pub symbol: String,
    pub icon: String,
}

/// How the deployment of the token ended.
#[derive(Debug, PartialEq, Eq)]
pub enum DeployOutcome {
    /// The token is set up.
    Deployed,
    /// The chain failed; the deposit goes back to the account that paid it.
    Refunded(Transfer),
}

/// The name of the token account of the store at `current`: the store's name
/// behind `ft.`.
pub open spec fn token_account_name(current: Seq<char>) -> Seq<char> {
    seq!['f', 't', '.'] + current
}

/// The token account of the store at `current_account_id`, where that is a
/// name an account can have.
pub fn token_account(current_account_id: &String) -> (account: Option<String>)
    ensures
        match account {
            Some(name) => name@ == token_account_name(current_account_id@) && valid_account_id(
                name@,
            ),
            None => !valid_account_id(token_account_name(current_account_id@)),
        },
{
    let name = "ft.".to_owned().concat(current_account_id.as_str());
    proof {
        reveal_strlit("ft.");
        assert("ft."@ =~= seq!['f', 't', '.']);
    }
    if is_valid_account_id(&name) {
        Some(name)
    } else {
        None
    }
}

/// Whether `chain` is the deployment that the caller of `ctx` asked for: on
/// the store's token account, create it, give it the signer's key, pay it the
/// cost of the token, install `code`, and initialise the token with the store
/// as its administrator; then run the completion step with the caller and the
/// deposit.
pub open spec fn is_deployment_chain(
    chain: Chain,
    ctx: &Context,
    total_supply: u128,
    name: String,
    symbol: String,
    icon: String,
    code: Vec<u8>,
) -> bool {
    &&& chain.receiver_id@ == token_account_name(ctx.current_account_id@)
    &&& chain.actions@.len() == 5
    &&& chain.actions@[0] == Action::CreateAccount
    &&& chain.actions@[1] matches Action::AddFullAccessKey { public_key } && public_key@
        == ctx.signer_account_pk@
    &&& chain.actions@[2] == (Action::Transfer { amount: TOKEN_BALANCE })
    &&& chain.actions@[3] == (Action::DeployContract { code })
    &&& chain.actions@[4] matches Action::FunctionCall { method_name, arguments, deposit, gas }
        && method_name@ == "new_default_meta"@ && arguments == CallArguments::Init(
        FtData { owner_id: ctx.current_account_id, total_supply, name, symbol, icon },
    ) && deposit == NO_DEPOSIT && gas == GAGAS
    &&& chain.completion == (Completion::DeployToken {
        token_creator_id: ctx.predecessor_account_id,
        attached_deposit: ctx.attached_deposit,
    })
}

/// How a deployment ends for the account that paid for it: well, or with the
/// whole deposit paid back.
pub open spec fn deployment_outcome(
    token_creator_id: String,
    attached_deposit: u128,
    chain_succeeded: bool,
) -> DeployOutcome {
    if chain_succeeded {
        DeployOutcome::Deployed
    } else {
        DeployOutcome::Refunded(Transfer { receiver_id: token_creator_id, amount: attached_deposit })
    }
}

impl Contract {
    /// The store once a deployment has ended: with its token deployed where
    /// the chain went well, as it was where the chain failed.
    pub open spec fn after_deployment(self, chain_succeeded: bool) -> Contract {
        if chain_succeeded {
            Contract { token: true, ..self }
        } else {
            self
        }
    }

    /// Whether the call was made by the store itself.
    pub open spec fn from_self(ctx: &Context) -> bool {
        ctx.predecessor_account_id@ == ctx.current_account_id@
    }

    /// Why a deployment is refused, if it is: the deposit must exceed the cost
    /// of the token; no token may be deployed yet; the caller must be the
    /// store's owner; the token account must have a valid name.
    pub open spec fn deployment_refusal(&self, ctx: &Context) -> Option<ContractError> {
        if ctx.attached_deposit <= TOKEN_BALANCE {
            Some(ContractError::InsufficientDeposit { required_cost: TOKEN_BALANCE, price: 0 })
        } else if self.token {
            Some(ContractError::TokenAlreadyDeployed)
        } else if !self.from_owner(ctx) {
            Some(ContractError::NotContractOwner)
        } else if !valid_account_id(token_account_name(ctx.current_account_id@)) {
            Some(ContractError::InvalidTokenAccount)
        } else {
            None
        }
    }

    /// Plans the deployment of the store's token, whose program is `code`. The
    /// store's state stays as it is: whether the token is deployed is settled
    /// by `deploy_token_callback`, which ends the chain.
    pub fn deploy_token(
        &self,
        ctx: &Context,
        total_supply: u128,
        name: String,
        symbol: String,
        icon: String,
        code: Vec<u8>,
    ) -> (result: Result<Chain, ContractError>)
        ensures
            match result {
                Ok(chain) => {
                    &&& self.deployment_refusal(ctx) is None
                    &&& is_deployment_chain(chain, ctx, total_supply, name, symbol, icon, code)
                },
                Err(e) => self.deployment_refusal(ctx) == Some(e),
            },
    {
        if ctx.attached_deposit <= TOKEN_BALANCE {
            return Err(
                ContractError::InsufficientDeposit { required_cost: TOKEN_BALANCE, price: 0 },
            );
        }
        if self.token {
            return Err(ContractError::TokenAlreadyDeployed);
        }
        if self.owner_id != ctx.predecessor_account_id {
            return Err(ContractError::NotContractOwner);
        }
        let subaccount = match token_account(&ctx.current_account_id) {
            Some(name) => name,
            None => {
                return Err(ContractError::InvalidTokenAccount);
            },
        };
        let init_args = FtData {
            owner_id: ctx.current_account_id.clone(),
            total_supply,
            name,
            symbol,
            icon,
        };
        let mut actions: Vec<Action> = Vec::new();
        actions.push(Action::CreateAccount);
        actions.push(Action::AddFullAccessKey { public_key: ctx.signer_account_pk.clone() });
        actions.push(Action::Transfer { amount: TOKEN_BALANCE });
        actions.push(Action::DeployContract { code });
        actions.push(
            Action::FunctionCall {
                method_name: "new_default_meta".to_owned(),
                arguments: CallArguments::Init(init_args),
                deposit: NO_DEPOSIT,
                gas: GAGAS,
            },
        );
        Ok(
            Chain {
                receiver_id: subaccount,
                actions,
                completion: Completion::DeployToken {
                    token_creator_id: ctx.predecessor_account_id.clone(),
                    attached_deposit: ctx.attached_deposit,
                },
            },
        )
    }

    /// Ends a deployment. Only the store itself may call. Where the chain went
    /// well the token counts as deployed from now on; where it failed nothing
    /// changes and the whole deposit goes back to `token_creator_id`.
    pub fn deploy_token_callback(
        &mut self,
        ctx: &Context,
        token_creator_id: String,
        attached_deposit: u128,
        chain_succeeded: bool,
    ) -> (result: Result<DeployOutcome, ContractError>)
        ensures
            result is Ok <==> Self::from_self(ctx),
            match result {
                Ok(outcome) => {
                    &&& outcome == deployment_outcome(
                        token_creator_id,
                        attached_deposit,
                        chain_succeeded,
                    )
                    &&& *final(self) == old(self).after_deployment(chain_succeeded)
                },
                Err(e) => e == ContractError::NotSelf && *final(self) == *old(self),
            },
    {
        if ctx.predecessor_account_id != ctx.current_account_id {
            return Err(ContractError::NotSelf);
        }
        if chain_succeeded {
            self.token = true;
            Ok(DeployOutcome::Deployed)
        } else {
            Ok(
                DeployOutcome::Refunded(
                    Transfer { receiver_id: token_creator_id, amount: attached_deposit },
                ),
            )
        }
    }
}

impl DeployOutcome {
    /// The line that reports the outcome.
    pub fn log_message(&self) -> (line: String)
        ensures
            line@ == (match self {
                DeployOutcome::Deployed => "Successful token deployment"@,
                DeployOutcome::Refunded(_) => "failed token deployment"@,
            }),
    {
        match self {
            DeployOutcome::Deployed => "Successful token deployment".to_owned(),
            DeployOutcome::Refunded(_) => "failed token deployment".to_owned(),
        }
    }
}

/// The end of a deployment leaves every part of the store but the token flag
/// as it was. A chain that went well sets the flag. A chain that failed
/// leaves the flag as it was, and the account that paid gets back exactly what
/// it paid.
pub proof fn law_deployment_settles_in_completion(
    store: Contract,
    token_creator_id: String,
    attached_deposit: u128,
    chain_succeeded: bool,
)
    ensures
        store.after_deployment(chain_succeeded) == (Contract {
            token: store.token || chain_succeeded,
            ..store
        }),
        !chain_succeeded ==> deployment_outcome(token_creator_id, attached_deposit, chain_succeeded)
            == DeployOutcome::Refunded(
            Transfer { receiver_id: token_creator_id, amount: attached_deposit },
        ),
        chain_succeeded ==> deployment_outcome(token_creator_id, attached_deposit, chain_succeeded)
            == DeployOutcome::Deployed,
{
}

/// A deployment is planned only while no token is deployed.
pub proof fn law_deployment_happens_once(store: Contract, ctx: Context)
    requires
        store.token,
    ensures
        store.deployment_refusal(&ctx) is Some,
{
}

} // verus!
