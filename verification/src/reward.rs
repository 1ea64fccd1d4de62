//! Rewarding a buyer with the store's token: the chain that pays the reward,
//! and the step that reports how the chain ended.

use crate::contract::{Context, Contract, ContractError, GAGAS, NO_DEPOSIT, ONE_YOCTO};
use crate::factory::{token_account, token_account_name};
use crate::metadata::{StorageData, TokenData};
use crate::near::valid_account_id;
use crate::promise::{Action, CallArguments, Chain, Completion};
use vstd::prelude::*;
use vstd::string::StringExecFns;

verus! {

broadcast use vstd::std_specs::hash::group_hash_axioms;

/// The character of the digit `d`.
pub open spec fn digit(d: nat) -> char {
    if d == 0 {
        '0'
    } else if d == 1 {
        '1'
    } else if d == 2 {
        '2'
    } else if d == 3 {
        '3'
    } else if d == 4 {
        '4'
    } else if d == 5 {
        '5'
    } else if d == 6 {
        '6'
    } else if d == 7 {
        '7'
    } else if d == 8 {
        '8'
    } else {
        '9'
    }
}

/// `n` written in base ten, without leading zeros.
pub open spec fn decimal(n: nat) -> Seq<char>
    decreases n,
{
    if n < 10 {
        seq![digit(n)]
    } else {
        decimal(n / 10).push(digit(n % 10))
    }
}

/// The note that goes with a reward from the store at `current`.
pub open spec fn reward_memo(current: Seq<char>) -> Seq<char> {
    "Thank You for Shopping at AccountId(\""@ + current + "\")!"@
}

/// What the completion step says of a reward of `quantity` tokens.
pub open spec fn reward_report(quantity: u128, chain_succeeded: bool) -> Seq<char> {
    if chain_succeeded {
        "Sent "@ + decimal(quantity as nat) + " token successfully!"@
    } else {
        "failed sending token"@
    }
}

/// The digit `d` as text.
fn digit_text(d: u8) -> (text: &'static str)
    requires
        d < 10,
    ensures
        text@ == seq![digit(d as nat)],
{
    proof {
        reveal_strlit("0");
        reveal_strlit("1");
        reveal_strlit("2");
        reveal_strlit("3");
        reveal_strlit("4");
        reveal_strlit("5");
        reveal_strlit("6");
        reveal_strlit("7");
        reveal_strlit("8");
        reveal_strlit("9");
    }
    let text = if d == 0 {
        "0"
    } else if d == 1 {
        "1"
    } else if d == 2 {
        "2"
    } else if d == 3 {
        "3"
    } else if d == 4 {
        "4"
    } else if d == 5 {
        "5"
    } else if d == 6 {
        "6"
    } else if d == 7 {
        "7"
    } else if d == 8 {
        "8"
    } else {
        "9"
    };
    assert(text@ =~= seq![digit(d as nat)]);
    text
}

/// Writes `n` in base ten at the end of `out`.
pub fn append_decimal(out: &mut String, n: u128)
    ensures
        final(out)@ == old(out)@ + decimal(n as nat),
    decreases n,
{
    if n >= 10 {
        append_decimal(out, n / 10);
    }
    out.append(digit_text((n % 10) as u8));
    assert(out@ =~= old(out)@ + decimal(n as nat));
}

/// Whether `chain` is the reward of `quantity` tokens to `receiver_id` by the
/// store of `ctx`: on the store's token account, register the receiver, paying
/// the registration fee, then transfer the tokens with the store's note; and
/// afterwards run the completion step with the quantity.
pub open spec fn is_reward_chain(chain: Chain, ctx: &Context, receiver_id: String, quantity: u128) -> bool {
    &&& chain.receiver_id@ == token_account_name(ctx.current_account_id@)
    &&& chain.actions@.len() == 2
    &&& chain.actions@[0] matches Action::FunctionCall { method_name, arguments, deposit, gas }
        && method_name@ == "storage_deposit"@ && arguments == CallArguments::Storage(
        StorageData { account_id: receiver_id, registration_only: false },
    ) && deposit == ONE_YOCTO && gas == GAGAS
    &&& chain.actions@[1] matches Action::FunctionCall { method_name, arguments, deposit, gas }
        && method_name@ == "ft_transfer"@ && (arguments matches CallArguments::Token(data)
        && data.receiver_id == receiver_id && data.amount == quantity && data.memo@ == reward_memo(
        ctx.current_account_id@,
    )) && deposit == NO_DEPOSIT && gas == GAGAS
    &&& chain.completion == (Completion::RewardWithToken { token_quantity: quantity })
}

impl Contract {
    /// Why a reward for a purchase from series `id` is refused, if it is: the
    /// caller must be the marketplace; the store's token must be deployed; the
    /// series must exist and reward its buyers; the token account must have a
    /// valid name.
    pub open spec fn reward_refusal(&self, ctx: &Context, id: u64) -> Option<ContractError> {
        if !self.from_marketplace(ctx) {
            Some(ContractError::NotMarketplaceCaller)
        } else if !self.token {
            Some(ContractError::TokenNotDeployed)
        } else if !self.series_by_id@.contains_key(id) {
            Some(ContractError::SeriesNotFound)
        } else if !self.series_by_id@[id].metadata.is_reward {
            Some(ContractError::NoReward)
        } else if !valid_account_id(token_account_name(ctx.current_account_id@)) {
            Some(ContractError::InvalidTokenAccount)
        } else {
            None
        }
    }

    /// Plans the reward that a purchase from series `id` earns `receiver_id`:
    /// the amount that the series sets, in the store's token. A refused call
    /// plans nothing.
    pub fn reward_with_token(&self, ctx: &Context, id: u64, receiver_id: String) -> (result: Result<
        Chain,
        ContractError,
    >)
        ensures
            match result {
                Ok(chain) => {
                    &&& self.reward_refusal(ctx, id) is None
                    &&& is_reward_chain(
                        chain,
                        ctx,
                        receiver_id,
                        self.series_by_id@[id].metadata.reward_amount_per_unit,
                    )
                },
                Err(e) => self.reward_refusal(ctx, id) == Some(e),
            },
    {
        if self.marketplace_contract_id != ctx.predecessor_account_id {
            return Err(ContractError::NotMarketplaceCaller);
        }
        if !self.token {
            return Err(ContractError::TokenNotDeployed);
        }
        let series = match self.series_by_id.get(&id) {
            Some(series) => series,
            None => {
                return Err(ContractError::SeriesNotFound);
            },
        };
        if !series.metadata.is_reward {
            return Err(ContractError::NoReward);
        }
        let token_quantity = series.metadata.reward_amount_per_unit;
        let token_account = match token_account(&ctx.current_account_id) {
            Some(name) => name,
            None => {
                return Err(ContractError::InvalidTokenAccount);
            },
        };
        let memo = "Thank You for Shopping at AccountId(\"".to_owned().concat(
            ctx.current_account_id.as_str(),
        ).concat("\")!");
        let storage_args = StorageData { account_id: receiver_id.clone(), registration_only: false };
        let token_args = TokenData { receiver_id, amount: token_quantity, memo };
        let mut actions: Vec<Action> = Vec::new();
        actions.push(
            Action::FunctionCall {
                method_name: "storage_deposit".to_owned(),
                arguments: CallArguments::Storage(storage_args),
                deposit: ONE_YOCTO,
                gas: GAGAS,
            },
        );
        actions.push(
            Action::FunctionCall {
                method_name: "ft_transfer".to_owned(),
                arguments: CallArguments::Token(token_args),
                deposit: NO_DEPOSIT,
                gas: GAGAS,
            },
        );
        Ok(
            Chain {
                receiver_id: token_account,
                actions,
                completion: Completion::RewardWithToken { token_quantity },
            },
        )
    }

    /// Ends a reward: says in words whether the `token_quantity` tokens were
    /// sent. Only the store itself may call.
    pub fn reward_with_token_callback(
        &self,
        ctx: &Context,
        token_quantity: u128,
        chain_succeeded: bool,
    ) -> (result: Result<String, ContractError>)
        ensures
            match result {
                Ok(report) => Self::from_self(ctx) && report@ == reward_report(
                    token_quantity,
                    chain_succeeded,
                ),
                Err(e) => !Self::from_self(ctx) && e == ContractError::NotSelf,
            },
    {
        if ctx.predecessor_account_id != ctx.current_account_id {
            return Err(ContractError::NotSelf);
        }
        if chain_succeeded {
            let mut report = "Sent ".to_owned();
            append_decimal(&mut report, token_quantity);
            report.append(" token successfully!");
            Ok(report)
        } else {
            Ok("failed sending token".to_owned())
        }
    }
}

/// No reward is planned while the store's token is not deployed, nor for a
/// series that is missing or rewards no purchase, whoever calls and whoever is
/// to receive it.
pub proof fn law_reward_needs_token_and_rewarding_series(store: Contract, ctx: Context, id: u64)
    requires
        !store.token || !store.series_by_id@.contains_key(id)
            || !store.series_by_id@[id].metadata.is_reward,
    ensures
        store.reward_refusal(&ctx, id) is Some,
{
}

} // verus!
