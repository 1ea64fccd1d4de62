//! Affiliate requests: how an account asks to sell a series, and how the
//! store's owner grants it.

use crate::contract::{Context, Contract, ContractError, Series, ONE_YOCTO};
use crate::metadata::AffiliatesRequests;
use crate::near::{storage_cost, storage_cost_of};
use crate::promise::Transfer;
use vstd::prelude::*;

verus! {

broadcast use vstd::std_specs::hash::group_hash_axioms;

/// Whether `request` is one of `account` for series `id`; with `open_only`,
/// one that is not granted yet.
pub open spec fn concerns(
    request: AffiliatesRequests,
    account: Seq<char>,
    id: u64,
    open_only: bool,
) -> bool {
    &&& request.account_id@ == account
    &&& request.series_id == id
    &&& open_only ==> !request.approved
}

/// Whether `requests` holds a request of `account` for series `id` (with
/// `open_only`, one that is not granted yet).
pub open spec fn has_request(
    requests: Seq<AffiliatesRequests>,
    account: Seq<char>,
    id: u64,
    open_only: bool,
) -> bool {
    exists|i: int| 0 <= i < requests.len() && concerns(#[trigger] requests[i], account, id, open_only)
}

/// Whether the first such request stands at `i`.
pub open spec fn is_first_request(
    requests: Seq<AffiliatesRequests>,
    account: Seq<char>,
    id: u64,
    open_only: bool,
    i: int,
) -> bool {
    &&& 0 <= i < requests.len()
    &&& concerns(requests[i], account, id, open_only)
    &&& forall|j: int| 0 <= j < i ==> !concerns(#[trigger] requests[j], account, id, open_only)
}

/// The place of the first such request.
pub open spec fn first_request(
    requests: Seq<AffiliatesRequests>,
    account: Seq<char>,
    id: u64,
    open_only: bool,
) -> int {
    choose|i: int| is_first_request(requests, account, id, open_only, i)
}

/// Among the requests that match, one comes first, and `first_request` is its
/// place.
pub proof fn lemma_first_request(
    requests: Seq<AffiliatesRequests>,
    account: Seq<char>,
    id: u64,
    open_only: bool,
    i: int,
)
    requires
        0 <= i < requests.len(),
        concerns(requests[i], account, id, open_only),
    ensures
        has_request(requests, account, id, open_only),
        is_first_request(requests, account, id, open_only, first_request(requests, account, id, open_only)),
        first_request(requests, account, id, open_only) <= i,
        is_first_request(requests, account, id, open_only, i) ==> first_request(
            requests,
            account,
            id,
            open_only,
        ) == i,
    decreases i,
{
    if exists|j: int| 0 <= j < i && concerns(#[trigger] requests[j], account, id, open_only) {
        let j = choose|j: int| 0 <= j < i && concerns(#[trigger] requests[j], account, id, open_only);
        lemma_first_request(requests, account, id, open_only, j);
    } else {
        assert(is_first_request(requests, account, id, open_only, i));
        let f = first_request(requests, account, id, open_only);
        assert(is_first_request(requests, account, id, open_only, f));
        if f > i {
            assert(!concerns(requests[i], account, id, open_only));
        }
    }
}

/// Whether no account has two requests for the same series among `requests`.
pub open spec fn one_request_each(requests: Seq<AffiliatesRequests>) -> bool {
    forall|i: int, j: int|
        0 <= i < j < requests.len() ==> !concerns(
            #[trigger] requests[j],
            (#[trigger] requests[i]).account_id@,
            requests[i].series_id,
            false,
        )
}

/// The requests once `account_id` has asked for series `id`: one more, not
/// granted, at the end.
pub open spec fn with_request(
    requests: Seq<AffiliatesRequests>,
    account_id: String,
    id: u64,
) -> Seq<AffiliatesRequests> {
    requests.push(AffiliatesRequests { account_id, series_id: id, approved: false })
}

/// The requests once the one at `i` is granted: that one approved, every other
/// as it was.
pub open spec fn with_approval(requests: Seq<AffiliatesRequests>, i: int) -> Seq<
    AffiliatesRequests,
> {
    requests.update(
        i,
        AffiliatesRequests {
            account_id: requests[i].account_id,
            series_id: requests[i].series_id,
            approved: true,
        },
    )
}

/// Whether `after` is `before` with the commission of `account` set to
/// `percentage`, and nothing else changed.
pub open spec fn with_commission(
    before: Series,
    after: Series,
    account: Seq<char>,
    percentage: u32,
) -> bool {
    &&& before.affiliate is Some
    &&& after.affiliate is Some
    &&& after.affiliate->0@ == before.affiliate->0@.insert(account, percentage)
    &&& after == (Series { affiliate: after.affiliate, ..before })
}

impl Contract {
    /// Where the first request of `account` for series `id` stands (with
    /// `open_only`, the first that is not granted yet).
    fn find_request(&self, account: &String, id: u64, open_only: bool) -> (at: Option<usize>)
        ensures
            match at {
                Some(i) => is_first_request(
                    self.affiliate_requests@,
                    account@,
                    id,
                    open_only,
                    i as int,
                ) && first_request(self.affiliate_requests@, account@, id, open_only) == i
                    && has_request(self.affiliate_requests@, account@, id, open_only),
                None => !has_request(self.affiliate_requests@, account@, id, open_only),
            },
    {
        let mut i: usize = 0;
        while i < self.affiliate_requests.len()
            invariant
                i <= self.affiliate_requests@.len(),
                forall|j: int|
                    0 <= j < i ==> !concerns(
                        #[trigger] self.affiliate_requests@[j],
                        account@,
                        id,
                        open_only,
                    ),
            decreases self.affiliate_requests@.len() - i,
        {
            let request = &self.affiliate_requests[i];
            if request.account_id == *account && request.series_id == id && (!open_only
                || !request.approved) {
                proof {
                    lemma_first_request(self.affiliate_requests@, account@, id, open_only, i as int);
                }
                return Some(i);
            }
            i += 1;
        }
        None
    }

    /// Why a request of `account` for series `id` is refused, if it is. An
    /// earlier request of the same account for the same series, granted or
    /// not, comes first and is given back; then the series must exist and take
    /// affiliates; then the deposit must exceed `ONE_YOCTO`.
    pub open spec fn request_refusal(&self, ctx: &Context, id: u64, account: Seq<char>) -> Option<
        ContractError,
    > {
        if has_request(self.affiliate_requests@, account, id, false) {
            Some(
                ContractError::DuplicateRequest(
                    self.affiliate_requests@[first_request(
                        self.affiliate_requests@,
                        account,
                        id,
                        false,
                    )],
                ),
            )
        } else if !self.series_by_id@.contains_key(id) {
            Some(ContractError::SeriesNotFound)
        } else if self.series_by_id@[id].affiliate is None {
            Some(ContractError::AffiliateNotAccepted)
        } else if ctx.attached_deposit <= ONE_YOCTO {
            Some(ContractError::InsufficientDeposit { required_cost: ONE_YOCTO, price: 0 })
        } else {
            None
        }
    }

    /// Records that `affiliate_id` asks to sell series `id`. The new request is
    /// not granted and stands last. A refused call changes nothing.
    pub fn affiliate_request(&mut self, ctx: &Context, id: u64, affiliate_id: String) -> (result:
        Result<(), ContractError>)
        ensures
            match result {
                Ok(_) => {
                    &&& old(self).request_refusal(ctx, id, affiliate_id@) is None
                    &&& final(self).affiliate_requests@ == with_request(
                        old(self).affiliate_requests@,
                        affiliate_id,
                        id,
                    )
                    &&& *final(self) == (Contract {
                        affiliate_requests: final(self).affiliate_requests,
                        ..*old(self)
                    })
                    &&& final(self).token == old(self).token
                },
                Err(e) => {
                    &&& old(self).request_refusal(ctx, id, affiliate_id@) == Some(e)
                    &&& *final(self) == *old(self)
                },
            },
    {
        match self.find_request(&affiliate_id, id, false) {
            Some(i) => {
                return Err(ContractError::DuplicateRequest(self.affiliate_requests[i].clone()));
            },
            None => {},
        }
        match self.series_by_id.get(&id) {
            Some(series) => {
                if series.affiliate.is_none() {
                    return Err(ContractError::AffiliateNotAccepted);
                }
            },
            None => {
                return Err(ContractError::SeriesNotFound);
            },
        }
        if ctx.attached_deposit <= ONE_YOCTO {
            return Err(ContractError::InsufficientDeposit { required_cost: ONE_YOCTO, price: 0 });
        }
        self.affiliate_requests.push(
            AffiliatesRequests { account_id: affiliate_id, series_id: id, approved: false },
        );
        Ok(())
    }

    /// Why the grant of `account`'s request for series `id` is refused, if it
    /// is: the caller must be the store's owner; a request of the account for
    /// the series must be open; the series must exist and list the account
    /// among its affiliates.
    pub open spec fn approval_refusal(&self, ctx: &Context, id: u64, account: Seq<char>) -> Option<
        ContractError,
    > {
        if !self.from_owner(ctx) {
            Some(ContractError::NotContractOwner)
        } else if !has_request(self.affiliate_requests@, account, id, true) {
            Some(ContractError::RequestNotFound)
        } else if !self.series_by_id@.contains_key(id) {
            Some(ContractError::SeriesNotFound)
        } else if self.series_by_id@[id].commission(account) is None {
            Some(ContractError::AffiliateNotEligible)
        } else {
            None
        }
    }

    /// Grants the first open request of `affiliate_id` for series `id` and sets
    /// the account's commission in the series to `percentage`. Returns the
    /// request as it now stands. Nothing else changes, and a refused call
    /// changes nothing.
    pub fn approve_affiliate(
        &mut self,
        ctx: &Context,
        id: u64,
        affiliate_id: String,
        percentage: u32,
    ) -> (result: Result<AffiliatesRequests, ContractError>)
        ensures
            match result {
                Ok(granted) => {
                    let at = first_request(old(self).affiliate_requests@, affiliate_id@, id, true);
                    &&& old(self).approval_refusal(ctx, id, affiliate_id@) is None
                    &&& final(self).affiliate_requests@ == with_approval(
                        old(self).affiliate_requests@,
                        at,
                    )
                    &&& granted == final(self).affiliate_requests@[at]
                    &&& final(self).series_by_id@ == old(self).series_by_id@.insert(
                        id,
                        final(self).series_by_id@[id],
                    )
                    &&& with_commission(
                        old(self).series_by_id@[id],
                        final(self).series_by_id@[id],
                        affiliate_id@,
                        percentage,
                    )
                    &&& *final(self) == (Contract {
                        affiliate_requests: final(self).affiliate_requests,
                        series_by_id: final(self).series_by_id,
                        ..*old(self)
                    })
                    &&& final(self).token == old(self).token
                },
                Err(e) => {
                    &&& old(self).approval_refusal(ctx, id, affiliate_id@) == Some(e)
                    &&& *final(self) == *old(self)
                },
            },
    {
        if self.owner_id != ctx.predecessor_account_id {
            return Err(ContractError::NotContractOwner);
        }
        let at = match self.find_request(&affiliate_id, id, true) {
            Some(i) => i,
            None => {
                return Err(ContractError::RequestNotFound);
            },
        };
        match self.series_by_id.get(&id) {
            Some(series) => {
                let listed = match &series.affiliate {
                    Some(listed) => listed.contains_key(&affiliate_id),
                    None => false,
                };
                if !listed {
                    return Err(ContractError::AffiliateNotEligible);
                }
            },
            None => {
                return Err(ContractError::SeriesNotFound);
            },
        }
        let Series { metadata, colors, royalty, affiliate, tokens, price, owner_id } =
            self.series_by_id.remove(&id).unwrap();
        let mut listed = affiliate.unwrap();
        listed.insert(affiliate_id, percentage);
        self.series_by_id.insert(
            id,
            Series { metadata, colors, royalty, affiliate: Some(listed), tokens, price, owner_id },
        );
        assert(self.series_by_id@ =~= old(self).series_by_id@.insert(
            id,
            self.series_by_id@[id],
        ));
        let granted = AffiliatesRequests {
            account_id: self.affiliate_requests[at].account_id.clone(),
            series_id: self.affiliate_requests[at].series_id,
            approved: true,
        };
        self.affiliate_requests.set(at, granted.clone());
        Ok(granted)
    }

    /// A copy of every request, in the order in which they came.
    pub fn get_affiliates(&self) -> (requests: Vec<AffiliatesRequests>)
        ensures
            requests@ == self.affiliate_requests@,
    {
        let mut requests: Vec<AffiliatesRequests> = Vec::new();
        let mut i: usize = 0;
        while i < self.affiliate_requests.len()
            invariant
                i <= self.affiliate_requests@.len(),
                requests@ == self.affiliate_requests@.take(i as int),
            decreases self.affiliate_requests@.len() - i,
        {
            requests.push(self.affiliate_requests[i].clone());
            assert(self.affiliate_requests@.take(i + 1) == self.affiliate_requests@.take(
                i as int,
            ).push(self.affiliate_requests@[i as int]));
            i += 1;
        }
        assert(self.affiliate_requests@.take(i as int) == self.affiliate_requests@);
        requests
    }
}

/// What is left of the deposit of a call that took `storage_used` bytes of
/// storage, to be paid back to the caller. The deposit must cover the storage.
pub fn refund_deposit(ctx: &Context, storage_used: u64) -> (result: Result<Transfer, ContractError>)
    ensures
        match result {
            Ok(refund) => {
                &&& ctx.attached_deposit >= storage_cost_of(storage_used)
                &&& refund.receiver_id == ctx.predecessor_account_id
                &&& refund.amount == ctx.attached_deposit - storage_cost_of(storage_used)
            },
            Err(e) => {
                &&& ctx.attached_deposit < storage_cost_of(storage_used)
                &&& e == (ContractError::InsufficientDeposit {
                    required_cost: storage_cost_of(storage_used) as u128,
                    price: 0,
                })
            },
        },
{
    let required_cost = storage_cost(storage_used);
    if ctx.attached_deposit < required_cost {
        return Err(ContractError::InsufficientDeposit { required_cost, price: 0 });
    }
    Ok(
        Transfer {
            receiver_id: ctx.predecessor_account_id.clone(),
            amount: ctx.attached_deposit - required_cost,
        },
    )
}

/// While a request of an account for a series stands, granted or not, another
/// one is refused as a duplicate, and the refusal gives a request of that
/// account for that series.
pub proof fn law_standing_request_bars_another(
    store: Contract,
    ctx: Context,
    id: u64,
    account: Seq<char>,
)
    requires
        has_request(store.affiliate_requests@, account, id, false),
    ensures
        store.request_refusal(&ctx, id, account) matches Some(
            ContractError::DuplicateRequest(earlier),
        ) && concerns(earlier, account, id, false),
{
    let i = choose|i: int|
        0 <= i < store.affiliate_requests@.len() && concerns(
            #[trigger] store.affiliate_requests@[i],
            account,
            id,
            false,
        );
    lemma_first_request(store.affiliate_requests@, account, id, false, i);
}

/// Where no request of the account for the series stands, the series exists
/// and takes affiliates, and the deposit exceeds `ONE_YOCTO`, a request
/// passes; the entry it adds is not granted, and from then on the account's
/// requests for the series are refused as duplicates.
pub proof fn law_first_request_passes(
    before: Contract,
    after: Contract,
    ctx: Context,
    later: Context,
    id: u64,
    account_id: String,
)
    requires
        !has_request(before.affiliate_requests@, account_id@, id, false),
        before.series_by_id@.contains_key(id),
        before.series_by_id@[id].affiliate is Some,
        ctx.attached_deposit > ONE_YOCTO,
        after.affiliate_requests@ == with_request(before.affiliate_requests@, account_id, id),
    ensures
        before.request_refusal(&ctx, id, account_id@) is None,
        after.affiliate_requests@.len() == before.affiliate_requests@.len() + 1,
        !after.affiliate_requests@.last().approved,
        concerns(after.affiliate_requests@.last(), account_id@, id, true),
        after.request_refusal(&later, id, account_id@) is Some,
        after.request_refusal(&later, id, account_id@)->0 is DuplicateRequest,
{
    let last = after.affiliate_requests@.len() - 1;
    assert(concerns(after.affiliate_requests@[last], account_id@, id, false));
    law_standing_request_bars_another(after, later, id, account_id@);
}

/// Granting a request flips that one request from open to granted and leaves
/// every other request, and the number of requests, as they were. The account
/// then still has a request for the series, so that a new one is refused.
pub proof fn law_approval_changes_one_request(
    requests: Seq<AffiliatesRequests>,
    account: Seq<char>,
    id: u64,
)
    requires
        has_request(requests, account, id, true),
    ensures
        ({
            let at = first_request(requests, account, id, true);
            let after = with_approval(requests, at);
            &&& 0 <= at < requests.len()
            &&& after.len() == requests.len()
            &&& !requests[at].approved
            &&& after[at].approved
            &&& after[at].account_id == requests[at].account_id
            &&& after[at].series_id == requests[at].series_id
            &&& forall|j: int| 0 <= j < requests.len() && j != at ==> after[j] == requests[j]
            &&& has_request(after, account, id, false)
        }),
{
    let i = choose|i: int|
        0 <= i < requests.len() && concerns(#[trigger] requests[i], account, id, true);
    lemma_first_request(requests, account, id, true, i);
    let at = first_request(requests, account, id, true);
    let after = with_approval(requests, at);
    assert(concerns(after[at], account, id, false));
}

/// Requests of which no account has two for the same series stay so when a
/// request passes and when a request is granted.
pub proof fn law_one_request_each_is_kept(
    requests: Seq<AffiliatesRequests>,
    account_id: String,
    id: u64,
    at: int,
)
    requires
        one_request_each(requests),
    ensures
        !has_request(requests, account_id@, id, false) ==> one_request_each(
            with_request(requests, account_id, id),
        ),
        0 <= at < requests.len() ==> one_request_each(with_approval(requests, at)),
{
    if !has_request(requests, account_id@, id, false) {
        let after = with_request(requests, account_id, id);
        assert forall|i: int, j: int| 0 <= i < j < after.len() implies !concerns(
            #[trigger] after[j],
            (#[trigger] after[i]).account_id@,
            after[i].series_id,
            false,
        ) by {
            if j < requests.len() {
                assert(!concerns(requests[j], requests[i].account_id@, requests[i].series_id, false));
            } else {
                assert(!concerns(requests[i], account_id@, id, false));
            }
        }
    }
    if 0 <= at < requests.len() {
        let after = with_approval(requests, at);
        assert forall|i: int, j: int| 0 <= i < j < after.len() implies !concerns(
            #[trigger] after[j],
            (#[trigger] after[i]).account_id@,
            after[i].series_id,
            false,
        ) by {
            assert(!concerns(requests[j], requests[i].account_id@, requests[i].series_id, false));
        }
    }
}

/// Without an open request of the account for the series no grant passes.
pub proof fn law_approval_needs_open_request(
    store: Contract,
    ctx: Context,
    id: u64,
    account: Seq<char>,
)
    requires
        !has_request(store.affiliate_requests@, account, id, true),
    ensures
        store.approval_refusal(&ctx, id, account) is Some,
        store.from_owner(&ctx) ==> store.approval_refusal(&ctx, id, account) == Some(
            ContractError::RequestNotFound,
        ),
{
}

} // verus!
