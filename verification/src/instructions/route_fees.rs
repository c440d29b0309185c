//! `route_fees`: split the quote tokens held by the position authority
//! between the investor vault and the creator.
use vstd::prelude::*;

use crate::address::Address;
use crate::constants::MAX_INVESTOR_FEE_SHARE_BPS;
use crate::error::FeeRoutingError;
use crate::events::FeesRouted;
use crate::state::VaultConfig;

verus! {

/// The investor and creator shares of a fee balance.
#[derive(Debug, Clone, Copy, PartialEq, Eq, Structural)]
pub struct FeeSplit {
    pub investor_share: u64,
    pub creator_share: u64,
}

/// What splitting `balance` at `bps` basis points yields: the investor
/// share is `balance * bps / 10000` rounded down, computed with checked
/// arithmetic, and the creator receives the rest.
pub open spec fn fee_split_outcome(balance: u64, bps: u16) -> Result<FeeSplit, FeeRoutingError> {
    if balance == 0 {
        Err(FeeRoutingError::AmountIsZero)
    } else if balance * bps > u64::MAX {
        Err(FeeRoutingError::MathOverflow)
    } else if (balance * bps) / (MAX_INVESTOR_FEE_SHARE_BPS as int) > balance {
        Err(FeeRoutingError::MathOverflow)
    } else {
        let investor = ((balance * bps) / (MAX_INVESTOR_FEE_SHARE_BPS as int)) as u64;
        Ok(FeeSplit { investor_share: investor, creator_share: (balance - investor) as u64 })
    }
}

/// Splits `balance` between investor and creator at `bps` basis points.
pub fn split_fees(balance: u64, bps: u16) -> (r: Result<FeeSplit, FeeRoutingError>)
    ensures
        r == fee_split_outcome(balance, bps),
{
    if balance == 0 {
        return Err(FeeRoutingError::AmountIsZero);
    }
    let product = match balance.checked_mul(bps as u64) {
        Some(p) => p,
        None => return Err(FeeRoutingError::MathOverflow),
    };
    let investor_share = match product.checked_div(MAX_INVESTOR_FEE_SHARE_BPS as u64) {
        Some(q) => q,
        None => return Err(FeeRoutingError::MathOverflow),
    };
    let creator_share = match balance.checked_sub(investor_share) {
        Some(c) => c,
        None => return Err(FeeRoutingError::MathOverflow),
    };
    Ok(FeeSplit { investor_share, creator_share })
}

/// The addresses of the accounts of `route_fees`.
#[derive(Debug, Clone, Copy, PartialEq, Eq)]
pub struct RouteFees {
    pub payer: Address,
    pub vault: Address,
    pub vault_config: Address,
    pub position_authority: Address,
    pub quote_token_account: Address,
    pub creator_quote_ata: Address,
    pub vault_quote_ata: Address,
    pub token_program: Address,
}

/// A token transfer signed by the position authority.
#[derive(Debug, Clone, Copy, PartialEq, Eq)]
pub struct TokenTransfer {
    pub from: Address,
    pub to: Address,
    pub authority: Address,
    pub amount: u64,
}

/// The transfers of a routing, in order.
#[derive(Debug, PartialEq, Eq)]
pub struct RoutePlan {
    pub split: FeeSplit,
    pub transfers: Vec<TokenTransfer>,
}

/// A transfer of `amount` from the position authority's quote account to `to`.
pub open spec fn payout(a: RouteFees, to: Address, amount: u64) -> TokenTransfer {
    TokenTransfer { from: a.quote_token_account, to, authority: a.position_authority, amount }
}

/// The transfers that carry out `split`: first the investor share to the
/// vault's quote account, then the creator share to the creator's quote
/// account, each only where it is not zero.
pub open spec fn route_transfers(a: RouteFees, split: FeeSplit) -> Seq<TokenTransfer> {
    let to_vault = if split.investor_share > 0 {
        seq![payout(a, a.vault_quote_ata, split.investor_share)]
    } else {
        Seq::<TokenTransfer>::empty()
    };
    let to_creator = if split.creator_share > 0 {
        seq![payout(a, a.creator_quote_ata, split.creator_share)]
    } else {
        Seq::<TokenTransfer>::empty()
    };
    to_vault + to_creator
}

/// The sum of the amounts of `transfers`.
pub open spec fn transfer_total(transfers: Seq<TokenTransfer>) -> int
    decreases transfers.len(),
{
    if transfers.len() == 0 {
        0
    } else {
        transfer_total(transfers.drop_last()) + transfers.last().amount
    }
}

/// The decisions of `route_fees`: split the `balance` of the position
/// authority's quote account at the configured investor share, and list
/// the transfers that pay it out.
pub fn route_handler(accounts: &RouteFees, config: &VaultConfig, balance: u64) -> (r: Result<
    RoutePlan,
    FeeRoutingError,
>)
    ensures
        match r {
            Ok(plan) => {
                &&& fee_split_outcome(balance, config.investor_fee_share_bps) == Ok::<
                    FeeSplit,
                    FeeRoutingError,
                >(plan.split)
                &&& plan.transfers@ == route_transfers(*accounts, plan.split)
                &&& transfer_total(plan.transfers@) == balance
                &&& forall|i: int|
                    0 <= i < plan.transfers@.len() ==> #[trigger] plan.transfers@[i].amount > 0
            },
            Err(e) => fee_split_outcome(balance, config.investor_fee_share_bps) == Err::<
                FeeSplit,
                FeeRoutingError,
            >(e),
        },
{
    let split = match split_fees(balance, config.investor_fee_share_bps) {
        Ok(s) => s,
        Err(e) => return Err(e),
    };
    let mut transfers: Vec<TokenTransfer> = Vec::new();
    if split.investor_share > 0 {
        transfers.push(
            TokenTransfer {
                from: accounts.quote_token_account,
                to: accounts.vault_quote_ata,
                authority: accounts.position_authority,
                amount: split.investor_share,
            },
        );
    }
    if split.creator_share > 0 {
        transfers.push(
            TokenTransfer {
                from: accounts.quote_token_account,
                to: accounts.creator_quote_ata,
                authority: accounts.position_authority,
                amount: split.creator_share,
            },
        );
    }
    assert(transfers@ =~= route_transfers(*accounts, split));
    proof {
        reveal_with_fuel(transfer_total, 3);
        if transfers@.len() == 2 {
            assert(transfers@.drop_last() =~= seq![transfers@[0]]);
            assert(seq![transfers@[0]].drop_last() =~= Seq::<TokenTransfer>::empty());
        } else if transfers@.len() == 1 {
            assert(transfers@.drop_last() =~= Seq::<TokenTransfer>::empty());
        }
    }
    Ok(RoutePlan { split, transfers })
}

/// The event of a successful routing of `balance`.
pub open spec fn routing_event(a: RouteFees, balance: u64, split: FeeSplit, timestamp: i64) -> FeesRouted {
    FeesRouted {
        vault: a.vault,
        total_amount: balance,
        investor_share: split.investor_share,
        creator_share: split.creator_share,
        timestamp,
    }
}

/// Builds the `FeesRouted` event at clock time `timestamp`.
pub fn fees_routed(accounts: &RouteFees, balance: u64, split: &FeeSplit, timestamp: i64) -> (ev:
    FeesRouted)
    ensures
        ev == routing_event(*accounts, balance, *split, timestamp),
{
    FeesRouted {
        vault: accounts.vault,
        total_amount: balance,
        investor_share: split.investor_share,
        creator_share: split.creator_share,
        timestamp,
    }
}

} // verus!
