//! Properties of the fee router that span its functions and their inputs.
use vstd::arithmetic::div_mod::{
    lemma_div_is_ordered, lemma_fundamental_div_mod, lemma_hoist_over_denominator,
};
use vstd::arithmetic::mul::{
    lemma_mul_inequality, lemma_mul_is_commutative, lemma_mul_is_distributive_sub,
};
use vstd::prelude::*;

use crate::address::address_lt;
use crate::constants::MAX_INVESTOR_FEE_SHARE_BPS;
use crate::instructions::initialize_honorary_position::{
    has_pool_discriminator, initial_vault_config, initialization_outcome, is_quote_only_compatible,
    pool_state_of,
    InitializeHonoraryPosition, InitializeHonoraryPositionParams,
};
use crate::address::Address;
use crate::instructions::route_fees::{
    fee_split_outcome, route_transfers, transfer_total, FeeSplit, RouteFees, TokenTransfer,
};
use crate::error::FeeRoutingError;
use crate::constants::POOL_DISCRIMINATOR;
use crate::instructions::claim_fee::{claim_outcome, ClaimFee};
use crate::instructions::close_position::{close_outcome, ClosePosition};
use crate::instructions::initialize_honorary_position::PoolStateView;

verus! {

/// Routing never creates or loses tokens: the investor and creator shares
/// add up to the routed balance.
pub proof fn lemma_split_conserves_balance(balance: u64, bps: u16)
    requires
        fee_split_outcome(balance, bps) is Ok,
    ensures
        fee_split_outcome(balance, bps)->Ok_0.investor_share
            + fee_split_outcome(balance, bps)->Ok_0.creator_share == balance,
{
}

/// The investor share is the exact proportional share rounded down: the
/// rounding remainder always goes to the creator.
pub proof fn lemma_investor_share_rounds_down(balance: u64, bps: u16)
    requires
        fee_split_outcome(balance, bps) is Ok,
    ensures
        fee_split_outcome(balance, bps)->Ok_0.investor_share * 10000 <= balance * bps,
        balance * bps < (fee_split_outcome(balance, bps)->Ok_0.investor_share + 1) * 10000,
{
    lemma_fundamental_div_mod(balance * bps, 10000);
}

/// With a fee share of at most 100%, routing succeeds exactly when the
/// balance is not zero and `balance * bps` fits in a `u64`; the investor
/// share then never exceeds the balance.
pub proof fn lemma_split_succeeds_within_max_share(balance: u64, bps: u16)
    requires
        bps <= MAX_INVESTOR_FEE_SHARE_BPS,
    ensures
        fee_split_outcome(balance, bps) is Ok <==> (balance > 0 && balance * bps <= u64::MAX),
        balance == 0 ==> fee_split_outcome(balance, bps)
            == Err::<crate::instructions::route_fees::FeeSplit, crate::error::FeeRoutingError>(
            crate::error::FeeRoutingError::AmountIsZero,
        ),
        balance > 0 && balance * bps > u64::MAX ==> fee_split_outcome(balance, bps)
            == Err::<crate::instructions::route_fees::FeeSplit, crate::error::FeeRoutingError>(
            crate::error::FeeRoutingError::MathOverflow,
        ),
{
    assert(balance * bps <= balance * 10000) by {
        lemma_mul_inequality(bps as int, 10000, balance as int);
        lemma_mul_is_commutative(bps as int, balance as int);
        lemma_mul_is_commutative(10000, balance as int);
    }
    assert((balance * 10000) / 10000 == balance) by (nonlinear_arith);
    lemma_div_is_ordered(balance * bps, balance * 10000, 10000);
}

/// A larger investor fee share never gives the investor less, nor the
/// creator more, of the same balance.
pub proof fn lemma_investor_share_monotonic(balance: u64, bps1: u16, bps2: u16)
    requires
        bps1 <= bps2,
        fee_split_outcome(balance, bps1) is Ok,
        fee_split_outcome(balance, bps2) is Ok,
    ensures
        fee_split_outcome(balance, bps1)->Ok_0.investor_share
            <= fee_split_outcome(balance, bps2)->Ok_0.investor_share,
        fee_split_outcome(balance, bps1)->Ok_0.creator_share
            >= fee_split_outcome(balance, bps2)->Ok_0.creator_share,
{
    assert(balance * bps1 <= balance * bps2) by {
        lemma_mul_inequality(bps1 as int, bps2 as int, balance as int);
        lemma_mul_is_commutative(bps1 as int, balance as int);
        lemma_mul_is_commutative(bps2 as int, balance as int);
    }
    lemma_div_is_ordered(balance * bps1, balance * bps2, 10000);
}

/// A zero share sends every token to the creator; a 100% share sends every
/// token to the vault, whenever `balance * 10000` fits in a `u64`.
pub proof fn lemma_extreme_shares(balance: u64)
    requires
        balance > 0,
    ensures
        fee_split_outcome(balance, 0) is Ok,
        fee_split_outcome(balance, 0)->Ok_0.investor_share == 0,
        fee_split_outcome(balance, 0)->Ok_0.creator_share == balance,
        balance * 10000 <= u64::MAX ==> {
            &&& fee_split_outcome(balance, 10000) is Ok
            &&& fee_split_outcome(balance, 10000)->Ok_0.investor_share == balance
            &&& fee_split_outcome(balance, 10000)->Ok_0.creator_share == 0
        },
{
    assert(balance * 0 == 0);
    assert((balance * 10000) / 10000 == balance) by (nonlinear_arith);
}

/// An initialization is accepted only for a quote-only-compatible cp-amm
/// pool whose mints are the given base and quote mints, the base mint before
/// the quote mint, with a fee share of at most 100%, a non-zero total
/// allocation and the cp-amm event authority; the configuration it records
/// is then valid.
pub proof fn lemma_accepted_initialization(
    accounts: InitializeHonoraryPosition,
    params: InitializeHonoraryPositionParams,
    pool_data: Seq<u8>,
    expected_event_authority: Option<Seq<u8>>,
    position_authority_bump: u8,
    vault_config_bump: u8,
    timestamp: i64,
)
    requires
        initialization_outcome(accounts, params, pool_data, expected_event_authority) is Ok,
    ensures
        params.investor_fee_share_bps <= MAX_INVESTOR_FEE_SHARE_BPS,
        is_quote_only_compatible(pool_state_of(pool_data).collect_fee_mode),
        address_lt(accounts.base_mint@, accounts.quote_mint@),
        has_pool_discriminator(pool_data),
        params.y0_total_allocation > 0,
        pool_state_of(pool_data).token_a_mint == accounts.base_mint@,
        pool_state_of(pool_data).token_b_mint == accounts.quote_mint@,
        expected_event_authority == Some(accounts.event_authority@),
        initial_vault_config(
            accounts,
            params,
            position_authority_bump,
            vault_config_bump,
            timestamp,
        ).is_valid(),
{
}

/// Fees of a vault whose configuration an accepted initialization recorded
/// are always routed, conserving the balance, unless the balance is zero or
/// `balance * bps` overflows a `u64`.
pub proof fn lemma_initialized_vault_routes(
    accounts: InitializeHonoraryPosition,
    params: InitializeHonoraryPositionParams,
    pool_data: Seq<u8>,
    expected_event_authority: Option<Seq<u8>>,
    position_authority_bump: u8,
    vault_config_bump: u8,
    timestamp: i64,
    balance: u64,
)
    requires
        initialization_outcome(accounts, params, pool_data, expected_event_authority) is Ok,
    ensures
        ({
            let config = initial_vault_config(
                accounts,
                params,
                position_authority_bump,
                vault_config_bump,
                timestamp,
            );
            &&& fee_split_outcome(balance, config.investor_fee_share_bps) is Ok <==> (balance > 0
                && balance * config.investor_fee_share_bps <= u64::MAX)
            &&& fee_split_outcome(balance, config.investor_fee_share_bps) is Ok ==> fee_split_outcome(
                balance,
                config.investor_fee_share_bps,
            )->Ok_0.investor_share + fee_split_outcome(
                balance,
                config.investor_fee_share_bps,
            )->Ok_0.creator_share == balance
        }),
{
    lemma_split_succeeds_within_max_share(balance, params.investor_fee_share_bps);
}

/// A larger balance at the same fee share never gives the investor less;
/// with a share of at most 100% it never gives the creator less either.
pub proof fn lemma_split_monotonic_in_balance(balance1: u64, balance2: u64, bps: u16)
    requires
        balance1 <= balance2,
        fee_split_outcome(balance1, bps) is Ok,
        fee_split_outcome(balance2, bps) is Ok,
    ensures
        fee_split_outcome(balance1, bps)->Ok_0.investor_share
            <= fee_split_outcome(balance2, bps)->Ok_0.investor_share,
        bps <= MAX_INVESTOR_FEE_SHARE_BPS ==> fee_split_outcome(balance1, bps)->Ok_0.creator_share
            <= fee_split_outcome(balance2, bps)->Ok_0.creator_share,
{
    let d: int = balance2 - balance1;
    assert(balance1 * bps <= balance2 * bps) by {
        lemma_mul_inequality(balance1 as int, balance2 as int, bps as int);
    }
    lemma_div_is_ordered(balance1 * bps, balance2 * bps, 10000);
    if bps <= MAX_INVESTOR_FEE_SHARE_BPS {
        // balance2 * bps = balance1 * bps + d * bps <= balance1 * bps + d * 10000
        assert(balance2 * bps == balance1 * bps + d * bps) by {
            lemma_mul_is_distributive_sub(bps as int, balance2 as int, balance1 as int);
            lemma_mul_is_commutative(bps as int, balance2 as int);
            lemma_mul_is_commutative(bps as int, balance1 as int);
            lemma_mul_is_commutative(bps as int, d);
        }
        assert(d * bps <= d * 10000) by {
            lemma_mul_inequality(bps as int, 10000, d);
            lemma_mul_is_commutative(bps as int, d);
            lemma_mul_is_commutative(10000, d);
        }
        lemma_div_is_ordered(balance2 * bps, balance1 * bps + d * 10000, 10000);
        assert((balance1 * bps + d * 10000) / 10000 == (balance1 * bps) / 10000 + d) by {
            lemma_hoist_over_denominator(balance1 * bps, d, 10000);
        }
    }
}

/// The transfers of a split move exactly the split balance.
pub proof fn lemma_route_transfers_total(a: RouteFees, split: FeeSplit)
    ensures
        transfer_total(route_transfers(a, split)) == split.investor_share + split.creator_share,
{
    let t = route_transfers(a, split);
    reveal_with_fuel(transfer_total, 3);
    if t.len() == 2 {
        assert(t.drop_last() =~= seq![t[0]]);
        assert(seq![t[0]].drop_last() =~= Seq::<TokenTransfer>::empty());
    } else if t.len() == 1 {
        assert(t.drop_last() =~= Seq::<TokenTransfer>::empty());
    }
}

/// What `transfers` take out of `account`, net of what they pay into it.
pub open spec fn net_outflow(account: Address, transfers: Seq<TokenTransfer>) -> int
    decreases transfers.len(),
{
    if transfers.len() == 0 {
        0
    } else {
        let t = transfers.last();
        net_outflow(account, transfers.drop_last()) + (if t.from == account {
            t.amount as int
        } else {
            0
        }) - (if t.to == account {
            t.amount as int
        } else {
            0
        })
    }
}

/// The same fees cannot be routed twice: the transfers of a routing drain
/// the position authority's quote account (when it is neither receiving
/// account), so routing what is left is refused with `AmountIsZero`.
pub proof fn lemma_fees_cannot_be_routed_twice(a: RouteFees, balance: u64, bps: u16)
    requires
        fee_split_outcome(balance, bps) is Ok,
        a.quote_token_account != a.vault_quote_ata,
        a.quote_token_account != a.creator_quote_ata,
    ensures
        ({
            let left = balance - net_outflow(
                a.quote_token_account,
                route_transfers(a, fee_split_outcome(balance, bps)->Ok_0),
            );
            &&& left == 0
            &&& fee_split_outcome(left as u64, bps) == Err::<FeeSplit, FeeRoutingError>(
                FeeRoutingError::AmountIsZero,
            )
        }),
{
    let split = fee_split_outcome(balance, bps)->Ok_0;
    let t = route_transfers(a, split);
    reveal_with_fuel(net_outflow, 3);
    if t.len() == 2 {
        assert(t.drop_last() =~= seq![t[0]]);
        assert(seq![t[0]].drop_last() =~= Seq::<TokenTransfer>::empty());
    } else if t.len() == 1 {
        assert(t.drop_last() =~= Seq::<TokenTransfer>::empty());
    }
}

/// What `transfers` pay into `account`.
pub open spec fn paid_to(account: Address, transfers: Seq<TokenTransfer>) -> int
    decreases transfers.len(),
{
    if transfers.len() == 0 {
        0
    } else {
        paid_to(account, transfers.drop_last()) + (if transfers.last().to == account {
            transfers.last().amount as int
        } else {
            0
        })
    }
}

/// Routing pays the investor share into the vault's quote account and the
/// creator share into the creator's quote account (when the two differ),
/// every transfer leaving the position authority's quote account under the
/// position authority's signature.
pub proof fn lemma_route_pays_each_party(a: RouteFees, split: FeeSplit)
    requires
        a.vault_quote_ata != a.creator_quote_ata,
    ensures
        paid_to(a.vault_quote_ata, route_transfers(a, split)) == split.investor_share,
        paid_to(a.creator_quote_ata, route_transfers(a, split)) == split.creator_share,
        forall|i: int|
            0 <= i < route_transfers(a, split).len() ==> {
                &&& (#[trigger] route_transfers(a, split)[i]).from == a.quote_token_account
                &&& route_transfers(a, split)[i].authority == a.position_authority
                &&& route_transfers(a, split)[i].amount > 0
            },
{
    let t = route_transfers(a, split);
    reveal_with_fuel(paid_to, 3);
    if t.len() == 2 {
        assert(t.drop_last() =~= seq![t[0]]);
        assert(seq![t[0]].drop_last() =~= Seq::<TokenTransfer>::empty());
    } else if t.len() == 1 {
        assert(t.drop_last() =~= Seq::<TokenTransfer>::empty());
    }
}

/// Initialization succeeds exactly when every check holds: fee share at
/// most 10000 bps, a pool account of at least 485 bytes that starts with
/// cp-amm's `Pool` discriminator, collects fees in mode 0 or 1 and holds the
/// base and quote mints, the base mint before the quote mint, cp-amm's event
/// authority, and a non-zero total allocation; it then yields the pool read
/// from the account.
pub proof fn lemma_initialization_complete(
    accounts: InitializeHonoraryPosition,
    params: InitializeHonoraryPositionParams,
    pool_data: Seq<u8>,
    expected_event_authority: Option<Seq<u8>>,
)
    ensures
        ({
            let ok = {
                &&& params.investor_fee_share_bps <= 10000
                &&& pool_data.len() >= 485
                &&& pool_data.subrange(0, 8) == seq![241u8, 154, 109, 4, 17, 177, 109, 188]
                &&& (pool_data[484] == 0 || pool_data[484] == 1)
                &&& pool_data.subrange(168, 200) == accounts.base_mint@
                &&& pool_data.subrange(200, 232) == accounts.quote_mint@
                &&& address_lt(accounts.base_mint@, accounts.quote_mint@)
                &&& expected_event_authority == Some(accounts.event_authority@)
                &&& params.y0_total_allocation > 0
            };
            &&& (initialization_outcome(accounts, params, pool_data, expected_event_authority) is Ok
                <==> ok)
            &&& ok ==> initialization_outcome(accounts, params, pool_data, expected_event_authority)
                == Ok::<PoolStateView, FeeRoutingError>(pool_state_of(pool_data))
        }),
{
    assert(POOL_DISCRIMINATOR@ =~= seq![241u8, 154, 109, 4, 17, 177, 109, 188]);
}

/// Each refusal of initialization names a check that failed.
pub proof fn lemma_initialization_refusals(
    accounts: InitializeHonoraryPosition,
    params: InitializeHonoraryPositionParams,
    pool_data: Seq<u8>,
    expected_event_authority: Option<Seq<u8>>,
)
    ensures
        ({
            let r = initialization_outcome(accounts, params, pool_data, expected_event_authority);
            &&& r == Err::<PoolStateView, FeeRoutingError>(FeeRoutingError::InvalidInvestorFeeShare)
                <==> params.investor_fee_share_bps > 10000
            &&& r == Err::<PoolStateView, FeeRoutingError>(FeeRoutingError::InvalidPoolAccount)
                ==> pool_data.len() < 485
            &&& r == Err::<PoolStateView, FeeRoutingError>(FeeRoutingError::PoolNotQuoteOnlyCompatible)
                ==> pool_data[484] != 0 && pool_data[484] != 1
            &&& r == Err::<PoolStateView, FeeRoutingError>(FeeRoutingError::BaseMintMismatch)
                ==> pool_data.subrange(168, 200) != accounts.base_mint@
            &&& r == Err::<PoolStateView, FeeRoutingError>(FeeRoutingError::QuoteMintMismatch)
                ==> pool_data.subrange(200, 232) != accounts.quote_mint@
            &&& r == Err::<PoolStateView, FeeRoutingError>(FeeRoutingError::InvalidProgramId)
                ==> expected_event_authority != Some(accounts.event_authority@)
            &&& r == Err::<PoolStateView, FeeRoutingError>(FeeRoutingError::InvalidPoolDiscriminator)
                ==> pool_data.subrange(0, 8) != seq![241u8, 154, 109, 4, 17, 177, 109, 188]
            &&& r == Err::<PoolStateView, FeeRoutingError>(FeeRoutingError::InvalidTokenOrder)
                ==> !address_lt(accounts.base_mint@, accounts.quote_mint@)
            &&& r == Err::<PoolStateView, FeeRoutingError>(FeeRoutingError::InvalidTotalAllocation)
                ==> params.y0_total_allocation == 0
        }),
{
    assert(POOL_DISCRIMINATOR@ =~= seq![241u8, 154, 109, 4, 17, 177, 109, 188]);
}

/// `claim_fee` proceeds exactly when the event authority is cp-amm's and the
/// pool account holds at least 485 bytes; `close_position` exactly when the
/// event authority is cp-amm's.
pub proof fn lemma_claim_and_close_checks(
    claim: ClaimFee,
    close: ClosePosition,
    pool_data_len: nat,
    expected_event_authority: Option<Seq<u8>>,
)
    ensures
        claim_outcome(claim, pool_data_len, expected_event_authority) is Ok <==> (
        expected_event_authority == Some(claim.event_authority@) && pool_data_len >= 485),
        expected_event_authority != Some(claim.event_authority@) ==> claim_outcome(
            claim,
            pool_data_len,
            expected_event_authority,
        ) == Err::<(), FeeRoutingError>(FeeRoutingError::InvalidProgramId),
        close_outcome(close, expected_event_authority) is Ok <==> expected_event_authority == Some(
            close.event_authority@,
        ),
        expected_event_authority != Some(close.event_authority@) ==> close_outcome(
            close,
            expected_event_authority,
        ) == Err::<(), FeeRoutingError>(FeeRoutingError::InvalidProgramId),
{
}

/// The outcome of a split, stated through the arithmetic alone: a zero
/// balance is refused; so is an overflowing `balance * bps`, and an investor
/// share above the balance; otherwise the investor receives
/// `balance * bps / 10000` rounded down and the creator the rest.
pub proof fn lemma_split_outcome_exact(balance: u64, bps: u16)
    ensures
        balance == 0 ==> fee_split_outcome(balance, bps) == Err::<FeeSplit, FeeRoutingError>(
            FeeRoutingError::AmountIsZero,
        ),
        balance > 0 && balance * bps > 18446744073709551615 ==> fee_split_outcome(balance, bps)
            == Err::<FeeSplit, FeeRoutingError>(FeeRoutingError::MathOverflow),
        balance > 0 && balance * bps <= 18446744073709551615 && balance * bps > balance * 10000
            + 9999 ==> fee_split_outcome(balance, bps) == Err::<FeeSplit, FeeRoutingError>(
            FeeRoutingError::MathOverflow,
        ),
        balance > 0 && balance * bps <= 18446744073709551615 && balance * bps <= balance * 10000
            + 9999 ==> {
            &&& fee_split_outcome(balance, bps) is Ok
            &&& fee_split_outcome(balance, bps)->Ok_0.investor_share * 10000 <= balance * bps
            &&& balance * bps < (fee_split_outcome(balance, bps)->Ok_0.investor_share + 1) * 10000
            &&& fee_split_outcome(balance, bps)->Ok_0.investor_share
                + fee_split_outcome(balance, bps)->Ok_0.creator_share == balance
        },
{
    lemma_fundamental_div_mod(balance * bps, 10000);
    if balance > 0 && balance * bps <= 18446744073709551615 {
        if balance * bps > balance * 10000 + 9999 {
            assert((balance * bps) / 10000 > balance) by (nonlinear_arith)
                requires
                    balance * bps > balance * 10000 + 9999,
                    balance * bps == 10000 * ((balance * bps) / 10000) + (balance * bps) % 10000,
                    0 <= (balance * bps) % 10000 < 10000,
            ;
        } else {
            assert((balance * bps) / 10000 <= balance) by (nonlinear_arith)
                requires
                    balance * bps <= balance * 10000 + 9999,
                    balance * bps == 10000 * ((balance * bps) / 10000) + (balance * bps) % 10000,
                    0 <= (balance * bps) % 10000 < 10000,
            ;
        }
    }
}

/// The investor's transfer, where there is one, comes first and goes to the
/// vault's quote account; the creator's, where there is one, comes last and
/// goes to the creator's quote account; a zero share makes no transfer.
pub proof fn lemma_route_transfer_order(a: RouteFees, split: FeeSplit)
    ensures
        ({
            let t = route_transfers(a, split);
            &&& t.len() == (if split.investor_share > 0 { 1int } else { 0 }) + (if split.creator_share
                > 0 {
                1int
            } else {
                0
            })
            &&& split.investor_share > 0 ==> t[0].to == a.vault_quote_ata && t[0].amount
                == split.investor_share
            &&& split.creator_share > 0 ==> t[t.len() - 1].to == a.creator_quote_ata && t[t.len()
                - 1].amount == split.creator_share
        }),
{
}

/// The checks of initialization come in this order, each refusal applying
/// when every earlier check passed: fee share, pool size, fee mode, base
/// mint, quote mint, event authority, pool discriminator, token order, total
/// allocation.
pub proof fn lemma_initialization_order(
    accounts: InitializeHonoraryPosition,
    params: InitializeHonoraryPositionParams,
    pool_data: Seq<u8>,
    expected_event_authority: Option<Seq<u8>>,
)
    ensures
        ({
            let r = initialization_outcome(accounts, params, pool_data, expected_event_authority);
            let c0 = params.investor_fee_share_bps <= 10000;
            let c1 = c0 && pool_data.len() >= 485;
            let c2 = c1 && (pool_data[484] == 0 || pool_data[484] == 1);
            let c3 = c2 && pool_data.subrange(168, 200) == accounts.base_mint@;
            let c4 = c3 && pool_data.subrange(200, 232) == accounts.quote_mint@;
            let c5 = c4 && expected_event_authority == Some(accounts.event_authority@);
            let c6 = c5 && pool_data.subrange(0, 8) == seq![241u8, 154, 109, 4, 17, 177, 109, 188];
            let c7 = c6 && address_lt(accounts.base_mint@, accounts.quote_mint@);
            let e = |k: FeeRoutingError| Err::<PoolStateView, FeeRoutingError>(k);
            &&& !c0 ==> r == e(FeeRoutingError::InvalidInvestorFeeShare)
            &&& c0 && !c1 ==> r == e(FeeRoutingError::InvalidPoolAccount)
            &&& c1 && !c2 ==> r == e(FeeRoutingError::PoolNotQuoteOnlyCompatible)
            &&& c2 && !c3 ==> r == e(FeeRoutingError::BaseMintMismatch)
            &&& c3 && !c4 ==> r == e(FeeRoutingError::QuoteMintMismatch)
            &&& c4 && !c5 ==> r == e(FeeRoutingError::InvalidProgramId)
            &&& c5 && !c6 ==> r == e(FeeRoutingError::InvalidPoolDiscriminator)
            &&& c6 && !c7 ==> r == e(FeeRoutingError::InvalidTokenOrder)
            &&& c7 && params.y0_total_allocation == 0 ==> r == e(
                FeeRoutingError::InvalidTotalAllocation,
            )
        }),
{
    assert(POOL_DISCRIMINATOR@ =~= seq![241u8, 154, 109, 4, 17, 177, 109, 188]);
}

} // verus!
