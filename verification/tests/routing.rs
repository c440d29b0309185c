use damm_v2_fee_routing::{
    fees_routed, route_handler, split_fees, FeeRoutingError, FeeSplit, RouteFees, TokenTransfer,
    VaultConfig, MAX_INVESTOR_FEE_SHARE_BPS,
};

fn key(b: u8) -> [u8; 32] {
    [b; 32]
}

fn accounts() -> RouteFees {
    RouteFees {
        payer: key(1),
        vault: key(2),
        vault_config: key(3),
        position_authority: key(4),
        quote_token_account: key(5),
        creator_quote_ata: key(6),
        vault_quote_ata: key(7),
        token_program: key(8),
    }
}

fn config(bps: u16) -> VaultConfig {
    VaultConfig {
        vault: key(2),
        pool: key(10),
        quote_mint: key(11),
        base_mint: key(12),
        honorary_position: key(13),
        position_nft_mint: key(14),
        position_authority_bump: 254,
        y0_total_allocation: 1_000_000,
        investor_fee_share_bps: bps,
        creator_quote_ata: key(6),
        bump: 253,
        initialized_at: 1_700_000_000,
    }
}

#[test]
fn split_quarter_share() {
    assert_eq!(split_fees(100, 2500), Ok(FeeSplit { investor_share: 25, creator_share: 75 }));
}

#[test]
fn split_rounds_down_for_investor() {
    // 999 * 3333 / 10000 = 332.9667 -> 332; the creator gets the remainder.
    assert_eq!(split_fees(999, 3333), Ok(FeeSplit { investor_share: 332, creator_share: 667 }));
    assert_eq!(split_fees(1, 9999), Ok(FeeSplit { investor_share: 0, creator_share: 1 }));
}

#[test]
fn split_zero_balance_is_refused() {
    assert_eq!(split_fees(0, 5000), Err(FeeRoutingError::AmountIsZero));
}

#[test]
fn split_overflowing_product_is_refused() {
    assert_eq!(split_fees(u64::MAX, 2), Err(FeeRoutingError::MathOverflow));
    let limit = u64::MAX / 10000;
    assert!(split_fees(limit, 10000).is_ok());
    assert_eq!(split_fees(limit + 1, 10000), Err(FeeRoutingError::MathOverflow));
}

#[test]
fn split_share_above_maximum_overflows_subtraction() {
    // A fee share above 100% would give the investor more than the balance.
    assert_eq!(split_fees(10_000, 10_001), Err(FeeRoutingError::MathOverflow));
    // ... unless rounding keeps it within the balance.
    assert_eq!(split_fees(1, 10_001), Ok(FeeSplit { investor_share: 1, creator_share: 0 }));
}

#[test]
fn split_extreme_shares() {
    assert_eq!(split_fees(12345, 0), Ok(FeeSplit { investor_share: 0, creator_share: 12345 }));
    assert_eq!(
        split_fees(12345, MAX_INVESTOR_FEE_SHARE_BPS),
        Ok(FeeSplit { investor_share: 12345, creator_share: 0 })
    );
}

#[test]
fn split_is_monotonic_in_share() {
    let balance = 987_654_321u64;
    let mut last = 0u64;
    for bps in (0..=10000u16).step_by(37) {
        let s = split_fees(balance, bps).unwrap();
        assert!(s.investor_share >= last);
        assert_eq!(s.investor_share + s.creator_share, balance);
        last = s.investor_share;
    }
}

#[test]
fn route_pays_both_parties() {
    let a = accounts();
    let plan = route_handler(&a, &config(2000), 1_000).unwrap();
    assert_eq!(plan.split, FeeSplit { investor_share: 200, creator_share: 800 });
    assert_eq!(
        plan.transfers,
        vec![
            TokenTransfer { from: key(5), to: key(7), authority: key(4), amount: 200 },
            TokenTransfer { from: key(5), to: key(6), authority: key(4), amount: 800 },
        ]
    );
}

#[test]
fn route_skips_zero_transfers() {
    let a = accounts();
    let plan = route_handler(&a, &config(0), 500).unwrap();
    assert_eq!(
        plan.transfers,
        vec![TokenTransfer { from: key(5), to: key(6), authority: key(4), amount: 500 }]
    );
    let plan = route_handler(&a, &config(10000), 500).unwrap();
    assert_eq!(
        plan.transfers,
        vec![TokenTransfer { from: key(5), to: key(7), authority: key(4), amount: 500 }]
    );
    // The investor share of a single token at 10% rounds to nothing.
    let plan = route_handler(&a, &config(1000), 1).unwrap();
    assert_eq!(plan.transfers.len(), 1);
    assert_eq!(plan.transfers[0].to, key(6));
}

#[test]
fn route_transfers_the_whole_balance() {
    let a = accounts();
    for (bps, balance) in [(1u16, 7u64), (5000, 1_000_001), (9999, 123_456_789), (3, 10)] {
        let plan = route_handler(&a, &config(bps), balance).unwrap();
        let total: u64 = plan.transfers.iter().map(|t| t.amount).sum();
        assert_eq!(total, balance);
        assert!(plan.transfers.iter().all(|t| t.amount > 0));
    }
}

#[test]
fn route_errors() {
    let a = accounts();
    assert_eq!(route_handler(&a, &config(5000), 0), Err(FeeRoutingError::AmountIsZero));
    assert_eq!(route_handler(&a, &config(5000), u64::MAX), Err(FeeRoutingError::MathOverflow));
}

#[test]
fn routed_event_records_the_split() {
    let a = accounts();
    let split = FeeSplit { investor_share: 30, creator_share: 70 };
    let ev = fees_routed(&a, 100, &split, 42);
    assert_eq!(ev.vault, key(2));
    assert_eq!(ev.total_amount, 100);
    assert_eq!(ev.investor_share, 30);
    assert_eq!(ev.creator_share, 70);
    assert_eq!(ev.timestamp, 42);
}

#[test]
fn split_is_monotonic_in_balance() {
    for bps in [0u16, 1, 3333, 5000, 9999, 10000] {
        let mut last = split_fees(1, bps).unwrap();
        for balance in 2..3000u64 {
            let s = split_fees(balance, bps).unwrap();
            assert!(s.investor_share >= last.investor_share);
            assert!(s.creator_share >= last.creator_share);
            last = s;
        }
    }
}

#[test]
fn fees_cannot_be_routed_twice() {
    let a = accounts();
    let balance = 777_777u64;
    let plan = route_handler(&a, &config(4321), balance).unwrap();
    let drained: u64 = plan
        .transfers
        .iter()
        .filter(|t| t.from == a.quote_token_account)
        .map(|t| t.amount)
        .sum();
    let left = balance - drained;
    assert_eq!(left, 0);
    assert_eq!(route_handler(&a, &config(4321), left), Err(FeeRoutingError::AmountIsZero));
}
