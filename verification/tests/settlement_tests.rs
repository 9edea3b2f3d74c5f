use anchor_lang::prelude::Pubkey;
use solana_cross_margin_settlement::settlement::settle_cross_margin;
use solana_cross_margin_settlement::{Position, SettleCrossMargin, UserBalance};

/// Helper function to create a test position
fn create_position(size: i64, entry_price: i64, last_funding_rate: i64) -> Position {
    Position {
        size,
        entry_price,
        last_funding_rate,
    }
}

/// Helper function to create a test balance
fn create_balance(collateral: i128) -> UserBalance {
    UserBalance { collateral }
}

/// Puts a position and a balance into a settlement context.
fn create_context(position: Position, balance: UserBalance) -> SettleCrossMargin {
    SettleCrossMargin {
        position_key: Pubkey::new_from_array([1u8; 32]),
        position,
        balance,
        authority: Pubkey::new_from_array([2u8; 32]),
    }
}

#[test]
fn test_long_position_profit() {
    // Long position (size > 0) with price increase
    let position = create_position(100, 1000, 0);
    let balance = create_balance(10000);
    let mut ctx = create_context(position, balance);

    // Oracle price increases to 1100
    let oracle_price = 1100;
    let funding_rate = 0;

    // Expected PnL: (1100 - 1000) * 100 = 10000
    // Expected funding: (0 - 0) * 100 = 0
    // Net settlement: 10000 - 0 = 10000
    // New collateral: 10000 + 10000 = 20000
    let event = settle_cross_margin(&mut ctx, oracle_price, funding_rate)
        .unwrap()
        .unwrap();

    assert_eq!(ctx.balance.collateral, 20000);
    assert_eq!(ctx.position.entry_price, 1100);
    assert_eq!(event.unrealized_pnl, 10000);
    assert_eq!(event.funding_payment, 0);
    assert_eq!(event.net_settlement, 10000);
    assert_eq!(event.new_collateral, 20000);
}

#[test]
fn test_long_position_loss() {
    // Long position with price decrease
    let position = create_position(100, 1000, 0);
    let balance = create_balance(10000);
    let mut ctx = create_context(position, balance);

    let oracle_price = 900; // Price drops
    let funding_rate = 0;

    // Expected PnL: (900 - 1000) * 100 = -10000
    // Net settlement: -10000
    // New collateral: 10000 - 10000 = 0
    let event = settle_cross_margin(&mut ctx, oracle_price, funding_rate)
        .unwrap()
        .unwrap();

    assert_eq!(ctx.balance.collateral, 0);
    assert_eq!(event.net_settlement, -10000);
}

#[test]
fn test_short_position_profit() {
    // Short position (size < 0) with price decrease
    let position = create_position(-100, 1000, 0);
    let balance = create_balance(10000);
    let mut ctx = create_context(position, balance);

    let oracle_price = 900; // Price drops (good for short)
    let funding_rate = 0;

    // Expected PnL: (900 - 1000) * (-100) = -100 * -100 = 10000
    // Net settlement: 10000
    // New collateral: 10000 + 10000 = 20000
    let event = settle_cross_margin(&mut ctx, oracle_price, funding_rate)
        .unwrap()
        .unwrap();

    assert_eq!(ctx.balance.collateral, 20000);
    assert_eq!(event.unrealized_pnl, 10000);
}

#[test]
fn test_funding_payment_long() {
    // Long position paying positive funding
    let position = create_position(100, 1000, 10);
    let balance = create_balance(10000);
    let mut ctx = create_context(position, balance);

    let oracle_price = 1000; // No price change
    let funding_rate = 20; // Funding increased

    // Expected PnL: 0
    // Expected funding: (20 - 10) * 100 = 1000
    // Net settlement: 0 - 1000 = -1000
    // New collateral: 10000 - 1000 = 9000
    let event = settle_cross_margin(&mut ctx, oracle_price, funding_rate)
        .unwrap()
        .unwrap();

    assert_eq!(ctx.balance.collateral, 9000);
    assert_eq!(ctx.position.last_funding_rate, 20);
    assert_eq!(event.unrealized_pnl, 0);
    assert_eq!(event.funding_payment, 1000);
    assert_eq!(event.net_settlement, -1000);
}

#[test]
fn test_double_settlement_prevention() {
    // Test that settling twice doesn't double-count PnL
    let position = create_position(100, 1000, 0);
    let balance = create_balance(10000);
    let mut ctx = create_context(position, balance);

    let oracle_price = 1100;
    let funding_rate = 0;

    // First settlement
    settle_cross_margin(&mut ctx, oracle_price, funding_rate).unwrap();

    assert_eq!(ctx.balance.collateral, 20000);

    // Second settlement with same oracle price
    // Should result in 0 PnL because entry_price was updated
    let second = settle_cross_margin(&mut ctx, oracle_price, funding_rate)
        .unwrap()
        .unwrap();
    let unrealized_pnl_2 = second.unrealized_pnl;

    assert_eq!(ctx.balance.collateral, 20000); // No change
    assert_eq!(unrealized_pnl_2, 0);
}

#[test]
fn test_negative_collateral_allowed() {
    // Cross-margin allows negative collateral
    let position = create_position(100, 1000, 0);
    let balance = create_balance(5000);
    let mut ctx = create_context(position, balance);

    let oracle_price = 900; // Large loss
    let funding_rate = 0;

    // Expected PnL: (900 - 1000) * 100 = -10000
    // Net settlement: -10000
    // New collateral: 5000 - 10000 = -5000
    settle_cross_margin(&mut ctx, oracle_price, funding_rate).unwrap();

    assert_eq!(ctx.balance.collateral, -5000); // Negative allowed in cross-margin
}

#[test]
fn test_zero_position_size() {
    // Settling a position with size 0 should be safe
    let position = create_position(0, 1000, 0);
    let balance = create_balance(10000);
    let mut ctx = create_context(position, balance);

    let oracle_price = 1100;
    let funding_rate = 10;

    // With size = 0, both PnL and funding should be 0
    let event = settle_cross_margin(&mut ctx, oracle_price, funding_rate).unwrap();

    assert_eq!(ctx.balance.collateral, 10000); // No change
    assert_eq!(ctx.position.last_funding_rate, funding_rate); // Funding rate updated
    assert!(event.is_none());
    assert_eq!(ctx.position.entry_price, 1000);
    assert_eq!(ctx.position.size, 0);
}

#[test]
fn test_large_position_overflow_safety() {
    // Test that i128 is used to prevent overflow
    let position = create_position(1_000_000_000, 1000, 0); // 1 billion units
    let mut ctx = create_context(position, create_balance(0));
    let oracle_price = 2000; // 1000 point move

    // This would overflow i64 but should work with i128
    let event = settle_cross_margin(&mut ctx, oracle_price, 0)
        .expect("Should not overflow with i128")
        .unwrap();
    let unrealized_pnl = event.unrealized_pnl;

    // 1000 * 1_000_000_000 = 1_000_000_000_000
    assert_eq!(unrealized_pnl, 1_000_000_000_000);
    assert_eq!(ctx.balance.collateral, 1_000_000_000_000);
}

#[test]
fn test_combined_pnl_and_funding() {
    // Test settlement with both PnL and funding
    let position = create_position(100, 1000, 5);
    let balance = create_balance(10000);
    let mut ctx = create_context(position, balance);

    let oracle_price = 1050; // Price increase
    let funding_rate = 15; // Funding increase

    // Expected PnL: (1050 - 1000) * 100 = 5000
    // Expected funding: (15 - 5) * 100 = 1000
    // Net settlement: 5000 - 1000 = 4000
    // New collateral: 10000 + 4000 = 14000
    let event = settle_cross_margin(&mut ctx, oracle_price, funding_rate)
        .unwrap()
        .unwrap();

    assert_eq!(ctx.balance.collateral, 14000);
    assert_eq!(event.unrealized_pnl, 5000);
    assert_eq!(event.funding_payment, 1000);
    assert_eq!(event.net_settlement, 4000);
}

#[test]
fn test_negative_funding_rate() {
    // Test with negative funding (shorts pay longs)
    let position = create_position(100, 1000, 5);
    let balance = create_balance(10000);
    let mut ctx = create_context(position, balance);

    let oracle_price = 1000;
    let funding_rate = -5; // Negative funding

    // Expected PnL: 0
    // Expected funding: (-5 - 5) * 100 = -1000
    // Net settlement: 0 - (-1000) = 1000 (long receives funding)
    // New collateral: 10000 + 1000 = 11000
    let event = settle_cross_margin(&mut ctx, oracle_price, funding_rate)
        .unwrap()
        .unwrap();

    assert_eq!(ctx.balance.collateral, 11000);
    assert_eq!(event.funding_payment, -1000);
    assert_eq!(event.net_settlement, 1000);
}
