//! What holds of settlement across calls and across positions, proved over
//! the model that the contract of `settle_cross_margin` is stated in.

use vstd::prelude::*;
use crate::settlement::{
    funding_payment, net_settlement, settled, settlement_error, unrealized_pnl,
};
use crate::state::{SettleCrossMargin, UserBalance};

verus! {

/// Idempotency: after a successful settlement, settling again at the same
/// oracle price and funding rate succeeds and changes nothing. Both deltas
/// are then zero, so the collateral stays where the first call left it.
pub proof fn lemma_settle_twice_changes_nothing(
    ctx: SettleCrossMargin,
    oracle_price: i64,
    funding_rate: i64,
)
    requires
        settlement_error(ctx, oracle_price, funding_rate) is None,
    ensures
        settlement_error(settled(ctx, oracle_price, funding_rate), oracle_price, funding_rate)
            is None,
        settled(settled(ctx, oracle_price, funding_rate), oracle_price, funding_rate) == settled(
            ctx,
            oracle_price,
            funding_rate,
        ),
        settled(
            settled(ctx, oracle_price, funding_rate),
            oracle_price,
            funding_rate,
        ).balance.collateral == settled(ctx, oracle_price, funding_rate).balance.collateral,
        unrealized_pnl(settled(ctx, oracle_price, funding_rate).position, oracle_price) == 0,
        funding_payment(settled(ctx, oracle_price, funding_rate).position, funding_rate) == 0,
{
    let once = settled(ctx, oracle_price, funding_rate);
    if ctx.position.size != 0 {
        assert(unrealized_pnl(once.position, oracle_price) == 0) by (nonlinear_arith)
            requires
                once.position.entry_price == oracle_price,
        ;
        assert(funding_payment(once.position, funding_rate) == 0) by (nonlinear_arith)
            requires
                once.position.last_funding_rate == funding_rate,
        ;
    } else {
        assert(unrealized_pnl(once.position, oracle_price) == 0) by (nonlinear_arith)
            requires
                once.position.size == 0,
        ;
        assert(funding_payment(once.position, funding_rate) == 0) by (nonlinear_arith)
            requires
                once.position.size == 0,
        ;
    }
}

/// Sign of a price move: with the funding rate unchanged, a price above the
/// entry price strictly raises the collateral behind a long position and
/// strictly lowers the collateral behind a short one; a price below the
/// entry price does the opposite.
pub proof fn lemma_price_move_sign(ctx: SettleCrossMargin, oracle_price: i64)
    requires
        settlement_error(ctx, oracle_price, ctx.position.last_funding_rate) is None,
    ensures
        ctx.position.size > 0 && oracle_price > ctx.position.entry_price ==> settled(
            ctx,
            oracle_price,
            ctx.position.last_funding_rate,
        ).balance.collateral > ctx.balance.collateral,
        ctx.position.size < 0 && oracle_price > ctx.position.entry_price ==> settled(
            ctx,
            oracle_price,
            ctx.position.last_funding_rate,
        ).balance.collateral < ctx.balance.collateral,
        ctx.position.size > 0 && oracle_price < ctx.position.entry_price ==> settled(
            ctx,
            oracle_price,
            ctx.position.last_funding_rate,
        ).balance.collateral < ctx.balance.collateral,
        ctx.position.size < 0 && oracle_price < ctx.position.entry_price ==> settled(
            ctx,
            oracle_price,
            ctx.position.last_funding_rate,
        ).balance.collateral > ctx.balance.collateral,
{
    let size = ctx.position.size as int;
    let delta = oracle_price - ctx.position.entry_price;
    let rate = ctx.position.last_funding_rate;
    assert(funding_payment(ctx.position, rate) == 0) by (nonlinear_arith)
        requires
            rate == ctx.position.last_funding_rate,
    ;
    assert(size > 0 && delta > 0 ==> delta * size > 0) by (nonlinear_arith);
    assert(size < 0 && delta > 0 ==> delta * size < 0) by (nonlinear_arith);
    assert(size > 0 && delta < 0 ==> delta * size < 0) by (nonlinear_arith);
    assert(size < 0 && delta < 0 ==> delta * size > 0) by (nonlinear_arith);
}

/// Long and short mirror each other: two positions of opposite size with the
/// same checkpoints, settled at the same price and rate, move the collateral
/// behind them by amounts of equal magnitude and opposite sign.
pub proof fn lemma_long_short_mirror(
    long: SettleCrossMargin,
    short: SettleCrossMargin,
    oracle_price: i64,
    funding_rate: i64,
)
    requires
        short.position.size == -long.position.size,
        short.position.entry_price == long.position.entry_price,
        short.position.last_funding_rate == long.position.last_funding_rate,
        settlement_error(long, oracle_price, funding_rate) is None,
        settlement_error(short, oracle_price, funding_rate) is None,
    ensures
        unrealized_pnl(short.position, oracle_price) == -unrealized_pnl(
            long.position,
            oracle_price,
        ),
        funding_payment(short.position, funding_rate) == -funding_payment(
            long.position,
            funding_rate,
        ),
        net_settlement(short.position, oracle_price, funding_rate) == -net_settlement(
            long.position,
            oracle_price,
            funding_rate,
        ),
        settled(short, oracle_price, funding_rate).balance.collateral - short.balance.collateral
            == -(settled(long, oracle_price, funding_rate).balance.collateral
            - long.balance.collateral),
{
    let size = long.position.size as int;
    let price_delta = oracle_price - long.position.entry_price;
    let rate_delta = funding_rate - long.position.last_funding_rate;
    assert(price_delta * (-size) == -(price_delta * size)) by (nonlinear_arith);
    assert(rate_delta * (-size) == -(rate_delta * size)) by (nonlinear_arith);
}

/// `ctx` with its balance replaced: the context of a position that is
/// settled against a balance that another settlement has just written.
pub open spec fn with_balance(ctx: SettleCrossMargin, balance: UserBalance) -> SettleCrossMargin {
    SettleCrossMargin { balance, ..ctx }
}

/// Two positions that share one balance may be settled in either order:
/// where both orders succeed, the shared collateral ends at the same value,
/// the starting collateral plus both net settlements.
pub proof fn lemma_shared_balance_order_independent(
    first: SettleCrossMargin,
    second: SettleCrossMargin,
    first_price: i64,
    first_rate: i64,
    second_price: i64,
    second_rate: i64,
)
    requires
        first.balance == second.balance,
        settlement_error(first, first_price, first_rate) is None,
        settlement_error(second, second_price, second_rate) is None,
        settlement_error(
            with_balance(second, settled(first, first_price, first_rate).balance),
            second_price,
            second_rate,
        ) is None,
        settlement_error(
            with_balance(first, settled(second, second_price, second_rate).balance),
            first_price,
            first_rate,
        ) is None,
    ensures
        settled(
            with_balance(second, settled(first, first_price, first_rate).balance),
            second_price,
            second_rate,
        ).balance == settled(
            with_balance(first, settled(second, second_price, second_rate).balance),
            first_price,
            first_rate,
        ).balance,
        first.position.size != 0 && second.position.size != 0 ==> settled(
            with_balance(second, settled(first, first_price, first_rate).balance),
            second_price,
            second_rate,
        ).balance.collateral == first.balance.collateral + net_settlement(
            first.position,
            first_price,
            first_rate,
        ) + net_settlement(second.position, second_price, second_rate),
{
}

} // verus!
