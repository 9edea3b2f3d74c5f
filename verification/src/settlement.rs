//! The settlement transition: its mathematical model and the executable
//! stages that implement it.

use vstd::prelude::*;
use crate::error::SettlementError;
use crate::state::{Position, SettleCrossMargin, SettlementEvent, UserBalance};

verus! {

/// Largest magnitude a funding rate may have: `i64::MAX / 1_000_000`.
pub const MAX_FUNDING_RATE: i64 = 9_223_372_036_854;

/// `|rate| <= MAX_FUNDING_RATE`, over the integers (so `i64::MIN` is out of
/// bounds).
pub open spec fn funding_rate_in_bounds(rate: i64) -> bool {
    -MAX_FUNDING_RATE <= rate <= MAX_FUNDING_RATE
}

/// `v` is representable as an `i64`.
pub open spec fn fits_i64(v: int) -> bool {
    i64::MIN <= v <= i64::MAX
}

/// `v` is representable as an `i128`.
pub open spec fn fits_i128(v: int) -> bool {
    i128::MIN <= v <= i128::MAX
}

/// The refusal, if any, that input validation gives. The checks run in this
/// order: oracle price, entry price, funding rates.
pub open spec fn validation_error(
    position: Position,
    oracle_price: i64,
    funding_rate: i64,
) -> Option<SettlementError> {
    if oracle_price <= 0 {
        Some(SettlementError::InvalidOraclePrice)
    } else if position.entry_price <= 0 {
        Some(SettlementError::InvalidEntryPrice)
    } else if !funding_rate_in_bounds(funding_rate) || !funding_rate_in_bounds(
        position.last_funding_rate,
    ) {
        Some(SettlementError::FundingRateOutOfBounds)
    } else {
        None
    }
}

/// Mark-to-market profit or loss since the price checkpoint:
/// `(oracle_price - entry_price) * size`.
pub open spec fn unrealized_pnl(position: Position, oracle_price: i64) -> int {
    (oracle_price - position.entry_price) * position.size
}

/// Funding owed since the funding checkpoint:
/// `(funding_rate - last_funding_rate) * size`.
pub open spec fn funding_payment(position: Position, funding_rate: i64) -> int {
    (funding_rate - position.last_funding_rate) * position.size
}

/// What a settlement adds to the collateral: profit or loss less funding.
pub open spec fn net_settlement(position: Position, oracle_price: i64, funding_rate: i64) -> int {
    unrealized_pnl(position, oracle_price) - funding_payment(position, funding_rate)
}

/// Checks the inputs of a settlement before any arithmetic. It changes
/// nothing.
pub fn validate_inputs(position: &Position, oracle_price: i64, funding_rate: i64) -> (result:
    Result<(), SettlementError>)
    ensures
        result == match validation_error(*position, oracle_price, funding_rate) {
            Some(e) => Err::<(), SettlementError>(e),
            None => Ok(()),
        },
{
    if oracle_price <= 0 {
        return Err(SettlementError::InvalidOraclePrice);
    }
    if position.entry_price <= 0 {
        return Err(SettlementError::InvalidEntryPrice);
    }
    if !rate_within_bounds(funding_rate) || !rate_within_bounds(position.last_funding_rate) {
        return Err(SettlementError::FundingRateOutOfBounds);
    }
    Ok(())
}

/// Whether a funding rate lies within the safety bound.
pub fn rate_within_bounds(rate: i64) -> (ok: bool)
    ensures
        ok == funding_rate_in_bounds(rate),
{
    -MAX_FUNDING_RATE <= rate && rate <= MAX_FUNDING_RATE
}

/// A product of two bounded integers is bounded by the product of the bounds.
pub proof fn lemma_product_bound(a: int, b: int, m: int, n: int)
    by (nonlinear_arith)
    requires
        -m <= a <= m,
        -n <= b <= n,
    ensures
        -(m * n) <= a * b <= m * n,
{
}

/// The product of any two `i64` values is representable as an `i128`: the
/// wide multiplication of a delta by a size cannot overflow.
pub proof fn lemma_wide_product_fits(a: i64, b: i64)
    ensures
        fits_i128(a * b),
{
    lemma_product_bound(a as int, b as int, 0x8000_0000_0000_0000, 0x8000_0000_0000_0000);
    assert(0x8000_0000_0000_0000int * 0x8000_0000_0000_0000int
        == 0x4000_0000_0000_0000_0000_0000_0000_0000int) by (nonlinear_arith);
}

/// `(current - checkpoint) * size`: the difference taken in `i64`, the
/// product in `i128`, both checked. Only the difference can overflow.
pub fn scaled_delta(current: i64, checkpoint: i64, size: i64) -> (result: Result<
    i128,
    SettlementError,
>)
    ensures
        fits_i64(current - checkpoint) ==> result == Ok::<i128, SettlementError>(
            ((current - checkpoint) * size) as i128,
        ) && fits_i128((current - checkpoint) * size),
        !fits_i64(current - checkpoint) ==> result == Err::<i128, SettlementError>(
            SettlementError::CalculationOverflow,
        ),
{
    let delta: i64 = match current.checked_sub(checkpoint) {
        Some(d) => d,
        None => {
            return Err(SettlementError::CalculationOverflow);
        },
    };
    proof {
        lemma_wide_product_fits(delta, size);
    }
    match (delta as i128).checked_mul(size as i128) {
        Some(v) => Ok(v),
        None => Err(SettlementError::CalculationOverflow),
    }
}

/// Mark-to-market profit or loss of `position` at `oracle_price`, exact over
/// the integers. It is refused only where the price difference itself leaves
/// `i64`, which two positive prices never do.
pub fn compute_unrealized_pnl(position: &Position, oracle_price: i64) -> (result: Result<
    i128,
    SettlementError,
>)
    ensures
        fits_i64(oracle_price - position.entry_price) ==> result == Ok::<i128, SettlementError>(
            unrealized_pnl(*position, oracle_price) as i128,
        ) && fits_i128(unrealized_pnl(*position, oracle_price)),
        !fits_i64(oracle_price - position.entry_price) ==> result == Err::<
            i128,
            SettlementError,
        >(SettlementError::CalculationOverflow),
{
    scaled_delta(oracle_price, position.entry_price, position.size)
}

/// Funding owed by `position` at `funding_rate` since its funding checkpoint,
/// exact over the integers. A positive value is paid by the position, a
/// negative one is received. It is refused only where the rate difference
/// itself leaves `i64`, which two rates within bounds never do.
pub fn compute_funding_payment(position: &Position, funding_rate: i64) -> (result: Result<
    i128,
    SettlementError,
>)
    ensures
        fits_i64(funding_rate - position.last_funding_rate) ==> result == Ok::<
            i128,
            SettlementError,
        >(funding_payment(*position, funding_rate) as i128) && fits_i128(
            funding_payment(*position, funding_rate),
        ),
        !fits_i64(funding_rate - position.last_funding_rate) ==> result == Err::<
            i128,
            SettlementError,
        >(SettlementError::CalculationOverflow),
{
    scaled_delta(funding_rate, position.last_funding_rate, position.size)
}

/// The position after a settlement of an open position: both checkpoints
/// advance, the size stays.
pub open spec fn marked_position(position: Position, oracle_price: i64, funding_rate: i64)
    -> Position {
    Position { size: position.size, entry_price: oracle_price, last_funding_rate: funding_rate }
}

/// Folds a computed profit or loss and funding payment into the collateral
/// and advances both checkpoints, all or nothing: on overflow of the net
/// amount or of the new collateral nothing is written.
pub fn apply_settlement(
    ctx: &mut SettleCrossMargin,
    oracle_price: i64,
    funding_rate: i64,
    unrealized_pnl: i128,
    funding_payment: i128,
) -> (result: Result<SettlementEvent, SettlementError>)
    ensures
        result is Ok <==> fits_i128(unrealized_pnl - funding_payment) && fits_i128(
            old(ctx).balance.collateral + unrealized_pnl - funding_payment,
        ),
        result is Err ==> result == Err::<SettlementEvent, SettlementError>(
            SettlementError::CalculationOverflow,
        ) && *final(ctx) == *old(ctx),
        result is Ok ==> *final(ctx) == (SettleCrossMargin {
            position_key: old(ctx).position_key,
            position: marked_position(old(ctx).position, oracle_price, funding_rate),
            balance: UserBalance {
                collateral: (old(ctx).balance.collateral + unrealized_pnl
                    - funding_payment) as i128,
            },
            authority: old(ctx).authority,
        }),
        result is Ok ==> result == Ok::<SettlementEvent, SettlementError>(
            SettlementEvent {
                position_key: old(ctx).position_key,
                oracle_price,
                funding_rate,
                unrealized_pnl,
                funding_payment,
                net_settlement: (unrealized_pnl - funding_payment) as i128,
                new_collateral: (old(ctx).balance.collateral + unrealized_pnl
                    - funding_payment) as i128,
            },
        ),
{
    let net_settlement: i128 = match unrealized_pnl.checked_sub(funding_payment) {
        Some(v) => v,
        None => {
            return Err(SettlementError::CalculationOverflow);
        },
    };
    let new_collateral: i128 = match ctx.balance.collateral.checked_add(net_settlement) {
        Some(v) => v,
        None => {
            return Err(SettlementError::CalculationOverflow);
        },
    };
    ctx.balance.collateral = new_collateral;
    ctx.position.entry_price = oracle_price;
    ctx.position.last_funding_rate = funding_rate;
    Ok(
        SettlementEvent {
            position_key: ctx.position_key,
            oracle_price,
            funding_rate,
            unrealized_pnl,
            funding_payment,
            net_settlement,
            new_collateral,
        },
    )
}

/// The refusal, if any, that a whole settlement gives. Once the inputs are
/// valid and the position is open, the one step that can still overflow is
/// the addition to the collateral.
pub open spec fn settlement_error(ctx: SettleCrossMargin, oracle_price: i64, funding_rate: i64)
    -> Option<SettlementError> {
    match validation_error(ctx.position, oracle_price, funding_rate) {
        Some(e) => Some(e),
        None => if ctx.position.size != 0 && !fits_i128(
            ctx.balance.collateral + net_settlement(ctx.position, oracle_price, funding_rate),
        ) {
            Some(SettlementError::CalculationOverflow)
        } else {
            None
        },
    }
}

/// The state that a successful settlement leaves. A flat position only has
/// its funding checkpoint advanced; an open one has the net settlement
/// added to the collateral and both checkpoints advanced.
pub open spec fn settled(ctx: SettleCrossMargin, oracle_price: i64, funding_rate: i64)
    -> SettleCrossMargin {
    if ctx.position.size == 0 {
        SettleCrossMargin {
            position: Position {
                size: ctx.position.size,
                entry_price: ctx.position.entry_price,
                last_funding_rate: funding_rate,
            },
            ..ctx
        }
    } else {
        SettleCrossMargin {
            position: marked_position(ctx.position, oracle_price, funding_rate),
            balance: UserBalance {
                collateral: (ctx.balance.collateral + net_settlement(
                    ctx.position,
                    oracle_price,
                    funding_rate,
                )) as i128,
            },
            ..ctx
        }
    }
}

/// The audit record of a successful settlement: none for a flat position.
pub open spec fn settlement_event(ctx: SettleCrossMargin, oracle_price: i64, funding_rate: i64)
    -> Option<SettlementEvent> {
    if ctx.position.size == 0 {
        None
    } else {
        Some(
            SettlementEvent {
                position_key: ctx.position_key,
                oracle_price,
                funding_rate,
                unrealized_pnl: unrealized_pnl(ctx.position, oracle_price) as i128,
                funding_payment: funding_payment(ctx.position, funding_rate) as i128,
                net_settlement: net_settlement(ctx.position, oracle_price, funding_rate) as i128,
                new_collateral: (ctx.balance.collateral + net_settlement(
                    ctx.position,
                    oracle_price,
                    funding_rate,
                )) as i128,
            },
        )
    }
}

/// On valid inputs no intermediate step of a settlement overflows: both
/// differences fit `i64`, and both products and their difference fit `i128`,
/// whatever the size of the position. The values computed in the wide type
/// are therefore the exact integers, never wrapped or truncated.
pub proof fn lemma_valid_inputs_never_overflow(
    position: Position,
    oracle_price: i64,
    funding_rate: i64,
)
    requires
        validation_error(position, oracle_price, funding_rate) is None,
    ensures
        fits_i64(oracle_price - position.entry_price),
        fits_i64(funding_rate - position.last_funding_rate),
        fits_i128(unrealized_pnl(position, oracle_price)),
        fits_i128(funding_payment(position, funding_rate)),
        fits_i128(net_settlement(position, oracle_price, funding_rate)),
{
    lemma_product_bound(
        oracle_price - position.entry_price,
        position.size as int,
        0x8000_0000_0000_0000,
        0x8000_0000_0000_0000,
    );
    lemma_product_bound(
        funding_rate - position.last_funding_rate,
        position.size as int,
        2 * MAX_FUNDING_RATE,
        0x8000_0000_0000_0000,
    );
    assert(0x8000_0000_0000_0000int * 0x8000_0000_0000_0000int
        == 0x4000_0000_0000_0000_0000_0000_0000_0000int) by (nonlinear_arith);
    assert((2 * 9_223_372_036_854int) * 0x8000_0000_0000_0000int
        <= 0x0000_1000_0000_0000_0000_0000_0000_0000int) by (nonlinear_arith);
}

/// Settles the position of `ctx` at `oracle_price` and `funding_rate`.
///
/// The inputs are validated first. A flat position then only has its funding
/// checkpoint advanced and yields no record. For an open position the profit
/// or loss and the funding owed since the checkpoints are computed, their
/// difference is added to the shared collateral, both checkpoints advance,
/// and the audit record is returned. A refused call changes nothing.
pub fn settle_cross_margin(ctx: &mut SettleCrossMargin, oracle_price: i64, funding_rate: i64) -> (result:
    Result<Option<SettlementEvent>, SettlementError>)
    ensures
        settlement_error(*old(ctx), oracle_price, funding_rate) matches Some(e) ==> result
            == Err::<Option<SettlementEvent>, SettlementError>(e),
        settlement_error(*old(ctx), oracle_price, funding_rate) is None ==> result == Ok::<
            Option<SettlementEvent>,
            SettlementError,
        >(settlement_event(*old(ctx), oracle_price, funding_rate)) && *final(ctx) == settled(
            *old(ctx),
            oracle_price,
            funding_rate,
        ),
        result is Err ==> *final(ctx) == *old(ctx),
        final(ctx).position.size == old(ctx).position.size,
        old(ctx).position.size == 0 ==> final(ctx).balance == old(ctx).balance,
        old(ctx).position.size == 0 ==> final(ctx).position.entry_price
            == old(ctx).position.entry_price,
        result is Ok ==> final(ctx).position.last_funding_rate == funding_rate,
        result is Ok && old(ctx).position.size != 0 ==> final(ctx).position.entry_price
            == oracle_price,
        result is Ok && old(ctx).position.size != 0 ==> final(ctx).balance.collateral
            == old(ctx).balance.collateral + net_settlement(
            old(ctx).position,
            oracle_price,
            funding_rate,
        ),
        result matches Ok(Some(event)) ==> event.unrealized_pnl == unrealized_pnl(
            old(ctx).position,
            oracle_price,
        ) && event.funding_payment == funding_payment(old(ctx).position, funding_rate)
            && event.net_settlement == event.unrealized_pnl - event.funding_payment
            && event.new_collateral == old(ctx).balance.collateral + event.net_settlement,
{
    match validate_inputs(&ctx.position, oracle_price, funding_rate) {
        Err(e) => {
            return Err(e);
        },
        Ok(_) => {},
    }
    if ctx.position.size == 0 {
        ctx.position.last_funding_rate = funding_rate;
        return Ok(None);
    }
    proof {
        lemma_valid_inputs_never_overflow(ctx.position, oracle_price, funding_rate);
    }
    let unrealized_pnl: i128 = match compute_unrealized_pnl(&ctx.position, oracle_price) {
        Ok(v) => v,
        Err(e) => {
            return Err(e);
        },
    };
    let funding_payment: i128 = match compute_funding_payment(&ctx.position, funding_rate) {
        Ok(v) => v,
        Err(e) => {
            return Err(e);
        },
    };
    match apply_settlement(ctx, oracle_price, funding_rate, unrealized_pnl, funding_payment) {
        Ok(event) => Ok(Some(event)),
        Err(e) => Err(e),
    }
}

} // verus!
