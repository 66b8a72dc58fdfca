//! The confidential circuit library.
//!
//! These are the pure, deterministic functions the MPC cluster evaluates over
//! decrypted views of the stored records. Each takes plain values (the
//! decrypted contents of the ciphertext inputs plus any plaintext arguments)
//! and returns either a new record, to be re-encrypted into the store, or a
//! revealed scalar or boolean. Nothing here performs the encryption itself:
//! that is the cluster's cryptographic protocol, outside this library.

use vstd::prelude::*;

use crate::errors::ErrorCode;
use crate::ids::bytes32_eq;

verus! {

/// A lending position as the circuits see it after decryption.
///
/// Invariant maintained by the circuits that write it: when `debt_usd > 0`,
/// `health_factor_bps` is `10000 * collateral_usd / debt_usd` (truncating);
/// when `debt_usd == 0` it is the sentinel 10000 ("no debt, maximally
/// healthy"), and so is `leverage_bps`.
#[derive(Clone, Copy, PartialEq, Eq, Debug)]
pub struct EncryptedPosition {
    pub collateral_usd: u64,
    pub debt_usd: u64,
    pub health_factor_bps: u64,
    pub leverage_bps: u64,
    pub liquidation_price: u64,
    pub protocol_id: u8,
    pub last_updated: i64,
}

/// A resting dark pool order: side 0 buys, side 1 sells.
#[derive(Clone, Copy, PartialEq, Eq, Debug)]
pub struct DarkPoolOrder {
    pub side: u8,
    pub token_mint: [u8; 32],
    pub amount: u64,
    pub limit_price: u64,
    pub min_fill_amount: u64,
    pub expires_at: i64,
}

/// A private swap intent.
#[derive(Clone, Copy, PartialEq, Eq, Debug)]
pub struct SwapIntent {
    pub from_token: [u8; 32],
    pub to_token: [u8; 32],
    pub amount_in: u64,
    pub min_amount_out: u64,
    pub max_slippage_bps: u64,
    pub deadline: i64,
}

/// An ephemeral health summary; returned once, never persisted.
#[derive(Clone, Copy, PartialEq, Eq, Debug)]
pub struct HealthCheckResult {
    pub is_healthy: bool,
    pub risk_level: u8,
    pub time_to_liquidation: i64,
}

/// The outcome of pricing a matched order pair; re-encrypted to the buy
/// order's owner, never revealed in plaintext.
#[derive(Clone, Copy, PartialEq, Eq, Debug)]
pub struct OrderMatchResult {
    pub is_matched: bool,
    pub execution_price: u64,
    pub fill_amount: u64,
}

/// Portfolio-wide risk totals over a fixed-capacity batch of positions.
#[derive(Clone, Copy, PartialEq, Eq, Debug)]
pub struct AggregatedRiskMetrics {
    pub total_collateral: u64,
    pub total_debt: u64,
    pub weighted_health: u64,
    pub positions_at_risk: u8,
}

/// `10000 * collateral / debt`, truncating; 10000 when there is no debt.
pub open spec fn health_factor_bps_of(collateral: int, debt: int) -> int {
    if debt > 0 {
        10000 * collateral / debt
    } else {
        10000
    }
}

/// `10000 * debt / collateral`, truncating; 10000 when there is no debt.
pub open spec fn leverage_bps_of(collateral: int, debt: int) -> int {
    if debt > 0 {
        10000 * debt / collateral
    } else {
        10000
    }
}

/// The health factor after a hypothetical price impact, floored at zero.
pub open spec fn adjusted_health_of(health_factor_bps: int, price_impact_bps: int) -> int {
    if health_factor_bps > price_impact_bps {
        health_factor_bps - price_impact_bps
    } else {
        0
    }
}

/// The revealed liquidation risk tier for an adjusted health factor.
pub open spec fn risk_tier_of(adjusted_health: int) -> u8 {
    if adjusted_health >= 15000 {
        0
    } else if adjusted_health >= 12500 {
        1
    } else if adjusted_health >= 11000 {
        2
    } else if adjusted_health >= 10500 {
        3
    } else {
        4
    }
}

/// The position record's invariant: the cached health factor and leverage
/// agree with the balances. Established at initialisation and re-established
/// by every balance update.
pub open spec fn position_consistent(p: EncryptedPosition) -> bool {
    &&& p.health_factor_bps == health_factor_bps_of(p.collateral_usd as int, p.debt_usd as int)
    &&& p.leverage_bps == leverage_bps_of(p.collateral_usd as int, p.debt_usd as int)
}

/// When a buy and a sell order match: same token, crossing limit prices,
/// each side's amount covers the other's minimum fill, and the sides are a
/// buy (0) against a sell (1).
pub open spec fn orders_matched(buy: DarkPoolOrder, sell: DarkPoolOrder) -> bool {
    &&& buy.token_mint@ == sell.token_mint@
    &&& buy.limit_price >= sell.limit_price
    &&& buy.amount >= sell.min_fill_amount
    &&& sell.amount >= buy.min_fill_amount
    &&& buy.side == 0
    &&& sell.side == 1
}

/// The absolute gap between two prices.
pub open spec fn price_gap(a: int, b: int) -> int {
    if a > b {
        a - b
    } else {
        b - a
    }
}

/// How many positions in the batch are active (carry debt) and sit below the
/// health threshold.
pub open spec fn count_at_risk(s: Seq<EncryptedPosition>, threshold_bps: u64) -> int
    decreases s.len(),
{
    if s.len() == 0 {
        0
    } else {
        count_at_risk(s.drop_last(), threshold_bps) + if s.last().health_factor_bps < threshold_bps
            && s.last().debt_usd > 0 {
            1int
        } else {
            0int
        }
    }
}

/// Total collateral over the active positions; positions without debt are
/// skipped ("no position").
pub open spec fn sum_active_collateral(s: Seq<EncryptedPosition>) -> int
    decreases s.len(),
{
    if s.len() == 0 {
        0
    } else {
        sum_active_collateral(s.drop_last()) + if s.last().debt_usd > 0 {
            s.last().collateral_usd as int
        } else {
            0int
        }
    }
}

/// Total debt over the active positions.
pub open spec fn sum_active_debt(s: Seq<EncryptedPosition>) -> int
    decreases s.len(),
{
    if s.len() == 0 {
        0
    } else {
        sum_active_debt(s.drop_last()) + if s.last().debt_usd > 0 {
            s.last().debt_usd as int
        } else {
            0int
        }
    }
}

/// A batch prefix never counts or sums more than the whole batch.
proof fn lemma_batch_prefix_bounds(s: Seq<EncryptedPosition>, threshold_bps: u64, i: int)
    requires
        0 <= i <= s.len(),
    ensures
        count_at_risk(s.take(i), threshold_bps) <= count_at_risk(s, threshold_bps),
        sum_active_collateral(s.take(i)) <= sum_active_collateral(s),
        sum_active_debt(s.take(i)) <= sum_active_debt(s),
        count_at_risk(s.take(i), threshold_bps) >= 0,
        sum_active_collateral(s.take(i)) >= 0,
        sum_active_debt(s.take(i)) >= 0,
        count_at_risk(s, threshold_bps) <= s.len(),
    decreases s.len() - i,
{
    if i == s.len() {
        assert(s.take(i) =~= s);
        lemma_batch_nonneg(s, threshold_bps);
    } else {
        lemma_batch_prefix_bounds(s, threshold_bps, i + 1);
        lemma_batch_nonneg(s.take(i), threshold_bps);
        assert(s.take(i + 1).drop_last() =~= s.take(i));
        assert(s.take(i + 1).last() == s[i]);
    }
}

/// Counts and sums over a batch are non-negative, and the count is bounded by
/// the batch length.
proof fn lemma_batch_nonneg(s: Seq<EncryptedPosition>, threshold_bps: u64)
    ensures
        count_at_risk(s, threshold_bps) >= 0,
        sum_active_collateral(s) >= 0,
        sum_active_debt(s) >= 0,
        count_at_risk(s, threshold_bps) <= s.len(),
    decreases s.len(),
{
    if s.len() > 0 {
        lemma_batch_nonneg(s.drop_last(), threshold_bps);
    }
}

/// A freshly initialised position: empty, maximally healthy, tagged with its
/// protocol.
pub fn init_encrypted_position(position_id: [u8; 32], protocol: u8) -> (r: EncryptedPosition)
    ensures
        r == (EncryptedPosition {
            collateral_usd: 0,
            debt_usd: 0,
            health_factor_bps: 10000,
            leverage_bps: 10000,
            liquidation_price: 0,
            protocol_id: protocol,
            last_updated: 0,
        }),
        position_consistent(r),
{
    let _ = position_id;
    EncryptedPosition {
        collateral_usd: 0,
        debt_usd: 0,
        health_factor_bps: 10000,
        leverage_bps: 10000,
        liquidation_price: 0,
        protocol_id: protocol,
        last_updated: 0,
    }
}

/// Re-encrypts a caller-supplied position over the stored one: the stored
/// record is superseded wholesale.
pub fn update_position_data(incoming: EncryptedPosition, stored: EncryptedPosition) -> (r:
    EncryptedPosition)
    ensures
        r == incoming,
{
    let _ = stored;
    incoming
}

/// Rewrites a position's balances and recomputes its health factor and
/// leverage from them.
pub fn update_health_factor(stored: EncryptedPosition, new_collateral: u64, new_debt: u64) -> (r:
    EncryptedPosition)
    requires
        new_debt > 0 ==> new_collateral > 0,
        new_debt > 0 ==> new_collateral <= u64::MAX / 10000,
        new_debt > 0 ==> new_debt <= u64::MAX / 10000,
    ensures
        r.collateral_usd == new_collateral,
        r.debt_usd == new_debt,
        r.health_factor_bps == health_factor_bps_of(new_collateral as int, new_debt as int),
        r.leverage_bps == leverage_bps_of(new_collateral as int, new_debt as int),
        r.liquidation_price == stored.liquidation_price,
        r.protocol_id == stored.protocol_id,
        r.last_updated == stored.last_updated,
        position_consistent(r),
{
    let mut position = stored;
    position.collateral_usd = new_collateral;
    position.debt_usd = new_debt;
    if new_debt > 0 {
        position.health_factor_bps = (new_collateral * 10000) / new_debt;
        position.leverage_bps = (new_debt * 10000) / new_collateral;
    } else {
        position.health_factor_bps = 10000;
        position.leverage_bps = 10000;
    }
    position
}

/// Reveals only whether the position's health factor reaches the threshold.
pub fn prove_health_threshold(position: EncryptedPosition, threshold_bps: u64) -> (r: bool)
    ensures
        r == (position.health_factor_bps >= threshold_bps),
{
    position.health_factor_bps >= threshold_bps
}

/// Reveals the liquidation risk tier after a hypothetical price impact.
pub fn calculate_liquidation_risk(position: EncryptedPosition, price_impact_bps: u64) -> (r: u8)
    ensures
        r == risk_tier_of(
            adjusted_health_of(position.health_factor_bps as int, price_impact_bps as int),
        ),
{
    let adjusted_health = if position.health_factor_bps > price_impact_bps {
        position.health_factor_bps - price_impact_bps
    } else {
        0
    };
    if adjusted_health >= 15000 {
        0
    } else if adjusted_health >= 12500 {
        1
    } else if adjusted_health >= 11000 {
        2
    } else if adjusted_health >= 10500 {
        3
    } else {
        4
    }
}

/// Reveals how many of a fixed-capacity batch of positions carry debt and sit
/// below the health threshold.
pub fn batch_health_check(positions: &Vec<EncryptedPosition>, threshold_bps: u64) -> (r: u8)
    requires
        positions@.len() == 10,
    ensures
        r == count_at_risk(positions@, threshold_bps),
{
    let mut at_risk_count: u8 = 0;
    let mut i: usize = 0;
    while i < 10
        invariant
            positions@.len() == 10,
            i <= 10,
            at_risk_count == count_at_risk(positions@.take(i as int), threshold_bps),
            at_risk_count <= i,
        decreases 10 - i,
    {
        proof {
            assert(positions@.take(i + 1).drop_last() =~= positions@.take(i as int));
            assert(positions@.take(i + 1).last() == positions@[i as int]);
        }
        if positions[i].health_factor_bps < threshold_bps && positions[i].debt_usd > 0 {
            at_risk_count = at_risk_count + 1;
        }
        i = i + 1;
    }
    proof {
        assert(positions@.take(10) =~= positions@);
    }
    at_risk_count
}

/// A freshly initialised dark pool order: only its side and expiry are set.
pub fn init_dark_pool_order(order_id: [u8; 32], side: u8, expires_at: i64) -> (r: DarkPoolOrder)
    ensures
        r.side == side,
        r.amount == 0,
        r.limit_price == 0,
        r.min_fill_amount == 0,
        r.expires_at == expires_at,
        forall|k: int| 0 <= k < 32 ==> r.token_mint@[k] == 0,
{
    let _ = order_id;
    DarkPoolOrder { side, token_mint: [0u8; 32], amount: 0, limit_price: 0, min_fill_amount: 0, expires_at }
}

/// Re-encrypts a caller-supplied order over the stored one.
pub fn update_dark_pool_order(incoming: DarkPoolOrder, stored: DarkPoolOrder) -> (r: DarkPoolOrder)
    ensures
        r == incoming,
{
    let _ = stored;
    incoming
}

/// Reveals only whether the two orders match; prices and amounts stay
/// confidential.
pub fn match_dark_pool_orders(buy: DarkPoolOrder, sell: DarkPoolOrder) -> (r: bool)
    ensures
        r == orders_matched(buy, sell),
{
    let tokens_match = bytes32_eq(&buy.token_mint, &sell.token_mint);
    let price_compatible = buy.limit_price >= sell.limit_price;
    let amount_sufficient = buy.amount >= sell.min_fill_amount && sell.amount >= buy.min_fill_amount;
    let sides_valid = buy.side == 0 && sell.side == 1;
    tokens_match && price_compatible && amount_sufficient && sides_valid
}

/// Prices a crossed order pair: the execution price is the integer midpoint
/// of the two limits, the fill the smaller amount. The result is re-encrypted
/// to the buy order's owner, never revealed.
pub fn calculate_execution_price(buy: DarkPoolOrder, sell: DarkPoolOrder) -> (r: OrderMatchResult)
    requires
        buy.limit_price + sell.limit_price <= u64::MAX,
    ensures
        r.is_matched == (buy.limit_price >= sell.limit_price),
        r.execution_price == (buy.limit_price + sell.limit_price) / 2,
        r.fill_amount == if buy.amount < sell.amount {
            buy.amount
        } else {
            sell.amount
        },
{
    let execution_price = (buy.limit_price + sell.limit_price) / 2;
    let fill_amount = if buy.amount < sell.amount {
        buy.amount
    } else {
        sell.amount
    };
    let is_matched = buy.limit_price >= sell.limit_price;
    OrderMatchResult { is_matched, execution_price, fill_amount }
}

/// A freshly initialised swap intent with the default slippage cap of 50 bps.
pub fn init_swap_intent(intent_id: [u8; 32]) -> (r: SwapIntent)
    ensures
        r.amount_in == 0,
        r.min_amount_out == 0,
        r.max_slippage_bps == 50,
        r.deadline == 0,
        forall|k: int| 0 <= k < 32 ==> r.from_token@[k] == 0,
        forall|k: int| 0 <= k < 32 ==> r.to_token@[k] == 0,
{
    let _ = intent_id;
    SwapIntent {
        from_token: [0u8; 32],
        to_token: [0u8; 32],
        amount_in: 0,
        min_amount_out: 0,
        max_slippage_bps: 50,
        deadline: 0,
    }
}

/// Re-encrypts a caller-supplied intent over the stored one.
pub fn update_swap_intent(incoming: SwapIntent, stored: SwapIntent) -> (r: SwapIntent)
    ensures
        r == incoming,
{
    let _ = stored;
    incoming
}

/// Reveals whether a swap may settle: the delivered output reaches the
/// intent's minimum and the intent's slippage cap is within the caller's cap.
pub fn execute_private_swap(intent: SwapIntent, actual_output: u64, max_slippage_bps: u64) -> (r:
    bool)
    ensures
        r == (actual_output >= intent.min_amount_out && intent.max_slippage_bps
            <= max_slippage_bps),
{
    let slippage_ok = actual_output >= intent.min_amount_out;
    let within_max_slippage = intent.max_slippage_bps <= max_slippage_bps;
    slippage_ok && within_max_slippage
}

/// Reveals whether the execution price deviates from the oracle price by at
/// most `max_deviation_bps`. A zero oracle price cannot anchor a deviation
/// and is rejected rather than assumed away.
pub fn verify_swap_fairness(
    intent: SwapIntent,
    oracle_price: u64,
    execution_price: u64,
    max_deviation_bps: u64,
) -> (r: Result<bool, ErrorCode>)
    requires
        price_gap(execution_price as int, oracle_price as int) <= u64::MAX / 10000,
    ensures
        oracle_price == 0 ==> r == Err::<bool, ErrorCode>(ErrorCode::InvalidOraclePrice),
        oracle_price > 0 ==> r == Ok::<bool, ErrorCode>(
            10000 * price_gap(execution_price as int, oracle_price as int) / (oracle_price as int)
                <= max_deviation_bps,
        ),
{
    let _ = intent;
    if oracle_price == 0 {
        return Err(ErrorCode::InvalidOraclePrice);
    }
    let price_diff = if execution_price > oracle_price {
        execution_price - oracle_price
    } else {
        oracle_price - execution_price
    };
    let deviation_bps = (price_diff * 10000) / oracle_price;
    Ok(deviation_bps <= max_deviation_bps)
}

/// How much collateral must be added to lift the position to the target
/// health factor; zero when it is already there.
pub fn compute_optimal_rebalance(position: EncryptedPosition, target_health_bps: u64) -> (r: u64)
    requires
        position.debt_usd * target_health_bps <= u64::MAX,
    ensures
        position.health_factor_bps >= target_health_bps ==> r == 0,
        position.health_factor_bps < target_health_bps ==> r == {
            let required = position.debt_usd * target_health_bps / 10000;
            if required > position.collateral_usd {
                required - position.collateral_usd
            } else {
                0int
            }
        },
{
    if position.health_factor_bps >= target_health_bps {
        return 0;
    }
    let required_collateral = (position.debt_usd * target_health_bps) / 10000;
    if required_collateral > position.collateral_usd {
        required_collateral - position.collateral_usd
    } else {
        0
    }
}

/// Reveals whether an execution kept the intent's deadline and stayed within
/// the allowed delay after the block timestamp.
pub fn prove_no_front_running(
    intent: SwapIntent,
    block_timestamp: i64,
    execution_timestamp: i64,
    max_delay_seconds: i64,
) -> (r: bool)
    requires
        i64::MIN <= execution_timestamp - block_timestamp <= i64::MAX,
    ensures
        r == (execution_timestamp <= intent.deadline && execution_timestamp - block_timestamp
            <= max_delay_seconds),
{
    let within_deadline = execution_timestamp <= intent.deadline;
    let reasonable_delay = (execution_timestamp - block_timestamp) <= max_delay_seconds;
    within_deadline && reasonable_delay
}

/// Aggregates a fixed-capacity batch: sums collateral and debt over the
/// active positions, counts those below the risk threshold, and re-derives
/// the debt-weighted health factor from the totals.
pub fn aggregate_portfolio_risk(positions: &Vec<EncryptedPosition>, risk_threshold_bps: u64) -> (r:
    AggregatedRiskMetrics)
    requires
        positions@.len() == 10,
        sum_active_collateral(positions@) <= u64::MAX / 10000,
        sum_active_debt(positions@) <= u64::MAX,
    ensures
        r.total_collateral == sum_active_collateral(positions@),
        r.total_debt == sum_active_debt(positions@),
        r.positions_at_risk == count_at_risk(positions@, risk_threshold_bps),
        r.weighted_health == health_factor_bps_of(
            sum_active_collateral(positions@),
            sum_active_debt(positions@),
        ),
{
    let mut total_collateral: u64 = 0;
    let mut total_debt: u64 = 0;
    let mut positions_at_risk: u8 = 0;
    let mut i: usize = 0;
    while i < 10
        invariant
            positions@.len() == 10,
            i <= 10,
            sum_active_collateral(positions@) <= u64::MAX / 10000,
            sum_active_debt(positions@) <= u64::MAX,
            total_collateral == sum_active_collateral(positions@.take(i as int)),
            total_debt == sum_active_debt(positions@.take(i as int)),
            positions_at_risk == count_at_risk(positions@.take(i as int), risk_threshold_bps),
            positions_at_risk <= i,
        decreases 10 - i,
    {
        proof {
            assert(positions@.take(i + 1).drop_last() =~= positions@.take(i as int));
            assert(positions@.take(i + 1).last() == positions@[i as int]);
            lemma_batch_prefix_bounds(positions@, risk_threshold_bps, i + 1);
        }
        if positions[i].debt_usd > 0 {
            total_collateral = total_collateral + positions[i].collateral_usd;
            total_debt = total_debt + positions[i].debt_usd;
            if positions[i].health_factor_bps < risk_threshold_bps {
                positions_at_risk = positions_at_risk + 1;
            }
        }
        i = i + 1;
    }
    proof {
        assert(positions@.take(10) =~= positions@);
    }
    let weighted_health = if total_debt > 0 {
        (total_collateral * 10000) / total_debt
    } else {
        10000
    };
    AggregatedRiskMetrics { total_collateral, total_debt, weighted_health, positions_at_risk }
}

/// Orders on different tokens never match, whatever their other terms.
pub proof fn lemma_mismatched_tokens_never_match(buy: DarkPoolOrder, sell: DarkPoolOrder)
    requires
        buy.token_mint@ != sell.token_mint@,
    ensures
        !orders_matched(buy, sell),
{
}

/// Matching is symmetric under exchanging the two orders while each keeps its
/// own side and limit price: the buy keeps its role. A bare exchange of the
/// orders is not symmetric, since the side constraint (buy 0, sell 1) and the
/// price direction would flip.
pub proof fn lemma_match_symmetry(buy: DarkPoolOrder, sell: DarkPoolOrder)
    ensures
        orders_matched(buy, sell) == orders_matched(
            (DarkPoolOrder { side: buy.side, limit_price: buy.limit_price, ..sell }),
            (DarkPoolOrder { side: sell.side, limit_price: sell.limit_price, ..buy }),
        ),
{
}

} // verus!
