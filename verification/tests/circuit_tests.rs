use sentinel_mpc::circuits::{
    aggregate_portfolio_risk, batch_health_check, calculate_execution_price,
    calculate_liquidation_risk, compute_optimal_rebalance, execute_private_swap,
    init_dark_pool_order, init_encrypted_position, init_swap_intent, match_dark_pool_orders,
    prove_health_threshold, prove_no_front_running, update_dark_pool_order, update_health_factor,
    update_position_data, update_swap_intent, verify_swap_fairness, DarkPoolOrder,
    EncryptedPosition, SwapIntent,
};
use sentinel_mpc::errors::ErrorCode;

fn position(collateral: u64, debt: u64, health: u64) -> EncryptedPosition {
    EncryptedPosition {
        collateral_usd: collateral,
        debt_usd: debt,
        health_factor_bps: health,
        leverage_bps: 10000,
        liquidation_price: 0,
        protocol_id: 1,
        last_updated: 0,
    }
}

fn order(side: u8, token: u8, amount: u64, limit: u64, min_fill: u64) -> DarkPoolOrder {
    DarkPoolOrder {
        side,
        token_mint: [token; 32],
        amount,
        limit_price: limit,
        min_fill_amount: min_fill,
        expires_at: 1_000,
    }
}

#[test]
fn fresh_position_is_maximally_healthy() {
    let p = init_encrypted_position([7u8; 32], 3);
    assert_eq!(p.collateral_usd, 0);
    assert_eq!(p.debt_usd, 0);
    assert_eq!(p.health_factor_bps, 10000);
    assert_eq!(p.leverage_bps, 10000);
    assert_eq!(p.liquidation_price, 0);
    assert_eq!(p.protocol_id, 3);
    assert_eq!(p.last_updated, 0);
}

#[test]
fn update_position_data_supersedes_stored() {
    let stored = init_encrypted_position([1u8; 32], 1);
    let incoming = position(500, 100, 50000);
    assert_eq!(update_position_data(incoming, stored), incoming);
}

#[test]
fn health_factor_truncates() {
    let p = update_health_factor(init_encrypted_position([0u8; 32], 0), 15000, 10000);
    assert_eq!(p.health_factor_bps, 15000);
    assert_eq!(p.leverage_bps, 6666);
    let p = update_health_factor(p, 10001, 10000);
    assert_eq!(p.health_factor_bps, 10001);
    let p = update_health_factor(p, 9999, 10000);
    assert_eq!(p.health_factor_bps, 9999);
}

#[test]
fn health_factor_defaults_without_debt() {
    let p = update_health_factor(init_encrypted_position([0u8; 32], 0), 123456, 0);
    assert_eq!(p.health_factor_bps, 10000);
    assert_eq!(p.leverage_bps, 10000);
    assert_eq!(p.collateral_usd, 123456);
    assert_eq!(p.debt_usd, 0);
}

#[test]
fn threshold_proof_reveals_only_comparison() {
    let p = position(15000, 10000, 15000);
    assert!(prove_health_threshold(p, 15000));
    assert!(prove_health_threshold(p, 12000));
    assert!(!prove_health_threshold(p, 15001));
}

#[test]
fn liquidation_risk_scenario() {
    // collateral 15000 against debt 10000 gives health 15000; a 1000 bps
    // price impact leaves 14000, which is tier 1.
    let p = update_health_factor(init_encrypted_position([0u8; 32], 0), 15000, 10000);
    assert_eq!(p.health_factor_bps, 15000);
    assert_eq!(calculate_liquidation_risk(p, 1000), 1);
}

#[test]
fn liquidation_risk_tier_boundaries() {
    let at = |health: u64| calculate_liquidation_risk(position(0, 1, health), 0);
    assert_eq!(at(15000), 0);
    assert_eq!(at(14999), 1);
    assert_eq!(at(12500), 1);
    assert_eq!(at(12499), 2);
    assert_eq!(at(11000), 2);
    assert_eq!(at(10999), 3);
    assert_eq!(at(10500), 3);
    assert_eq!(at(10499), 4);
    assert_eq!(at(0), 4);
}

#[test]
fn liquidation_risk_floors_at_zero() {
    // impact larger than the health factor floors the adjusted health at 0.
    assert_eq!(calculate_liquidation_risk(position(0, 1, 9000), 20000), 4);
}

#[test]
fn batch_health_check_skips_debtless_positions() {
    let mut batch = vec![position(0, 0, 5000); 10];
    batch[1] = position(100, 100, 9000);
    batch[2] = position(100, 100, 12000);
    batch[3] = position(100, 100, 8000);
    // positions without debt sit below the threshold but are not counted.
    assert_eq!(batch_health_check(&batch, 10000), 2);
    assert_eq!(batch_health_check(&batch, 8000), 0);
}

#[test]
fn fresh_order_has_only_side_and_expiry() {
    let o = init_dark_pool_order([9u8; 32], 1, 777);
    assert_eq!(o.side, 1);
    assert_eq!(o.token_mint, [0u8; 32]);
    assert_eq!(o.amount, 0);
    assert_eq!(o.limit_price, 0);
    assert_eq!(o.min_fill_amount, 0);
    assert_eq!(o.expires_at, 777);
}

#[test]
fn update_dark_pool_order_supersedes_stored() {
    let stored = init_dark_pool_order([9u8; 32], 1, 777);
    let incoming = order(0, 5, 10, 20, 1);
    assert_eq!(update_dark_pool_order(incoming, stored), incoming);
}

#[test]
fn matching_scenario() {
    // buy limit 100 / min fill 10 / amount 50 against sell limit 90 /
    // min fill 20 / amount 60 on the same token: matched, priced at the
    // midpoint 95, filled at the smaller amount 50.
    let buy = order(0, 1, 50, 100, 10);
    let sell = order(1, 1, 60, 90, 20);
    assert!(match_dark_pool_orders(buy, sell));
    let result = calculate_execution_price(buy, sell);
    assert!(result.is_matched);
    assert_eq!(result.execution_price, 95);
    assert_eq!(result.fill_amount, 50);
}

#[test]
fn mismatched_tokens_never_match() {
    let buy = order(0, 1, 50, 100, 10);
    let sell = order(1, 2, 60, 90, 20);
    assert!(!match_dark_pool_orders(buy, sell));
}

#[test]
fn sides_must_be_buy_against_sell() {
    let buy = order(0, 1, 50, 100, 10);
    let sell = order(1, 1, 60, 90, 20);
    // handing the orders over in exchanged roles flips the side constraint
    // and the price direction: no match.
    assert!(!match_dark_pool_orders(sell, buy));
    // exchanging every term except each order's side and limit price keeps
    // the match.
    let swapped_buy = DarkPoolOrder { side: buy.side, limit_price: buy.limit_price, ..sell };
    let swapped_sell = DarkPoolOrder { side: sell.side, limit_price: sell.limit_price, ..buy };
    assert!(match_dark_pool_orders(swapped_buy, swapped_sell));
}

#[test]
fn insufficient_amounts_do_not_match() {
    // the sell's minimum fill exceeds the buy's amount.
    let buy = order(0, 1, 15, 100, 10);
    let sell = order(1, 1, 60, 90, 20);
    assert!(!match_dark_pool_orders(buy, sell));
}

#[test]
fn fresh_intent_defaults_slippage_cap() {
    let intent = init_swap_intent([4u8; 32]);
    assert_eq!(intent.max_slippage_bps, 50);
    assert_eq!(intent.amount_in, 0);
    assert_eq!(intent.min_amount_out, 0);
    assert_eq!(intent.deadline, 0);
    assert_eq!(intent.from_token, [0u8; 32]);
    assert_eq!(intent.to_token, [0u8; 32]);
}

#[test]
fn update_swap_intent_supersedes_stored() {
    let stored = init_swap_intent([4u8; 32]);
    let incoming = SwapIntent {
        from_token: [1u8; 32],
        to_token: [2u8; 32],
        amount_in: 100,
        min_amount_out: 95,
        max_slippage_bps: 30,
        deadline: 500,
    };
    assert_eq!(update_swap_intent(incoming, stored), incoming);
}

#[test]
fn private_swap_checks_output_and_slippage_cap() {
    let mut intent = init_swap_intent([4u8; 32]);
    intent.min_amount_out = 95;
    assert!(execute_private_swap(intent, 95, 50));
    assert!(!execute_private_swap(intent, 94, 50));
    // the intent's own cap must sit within the caller's cap.
    assert!(!execute_private_swap(intent, 95, 49));
}

#[test]
fn swap_fairness_deviation() {
    let intent = init_swap_intent([4u8; 32]);
    // |9900 - 10000| * 10000 / 10000 = 100 bps deviation.
    assert_eq!(verify_swap_fairness(intent, 10000, 9900, 100), Ok(true));
    assert_eq!(verify_swap_fairness(intent, 10000, 9900, 99), Ok(false));
    assert_eq!(verify_swap_fairness(intent, 10000, 10100, 100), Ok(true));
}

#[test]
fn swap_fairness_rejects_zero_oracle_price() {
    let intent = init_swap_intent([4u8; 32]);
    assert_eq!(
        verify_swap_fairness(intent, 0, 9900, 100),
        Err(ErrorCode::InvalidOraclePrice)
    );
}

#[test]
fn rebalance_is_zero_at_or_above_target() {
    let p = position(15000, 10000, 15000);
    assert_eq!(compute_optimal_rebalance(p, 15000), 0);
    assert_eq!(compute_optimal_rebalance(p, 12000), 0);
}

#[test]
fn rebalance_tops_up_to_target() {
    // lifting health from 15000 to 20000 bps on debt 10000 requires
    // collateral 20000, i.e. 5000 more.
    let p = position(15000, 10000, 15000);
    assert_eq!(compute_optimal_rebalance(p, 20000), 5000);
}

#[test]
fn front_running_proof_checks_deadline_and_delay() {
    let mut intent = init_swap_intent([4u8; 32]);
    intent.deadline = 1_000;
    assert!(prove_no_front_running(intent, 900, 950, 60));
    assert!(!prove_no_front_running(intent, 900, 1_001, 200));
    assert!(!prove_no_front_running(intent, 900, 990, 60));
}

#[test]
fn aggregate_scenario() {
    // ten positions, three of them without debt (skipped); the seven active
    // ones sum to collateral 70000 against debt 50000: weighted health 14000.
    let mut batch = Vec::new();
    for _ in 0..3 {
        batch.push(position(9999, 0, 10000));
    }
    for _ in 0..6 {
        batch.push(position(10000, 7000, 14285));
    }
    batch.push(position(10000, 8000, 12500));
    let metrics = aggregate_portfolio_risk(&batch, 13000);
    assert_eq!(metrics.total_collateral, 70000);
    assert_eq!(metrics.total_debt, 50000);
    assert_eq!(metrics.weighted_health, 14000);
    assert_eq!(metrics.positions_at_risk, 1);
}

#[test]
fn aggregate_of_debtless_batch_is_healthy() {
    let batch = vec![position(5000, 0, 10000); 10];
    let metrics = aggregate_portfolio_risk(&batch, 10000);
    assert_eq!(metrics.total_collateral, 0);
    assert_eq!(metrics.total_debt, 0);
    assert_eq!(metrics.weighted_health, 10000);
    assert_eq!(metrics.positions_at_risk, 0);
}
