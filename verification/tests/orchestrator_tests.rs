use sentinel_mpc::circuits::{init_encrypted_position, update_health_factor, EncryptedPosition};
use sentinel_mpc::errors::ErrorCode;
use sentinel_mpc::events::DomainEvent;
use sentinel_mpc::orchestrator::{ComputationOutputs, JobState, Orchestrator};

fn ready() -> Orchestrator {
    let mut orch = Orchestrator::new();
    orch.configure_cluster();
    orch
}

#[test]
fn error_messages_name_their_failure() {
    assert_eq!(ErrorCode::AbortedComputation.message(), "Computation was aborted");
    assert_eq!(ErrorCode::ClusterNotSet.message(), "Cluster not configured");
    assert_eq!(ErrorCode::InvalidPositionState.message(), "Invalid position state");
    assert_eq!(ErrorCode::OrderExpired.message(), "Order expired");
    assert_eq!(ErrorCode::InsufficientLiquidity.message(), "Insufficient liquidity");
    assert_eq!(ErrorCode::SlippageExceeded.message(), "Slippage exceeded");
    assert_eq!(
        ErrorCode::DuplicateComputation.message(),
        "Duplicate computation for correlation id"
    );
    assert_eq!(
        ErrorCode::DuplicateCallback.message(),
        "Duplicate callback for terminal job"
    );
    assert_eq!(
        ErrorCode::InvalidOraclePrice.message(),
        "Oracle price must be positive"
    );
}

#[test]
fn submission_needs_a_configured_cluster() {
    let mut orch = Orchestrator::new();
    let r = orch.init_encrypted_position(1, [1u8; 32], 0);
    assert_eq!(r, Err(ErrorCode::ClusterNotSet));
    assert!(orch.jobs.is_empty());
    assert!(orch.events.is_empty());
}

#[test]
fn submission_records_a_pending_job() {
    let mut orch = ready();
    assert_eq!(orch.init_encrypted_position(7, [1u8; 32], 2), Ok(()));
    assert_eq!(orch.jobs.len(), 1);
    assert_eq!(orch.jobs[0].correlation_id, 7);
    assert_eq!(orch.jobs[0].state, JobState::Pending);
    assert!(orch.events.is_empty());
}

#[test]
fn pending_correlation_ids_are_unique_per_circuit() {
    let mut orch = ready();
    assert_eq!(orch.prove_health_threshold(7, 12000), Ok(()));
    assert_eq!(
        orch.prove_health_threshold(7, 15000),
        Err(ErrorCode::DuplicateComputation)
    );
    // the same correlation id is free for a different circuit.
    assert_eq!(orch.batch_health_check(7, 10), Ok(()));
    assert_eq!(orch.jobs.len(), 2);
}

#[test]
fn completed_callback_stores_record_and_emits_one_event() {
    let mut orch = ready();
    assert_eq!(orch.init_encrypted_position(1, [5u8; 32], 2), Ok(()));
    let record = init_encrypted_position([5u8; 32], 2);
    let r = orch.init_encrypted_position_callback(1, ComputationOutputs::Success(record), 99);
    assert_eq!(r, Ok(()));
    assert_eq!(orch.jobs[0].state, JobState::Completed);
    assert_eq!(orch.positions.get(&[5u8; 32]), Some(record));
    assert_eq!(orch.events.len(), 1);
    match orch.events[0] {
        DomainEvent::PositionInitialized(e) => assert_eq!(e.timestamp, 99),
        ref other => panic!("unexpected event {:?}", other),
    }
}

#[test]
fn aborted_callback_retires_job_without_side_effects() {
    let mut orch = ready();
    assert_eq!(orch.init_encrypted_position(1, [5u8; 32], 2), Ok(()));
    let r = orch.init_encrypted_position_callback(
        1,
        ComputationOutputs::<EncryptedPosition>::Aborted,
        99,
    );
    assert_eq!(r, Err(ErrorCode::AbortedComputation));
    assert_eq!(orch.jobs[0].state, JobState::Aborted);
    assert_eq!(orch.positions.get(&[5u8; 32]), None);
    assert!(orch.events.is_empty());
}

#[test]
fn second_callback_for_terminal_job_is_rejected() {
    let mut orch = ready();
    assert_eq!(orch.prove_health_threshold(3, 12000), Ok(()));
    assert_eq!(
        orch.prove_health_threshold_callback(3, ComputationOutputs::Success(true), 10),
        Ok(())
    );
    let events_before = orch.events.clone();
    let jobs_before = orch.jobs.clone();
    // the replay must be rejected without touching state or re-emitting.
    let r = orch.prove_health_threshold_callback(3, ComputationOutputs::Success(false), 11);
    assert_eq!(r, Err(ErrorCode::DuplicateCallback));
    assert_eq!(orch.events, events_before);
    assert_eq!(orch.jobs.len(), jobs_before.len());
    assert_eq!(orch.jobs[0].state, JobState::Completed);
}

#[test]
fn callback_for_unknown_correlation_id_is_rejected() {
    let mut orch = ready();
    let r = orch.match_dark_pool_orders_callback(42, ComputationOutputs::Success(true), 5);
    assert_eq!(r, Err(ErrorCode::DuplicateCallback));
    assert!(orch.events.is_empty());
}

#[test]
fn callback_must_name_the_job_of_its_own_circuit() {
    let mut orch = ready();
    assert_eq!(orch.prove_health_threshold(3, 12000), Ok(()));
    // a swap callback under the threshold job's correlation id names no
    // pending swap job.
    let r = orch.execute_private_swap_callback(3, ComputationOutputs::Success(true), 5);
    assert_eq!(r, Err(ErrorCode::DuplicateCallback));
    assert_eq!(orch.jobs[0].state, JobState::Pending);
}

#[test]
fn resubmission_after_two_completions_leaves_latest_record() {
    // two initialisations of the same domain id under distinct correlation
    // ids both complete; the store reflects only the most recent write.
    let mut orch = ready();
    let id = [8u8; 32];
    assert_eq!(orch.init_encrypted_position(1, id, 0), Ok(()));
    assert_eq!(orch.init_encrypted_position(2, id, 0), Ok(()));
    let first = init_encrypted_position(id, 0);
    let second = update_health_factor(first, 15000, 10000);
    assert_eq!(
        orch.init_encrypted_position_callback(1, ComputationOutputs::Success(first), 10),
        Ok(())
    );
    assert_eq!(
        orch.init_encrypted_position_callback(2, ComputationOutputs::Success(second), 11),
        Ok(())
    );
    assert_eq!(orch.jobs[0].state, JobState::Completed);
    assert_eq!(orch.jobs[1].state, JobState::Completed);
    assert_eq!(orch.positions.get(&id), Some(second));
    assert_eq!(orch.events.len(), 2);
}

#[test]
fn each_revealing_callback_emits_its_event() {
    let mut orch = ready();
    assert_eq!(orch.update_health_factor(1, [1u8; 32]), Ok(()));
    assert_eq!(orch.init_dark_pool_order(2, [2u8; 32], 0, 100), Ok(()));
    assert_eq!(orch.match_dark_pool_orders(3, [2u8; 32], [3u8; 32]), Ok(()));
    assert_eq!(orch.execute_private_swap(4, [4u8; 32], 50), Ok(()));
    assert_eq!(orch.batch_health_check(5, 10), Ok(()));
    assert_eq!(orch.calculate_liquidation_risk(6, [1u8; 32], 500), Ok(()));

    let record = update_health_factor(init_encrypted_position([1u8; 32], 0), 12000, 10000);
    assert_eq!(
        orch.update_health_factor_callback(1, ComputationOutputs::Success(record), 1),
        Ok(())
    );
    let order = sentinel_mpc::circuits::init_dark_pool_order([2u8; 32], 0, 100);
    assert_eq!(
        orch.init_dark_pool_order_callback(2, ComputationOutputs::Success(order), 2),
        Ok(())
    );
    assert_eq!(
        orch.match_dark_pool_orders_callback(3, ComputationOutputs::Success(false), 3),
        Ok(())
    );
    assert_eq!(
        orch.execute_private_swap_callback(4, ComputationOutputs::Success(true), 4),
        Ok(())
    );
    assert_eq!(
        orch.batch_health_check_callback(5, ComputationOutputs::Success(2), 5),
        Ok(())
    );
    assert_eq!(
        orch.calculate_liquidation_risk_callback(6, ComputationOutputs::Success(1), 6),
        Ok(())
    );

    assert_eq!(orch.positions.get(&[1u8; 32]), Some(record));
    assert_eq!(orch.orders.get(&[2u8; 32]), Some(order));
    assert_eq!(orch.events.len(), 6);
    match orch.events[0] {
        DomainEvent::HealthFactorUpdated(e) => assert_eq!(e.timestamp, 1),
        ref other => panic!("unexpected event {:?}", other),
    }
    match orch.events[1] {
        DomainEvent::DarkPoolOrderCreated(e) => assert_eq!(e.timestamp, 2),
        ref other => panic!("unexpected event {:?}", other),
    }
    match orch.events[2] {
        DomainEvent::DarkPoolOrdersMatched(e) => {
            assert!(!e.is_matched);
            assert_eq!(e.timestamp, 3);
        }
        ref other => panic!("unexpected event {:?}", other),
    }
    match orch.events[3] {
        DomainEvent::PrivateSwapExecuted(e) => {
            assert!(e.success);
            assert_eq!(e.timestamp, 4);
        }
        ref other => panic!("unexpected event {:?}", other),
    }
    match orch.events[4] {
        DomainEvent::BatchHealthChecked(e) => {
            assert_eq!(e.at_risk_count, 2);
            assert_eq!(e.timestamp, 5);
        }
        ref other => panic!("unexpected event {:?}", other),
    }
    match orch.events[5] {
        DomainEvent::LiquidationRiskCalculated(e) => {
            assert_eq!(e.risk_level, 1);
            assert_eq!(e.timestamp, 6);
        }
        ref other => panic!("unexpected event {:?}", other),
    }
}

#[test]
fn correlation_id_can_be_reused_after_retirement() {
    let mut orch = ready();
    assert_eq!(orch.prove_health_threshold(9, 12000), Ok(()));
    assert_eq!(
        orch.prove_health_threshold_callback(9, ComputationOutputs::Success(true), 1),
        Ok(())
    );
    // the id is no longer pending, so the caller may resubmit under it.
    assert_eq!(orch.prove_health_threshold(9, 13000), Ok(()));
    assert_eq!(orch.jobs.len(), 2);
    assert_eq!(orch.jobs[1].state, JobState::Pending);
    assert_eq!(
        orch.prove_health_threshold_callback(9, ComputationOutputs::Success(false), 2),
        Ok(())
    );
    assert_eq!(orch.jobs[1].state, JobState::Completed);
}
