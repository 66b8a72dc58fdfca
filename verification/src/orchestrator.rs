//! The computation request orchestrator and callback dispatcher.
//!
//! A submission records a pending job under a caller-chosen correlation id
//! (unique among the pending jobs of its circuit) and returns at once; the
//! MPC cluster later delivers exactly one callback for it. The dispatcher
//! validates that the callback names a pending job of the right circuit,
//! applies the domain side effect (a record store write, or a revealed value
//! carried on an event), emits exactly one event, and retires the job. A
//! callback that names no pending job — in particular a second callback for
//! an already-terminal job — is rejected without any side effect.

use vstd::pervasive::VecAdditionalExecFns;
use vstd::prelude::*;

use crate::circuits::{DarkPoolOrder, EncryptedPosition};
use crate::errors::ErrorCode;
use crate::events::{
    BatchHealthChecked, DarkPoolOrderCreated, DarkPoolOrdersMatched, DomainEvent,
    HealthFactorUpdated, HealthThresholdProved, LiquidationRiskCalculated, PositionInitialized,
    PrivateSwapExecuted,
};
use crate::store::RecordStore;

verus! {

/// The circuits a request can name.
#[derive(Clone, Copy, PartialEq, Eq, Structural, Debug)]
pub enum CircuitId {
    InitEncryptedPosition,
    UpdateHealthFactor,
    ProveHealthThreshold,
    InitDarkPoolOrder,
    MatchDarkPoolOrders,
    ExecutePrivateSwap,
    BatchHealthCheck,
    CalculateLiquidationRisk,
}

/// A job's lifecycle: pending from submission until its single callback
/// completes or aborts it; both outcomes are terminal.
#[derive(Clone, Copy, PartialEq, Eq, Structural, Debug)]
pub enum JobState {
    Pending,
    Completed,
    Aborted,
}

/// The plaintext arguments a submission carries, tagged by circuit.
#[derive(Clone, Copy, Debug)]
pub enum CircuitArgs {
    InitEncryptedPosition { position_id: [u8; 32], protocol: u8 },
    UpdateHealthFactor { position_id: [u8; 32] },
    ProveHealthThreshold { threshold_bps: u64 },
    InitDarkPoolOrder { order_id: [u8; 32], side: u8, expires_at: i64 },
    MatchDarkPoolOrders { buy_order_id: [u8; 32], sell_order_id: [u8; 32] },
    ExecutePrivateSwap { intent_id: [u8; 32], max_slippage_bps: u64 },
    BatchHealthCheck { position_count: u8 },
    CalculateLiquidationRisk { position_id: [u8; 32], price_impact_bps: u64 },
}

/// The circuit an argument bundle belongs to.
pub open spec fn circuit_of(args: CircuitArgs) -> CircuitId {
    match args {
        CircuitArgs::InitEncryptedPosition { .. } => CircuitId::InitEncryptedPosition,
        CircuitArgs::UpdateHealthFactor { .. } => CircuitId::UpdateHealthFactor,
        CircuitArgs::ProveHealthThreshold { .. } => CircuitId::ProveHealthThreshold,
        CircuitArgs::InitDarkPoolOrder { .. } => CircuitId::InitDarkPoolOrder,
        CircuitArgs::MatchDarkPoolOrders { .. } => CircuitId::MatchDarkPoolOrders,
        CircuitArgs::ExecutePrivateSwap { .. } => CircuitId::ExecutePrivateSwap,
        CircuitArgs::BatchHealthCheck { .. } => CircuitId::BatchHealthCheck,
        CircuitArgs::CalculateLiquidationRisk { .. } => CircuitId::CalculateLiquidationRisk,
    }
}

/// The circuit an argument bundle belongs to, computed at run time.
pub fn circuit_id_of(args: &CircuitArgs) -> (c: CircuitId)
    ensures
        c == circuit_of(*args),
{
    match args {
        CircuitArgs::InitEncryptedPosition { .. } => CircuitId::InitEncryptedPosition,
        CircuitArgs::UpdateHealthFactor { .. } => CircuitId::UpdateHealthFactor,
        CircuitArgs::ProveHealthThreshold { .. } => CircuitId::ProveHealthThreshold,
        CircuitArgs::InitDarkPoolOrder { .. } => CircuitId::InitDarkPoolOrder,
        CircuitArgs::MatchDarkPoolOrders { .. } => CircuitId::MatchDarkPoolOrders,
        CircuitArgs::ExecutePrivateSwap { .. } => CircuitId::ExecutePrivateSwap,
        CircuitArgs::BatchHealthCheck { .. } => CircuitId::BatchHealthCheck,
        CircuitArgs::CalculateLiquidationRisk { .. } => CircuitId::CalculateLiquidationRisk,
    }
}

/// One asynchronous computation job.
#[derive(Clone, Copy, Debug)]
pub struct Job {
    pub correlation_id: u64,
    pub args: CircuitArgs,
    pub state: JobState,
}

impl Job {
    pub open spec fn circuit(self) -> CircuitId {
        circuit_of(self.args)
    }

    pub open spec fn is_pending(self) -> bool {
        self.state is Pending
    }
}

/// Whether a job is the pending job of this circuit and correlation id.
pub open spec fn pending_match(j: Job, c: CircuitId, correlation_id: u64) -> bool {
    j.circuit() == c && j.correlation_id == correlation_id && j.is_pending()
}

/// Among pending jobs, a correlation id is unique per circuit.
pub open spec fn at_most_one_pending(jobs: Seq<Job>) -> bool {
    forall|i: int, j: int|
        0 <= i < jobs.len() && 0 <= j < jobs.len() && i != j && #[trigger] jobs[i].is_pending()
            && #[trigger] jobs[j].is_pending() && jobs[i].circuit() == jobs[j].circuit()
            ==> jobs[i].correlation_id != jobs[j].correlation_id
}

/// What the MPC cluster reports back for a job: the typed result, or that the
/// computation was aborted.
#[derive(Clone, Copy, Debug)]
pub enum ComputationOutputs<T> {
    Success(T),
    Aborted,
}

/// The orchestrating program's whole state: cluster configuration, the job
/// ledger, the confidential record store, and the event sink's log.
pub struct Orchestrator {
    pub cluster_set: bool,
    pub jobs: Vec<Job>,
    pub positions: RecordStore<EncryptedPosition>,
    pub orders: RecordStore<DarkPoolOrder>,
    pub events: Vec<DomainEvent>,
}

impl Orchestrator {
    pub open spec fn wf(self) -> bool {
        &&& self.positions.wf()
        &&& self.orders.wf()
        &&& at_most_one_pending(self.jobs@)
    }

    /// There is a pending job of this circuit under this correlation id.
    pub open spec fn has_pending(self, c: CircuitId, correlation_id: u64) -> bool {
        exists|i: int|
            0 <= i < self.jobs@.len() && pending_match(#[trigger] self.jobs@[i], c, correlation_id)
    }

    /// Both record stores hold the same maps.
    pub open spec fn records_eq(self, other: Self) -> bool {
        &&& self.positions@ == other.positions@
        &&& self.orders@ == other.orders@
    }

    /// Nothing observable differs.
    pub open spec fn state_eq(self, other: Self) -> bool {
        &&& self.cluster_set == other.cluster_set
        &&& self.jobs@ == other.jobs@
        &&& self.records_eq(other)
        &&& self.events@ == other.events@
    }

    /// A fresh orchestrator: no cluster, no jobs, empty stores, empty log.
    pub fn new() -> (r: Self)
        ensures
            r.wf(),
            !r.cluster_set,
            r.jobs@ == Seq::<Job>::empty(),
            r.positions@ == Map::<Seq<u8>, EncryptedPosition>::empty(),
            r.orders@ == Map::<Seq<u8>, DarkPoolOrder>::empty(),
            r.events@ == Seq::<DomainEvent>::empty(),
    {
        let r = Orchestrator {
            cluster_set: false,
            jobs: Vec::new(),
            positions: RecordStore::new(),
            orders: RecordStore::new(),
            events: Vec::new(),
        };
        proof {
            assert(r.jobs@ =~= Seq::<Job>::empty());
            assert(r.events@ =~= Seq::<DomainEvent>::empty());
        }
        r
    }

    /// Marks the MPC cluster as configured for this submitting context; until
    /// then every submission fails with `ClusterNotSet`.
    pub fn configure_cluster(&mut self)
        requires
            old(self).wf(),
        ensures
            final(self).wf(),
            final(self).cluster_set,
            final(self).jobs@ == old(self).jobs@,
            final(self).records_eq(*old(self)),
            final(self).events@ == old(self).events@,
    {
        self.cluster_set = true;
    }

    /// Records a pending job and returns without waiting for its result.
    #[verifier::loop_isolation(false)]
    pub fn submit(&mut self, correlation_id: u64, args: CircuitArgs) -> (r: Result<(), ErrorCode>)
        requires
            old(self).wf(),
        ensures
            final(self).wf(),
            submit_outcome(*old(self), *final(self), correlation_id, args, r),
    {
        if !self.cluster_set {
            return Err(ErrorCode::ClusterNotSet);
        }
        let c = circuit_id_of(&args);
        let n = self.jobs.len();
        let mut i: usize = 0;
        while i < n
            invariant
                n == self.jobs@.len(),
                i <= n,
                c == circuit_of(args),
                forall|k: int|
                    0 <= k < i ==> !pending_match(#[trigger] self.jobs@[k], c, correlation_id),
            decreases n - i,
        {
            let j = &self.jobs[i];
            if matches!(j.state, JobState::Pending) && j.correlation_id == correlation_id
                && circuit_id_of(&j.args) == c {
                return Err(ErrorCode::DuplicateComputation);
            }
            i = i + 1;
        }
        let ghost pre_jobs = self.jobs@;
        self.jobs.push(Job { correlation_id, args, state: JobState::Pending });
        proof {
            assert forall|x: int, y: int|
                0 <= x < self.jobs@.len() && 0 <= y < self.jobs@.len() && x != y
                    && #[trigger] self.jobs@[x].is_pending() && #[trigger] self.jobs@[y].is_pending()
                    && self.jobs@[x].circuit() == self.jobs@[y].circuit() implies self.jobs@[x].correlation_id
                != self.jobs@[y].correlation_id by {
                if x < pre_jobs.len() && y < pre_jobs.len() {
                    assert(pre_jobs[x] == self.jobs@[x]);
                    assert(pre_jobs[y] == self.jobs@[y]);
                } else if y == pre_jobs.len() {
                    assert(!pending_match(pre_jobs[x], c, correlation_id));
                } else {
                    assert(!pending_match(pre_jobs[y], c, correlation_id));
                }
            }
        }
        Ok(())
    }

    /// Looks up the pending job of this circuit and correlation id, if any.
    #[verifier::loop_isolation(false)]
    fn find_pending(&self, c: CircuitId, correlation_id: u64) -> (r: Option<usize>)
        requires
            self.wf(),
        ensures
            r is None ==> !self.has_pending(c, correlation_id),
            r matches Some(i) ==> i < self.jobs@.len() && pending_match(
                self.jobs@[i as int],
                c,
                correlation_id,
            ) && (forall|k: int|
                0 <= k < self.jobs@.len() && #[trigger] pending_match(
                    self.jobs@[k],
                    c,
                    correlation_id,
                ) ==> k == i as int),
    {
        let n = self.jobs.len();
        let mut i: usize = 0;
        while i < n
            invariant
                self.wf(),
                n == self.jobs@.len(),
                i <= n,
                forall|k: int|
                    0 <= k < i ==> !pending_match(#[trigger] self.jobs@[k], c, correlation_id),
            decreases n - i,
        {
            let j = &self.jobs[i];
            if matches!(j.state, JobState::Pending) && j.correlation_id == correlation_id
                && circuit_id_of(&j.args) == c {
                proof {
                    assert(pending_match(self.jobs@[i as int], c, correlation_id));
                    assert forall|k: int|
                        0 <= k < self.jobs@.len() && #[trigger] pending_match(
                            self.jobs@[k],
                            c,
                            correlation_id,
                        ) implies k == i as int by {
                        if k != i as int {
                            assert(self.jobs@[k].is_pending());
                            assert(self.jobs@[i as int].is_pending());
                        }
                    }
                }
                return Some(i);
            }
            i = i + 1;
        }
        None
    }

    /// Retires the job at `i` into a terminal state, touching nothing else.
    fn retire(&mut self, i: usize, state: JobState)
        requires
            old(self).wf(),
            i < old(self).jobs@.len(),
            !(state is Pending),
        ensures
            final(self).wf(),
            final(self).jobs@ == old(self).jobs@.update(
                i as int,
                (Job { state, ..old(self).jobs@[i as int] }),
            ),
            final(self).cluster_set == old(self).cluster_set,
            final(self).records_eq(*old(self)),
            final(self).events@ == old(self).events@,
    {
        let job = self.jobs[i];
        self.jobs.set(i, Job { state, ..job });
        proof {
            lemma_retire_preserves_uniqueness(old(self).jobs@, i as int, (Job { state, ..job }));
        }
    }

    /// Queues the position-initialisation circuit.
    pub fn init_encrypted_position(
        &mut self,
        computation_offset: u64,
        position_id: [u8; 32],
        protocol: u8,
    ) -> (r: Result<(), ErrorCode>)
        requires
            old(self).wf(),
        ensures
            final(self).wf(),
            submit_outcome(
                *old(self),
                *final(self),
                computation_offset,
                (CircuitArgs::InitEncryptedPosition { position_id, protocol }),
                r,
            ),
    {
        self.submit(computation_offset, CircuitArgs::InitEncryptedPosition { position_id, protocol })
    }

    /// Queues the health-factor recomputation circuit for a position.
    pub fn update_health_factor(&mut self, computation_offset: u64, position_id: [u8; 32]) -> (r:
        Result<(), ErrorCode>)
        requires
            old(self).wf(),
        ensures
            final(self).wf(),
            submit_outcome(
                *old(self),
                *final(self),
                computation_offset,
                (CircuitArgs::UpdateHealthFactor { position_id }),
                r,
            ),
    {
        self.submit(computation_offset, CircuitArgs::UpdateHealthFactor { position_id })
    }

    /// Queues the health-threshold proof circuit.
    pub fn prove_health_threshold(&mut self, computation_offset: u64, threshold_bps: u64) -> (r:
        Result<(), ErrorCode>)
        requires
            old(self).wf(),
        ensures
            final(self).wf(),
            submit_outcome(
                *old(self),
                *final(self),
                computation_offset,
                (CircuitArgs::ProveHealthThreshold { threshold_bps }),
                r,
            ),
    {
        self.submit(computation_offset, CircuitArgs::ProveHealthThreshold { threshold_bps })
    }

    /// Queues the order-initialisation circuit.
    pub fn init_dark_pool_order(
        &mut self,
        computation_offset: u64,
        order_id: [u8; 32],
        side: u8,
        expires_at: i64,
    ) -> (r: Result<(), ErrorCode>)
        requires
            old(self).wf(),
        ensures
            final(self).wf(),
            submit_outcome(
                *old(self),
                *final(self),
                computation_offset,
                (CircuitArgs::InitDarkPoolOrder { order_id, side, expires_at }),
                r,
            ),
    {
        self.submit(computation_offset, CircuitArgs::InitDarkPoolOrder { order_id, side, expires_at })
    }

    /// Queues the order-matching circuit for a buy/sell pair.
    pub fn match_dark_pool_orders(
        &mut self,
        computation_offset: u64,
        buy_order_id: [u8; 32],
        sell_order_id: [u8; 32],
    ) -> (r: Result<(), ErrorCode>)
        requires
            old(self).wf(),
        ensures
            final(self).wf(),
            submit_outcome(
                *old(self),
                *final(self),
                computation_offset,
                (CircuitArgs::MatchDarkPoolOrders { buy_order_id, sell_order_id }),
                r,
            ),
    {
        self.submit(
            computation_offset,
            CircuitArgs::MatchDarkPoolOrders { buy_order_id, sell_order_id },
        )
    }

    /// Queues the private swap circuit for an intent.
    pub fn execute_private_swap(
        &mut self,
        computation_offset: u64,
        intent_id: [u8; 32],
        max_slippage_bps: u64,
    ) -> (r: Result<(), ErrorCode>)
        requires
            old(self).wf(),
        ensures
            final(self).wf(),
            submit_outcome(
                *old(self),
                *final(self),
                computation_offset,
                (CircuitArgs::ExecutePrivateSwap { intent_id, max_slippage_bps }),
                r,
            ),
    {
        self.submit(computation_offset, CircuitArgs::ExecutePrivateSwap { intent_id, max_slippage_bps })
    }

    /// Queues the batch health check circuit.
    pub fn batch_health_check(&mut self, computation_offset: u64, position_count: u8) -> (r: Result<
        (),
        ErrorCode,
    >)
        requires
            old(self).wf(),
        ensures
            final(self).wf(),
            submit_outcome(
                *old(self),
                *final(self),
                computation_offset,
                (CircuitArgs::BatchHealthCheck { position_count }),
                r,
            ),
    {
        self.submit(computation_offset, CircuitArgs::BatchHealthCheck { position_count })
    }

    /// Queues the liquidation-risk circuit for a position.
    pub fn calculate_liquidation_risk(
        &mut self,
        computation_offset: u64,
        position_id: [u8; 32],
        price_impact_bps: u64,
    ) -> (r: Result<(), ErrorCode>)
        requires
            old(self).wf(),
        ensures
            final(self).wf(),
            submit_outcome(
                *old(self),
                *final(self),
                computation_offset,
                (CircuitArgs::CalculateLiquidationRisk { position_id, price_impact_bps }),
                r,
            ),
    {
        self.submit(
            computation_offset,
            CircuitArgs::CalculateLiquidationRisk { position_id, price_impact_bps },
        )
    }

    /// Consumes the callback of a position-initialisation job: on success the
    /// delivered record is stored under the job's position id and one
    /// `PositionInitialized` event is emitted.
    pub fn init_encrypted_position_callback(
        &mut self,
        correlation_id: u64,
        output: ComputationOutputs<EncryptedPosition>,
        timestamp: i64,
    ) -> (r: Result<(), ErrorCode>)
        requires
            old(self).wf(),
        ensures
            final(self).wf(),
            !old(self).has_pending(CircuitId::InitEncryptedPosition, correlation_id)
                ==> rejects_callback(*old(self), *final(self), r),
            output is Aborted ==> forall|i: int|
                0 <= i < old(self).jobs@.len() && #[trigger] pending_match(
                    old(self).jobs@[i],
                    CircuitId::InitEncryptedPosition,
                    correlation_id,
                ) ==> aborts_job_at(*old(self), *final(self), i, r),
            forall|i: int|
                0 <= i < old(self).jobs@.len() && #[trigger] pending_match(
                    old(self).jobs@[i],
                    CircuitId::InitEncryptedPosition,
                    correlation_id,
                ) ==> (output matches ComputationOutputs::Success(position) ==> {
                    &&& r == Ok::<(), ErrorCode>(())
                    &&& completes_job_at(*old(self), *final(self), i)
                    &&& (old(self).jobs@[i].args matches CircuitArgs::InitEncryptedPosition {
                        position_id,
                        ..
                    } ==> final(self).positions@ == old(self).positions@.insert(
                        position_id@,
                        position,
                    ))
                    &&& final(self).orders@ == old(self).orders@
                    &&& final(self).events@ == old(self).events@.push(
                        DomainEvent::PositionInitialized((PositionInitialized { timestamp })),
                    )
                }),
    {
        let idx = self.find_pending(CircuitId::InitEncryptedPosition, correlation_id);
        match idx {
            None => Err(ErrorCode::DuplicateCallback),
            Some(i) => {
                match output {
                    ComputationOutputs::Aborted => {
                        self.retire(i, JobState::Aborted);
                        Err(ErrorCode::AbortedComputation)
                    },
                    ComputationOutputs::Success(position) => {
                        let job = self.jobs[i];
                        let position_id = match job.args {
                            CircuitArgs::InitEncryptedPosition { position_id, .. } => position_id,
                            _ => {
                                proof {
                                    assert(false);
                                }
                                [0u8; 32]
                            },
                        };
                        self.retire(i, JobState::Completed);
                        self.positions.put(position_id, position);
                        self.events.push(
                            DomainEvent::PositionInitialized(PositionInitialized { timestamp }),
                        );
                        Ok(())
                    },
                }
            },
        }
    }

    /// Consumes the callback of a health-factor update job: on success the
    /// recomputed record supersedes the stored one and one
    /// `HealthFactorUpdated` event is emitted.
    pub fn update_health_factor_callback(
        &mut self,
        correlation_id: u64,
        output: ComputationOutputs<EncryptedPosition>,
        timestamp: i64,
    ) -> (r: Result<(), ErrorCode>)
        requires
            old(self).wf(),
        ensures
            final(self).wf(),
            !old(self).has_pending(CircuitId::UpdateHealthFactor, correlation_id)
                ==> rejects_callback(*old(self), *final(self), r),
            output is Aborted ==> forall|i: int|
                0 <= i < old(self).jobs@.len() && #[trigger] pending_match(
                    old(self).jobs@[i],
                    CircuitId::UpdateHealthFactor,
                    correlation_id,
                ) ==> aborts_job_at(*old(self), *final(self), i, r),
            forall|i: int|
                0 <= i < old(self).jobs@.len() && #[trigger] pending_match(
                    old(self).jobs@[i],
                    CircuitId::UpdateHealthFactor,
                    correlation_id,
                ) ==> (output matches ComputationOutputs::Success(position) ==> {
                    &&& r == Ok::<(), ErrorCode>(())
                    &&& completes_job_at(*old(self), *final(self), i)
                    &&& (old(self).jobs@[i].args matches CircuitArgs::UpdateHealthFactor {
                        position_id,
                    } ==> final(self).positions@ == old(self).positions@.insert(
                        position_id@,
                        position,
                    ))
                    &&& final(self).orders@ == old(self).orders@
                    &&& final(self).events@ == old(self).events@.push(
                        DomainEvent::HealthFactorUpdated((HealthFactorUpdated { timestamp })),
                    )
                }),
    {
        let idx = self.find_pending(CircuitId::UpdateHealthFactor, correlation_id);
        match idx {
            None => Err(ErrorCode::DuplicateCallback),
            Some(i) => {
                match output {
                    ComputationOutputs::Aborted => {
                        self.retire(i, JobState::Aborted);
                        Err(ErrorCode::AbortedComputation)
                    },
                    ComputationOutputs::Success(position) => {
                        let job = self.jobs[i];
                        let position_id = match job.args {
                            CircuitArgs::UpdateHealthFactor { position_id } => position_id,
                            _ => {
                                proof {
                                    assert(false);
                                }
                                [0u8; 32]
                            },
                        };
                        self.retire(i, JobState::Completed);
                        self.positions.put(position_id, position);
                        self.events.push(
                            DomainEvent::HealthFactorUpdated(HealthFactorUpdated { timestamp }),
                        );
                        Ok(())
                    },
                }
            },
        }
    }

    /// Consumes the callback of a health-threshold proof job: on success only
    /// the revealed boolean is published, on a `HealthThresholdProved` event.
    pub fn prove_health_threshold_callback(
        &mut self,
        correlation_id: u64,
        output: ComputationOutputs<bool>,
        timestamp: i64,
    ) -> (r: Result<(), ErrorCode>)
        requires
            old(self).wf(),
        ensures
            final(self).wf(),
            !old(self).has_pending(CircuitId::ProveHealthThreshold, correlation_id)
                ==> rejects_callback(*old(self), *final(self), r),
            output is Aborted ==> forall|i: int|
                0 <= i < old(self).jobs@.len() && #[trigger] pending_match(
                    old(self).jobs@[i],
                    CircuitId::ProveHealthThreshold,
                    correlation_id,
                ) ==> aborts_job_at(*old(self), *final(self), i, r),
            forall|i: int|
                0 <= i < old(self).jobs@.len() && #[trigger] pending_match(
                    old(self).jobs@[i],
                    CircuitId::ProveHealthThreshold,
                    correlation_id,
                ) ==> (output matches ComputationOutputs::Success(is_healthy) ==> {
                    &&& r == Ok::<(), ErrorCode>(())
                    &&& completes_job_at(*old(self), *final(self), i)
                    &&& final(self).records_eq(*old(self))
                    &&& final(self).events@ == old(self).events@.push(
                        DomainEvent::HealthThresholdProved(
                            (HealthThresholdProved { is_healthy, timestamp }),
                        ),
                    )
                }),
    {
        let idx = self.find_pending(CircuitId::ProveHealthThreshold, correlation_id);
        match idx {
            None => Err(ErrorCode::DuplicateCallback),
            Some(i) => {
                match output {
                    ComputationOutputs::Aborted => {
                        self.retire(i, JobState::Aborted);
                        Err(ErrorCode::AbortedComputation)
                    },
                    ComputationOutputs::Success(is_healthy) => {
                        self.retire(i, JobState::Completed);
                        self.events.push(
                            DomainEvent::HealthThresholdProved(
                                HealthThresholdProved { is_healthy, timestamp },
                            ),
                        );
                        Ok(())
                    },
                }
            },
        }
    }

    /// Consumes the callback of an order-initialisation job: on success the
    /// delivered record is stored under the job's order id and one
    /// `DarkPoolOrderCreated` event is emitted.
    pub fn init_dark_pool_order_callback(
        &mut self,
        correlation_id: u64,
        output: ComputationOutputs<DarkPoolOrder>,
        timestamp: i64,
    ) -> (r: Result<(), ErrorCode>)
        requires
            old(self).wf(),
        ensures
            final(self).wf(),
            !old(self).has_pending(CircuitId::InitDarkPoolOrder, correlation_id)
                ==> rejects_callback(*old(self), *final(self), r),
            output is Aborted ==> forall|i: int|
                0 <= i < old(self).jobs@.len() && #[trigger] pending_match(
                    old(self).jobs@[i],
                    CircuitId::InitDarkPoolOrder,
                    correlation_id,
                ) ==> aborts_job_at(*old(self), *final(self), i, r),
            forall|i: int|
                0 <= i < old(self).jobs@.len() && #[trigger] pending_match(
                    old(self).jobs@[i],
                    CircuitId::InitDarkPoolOrder,
                    correlation_id,
                ) ==> (output matches ComputationOutputs::Success(order) ==> {
                    &&& r == Ok::<(), ErrorCode>(())
                    &&& completes_job_at(*old(self), *final(self), i)
                    &&& (old(self).jobs@[i].args matches CircuitArgs::InitDarkPoolOrder {
                        order_id,
                        ..
                    } ==> final(self).orders@ == old(self).orders@.insert(order_id@, order))
                    &&& final(self).positions@ == old(self).positions@
                    &&& final(self).events@ == old(self).events@.push(
                        DomainEvent::DarkPoolOrderCreated((DarkPoolOrderCreated { timestamp })),
                    )
                }),
    {
        let idx = self.find_pending(CircuitId::InitDarkPoolOrder, correlation_id);
        match idx {
            None => Err(ErrorCode::DuplicateCallback),
            Some(i) => {
                match output {
                    ComputationOutputs::Aborted => {
                        self.retire(i, JobState::Aborted);
                        Err(ErrorCode::AbortedComputation)
                    },
                    ComputationOutputs::Success(order) => {
                        let job = self.jobs[i];
                        let order_id = match job.args {
                            CircuitArgs::InitDarkPoolOrder { order_id, .. } => order_id,
                            _ => {
                                proof {
                                    assert(false);
                                }
                                [0u8; 32]
                            },
                        };
                        self.retire(i, JobState::Completed);
                        self.orders.put(order_id, order);
                        self.events.push(
                            DomainEvent::DarkPoolOrderCreated(DarkPoolOrderCreated { timestamp }),
                        );
                        Ok(())
                    },
                }
            },
        }
    }

    /// Consumes the callback of an order-matching job: on success only the
    /// revealed match flag is published, on a `DarkPoolOrdersMatched` event.
    pub fn match_dark_pool_orders_callback(
        &mut self,
        correlation_id: u64,
        output: ComputationOutputs<bool>,
        timestamp: i64,
    ) -> (r: Result<(), ErrorCode>)
        requires
            old(self).wf(),
        ensures
            final(self).wf(),
            !old(self).has_pending(CircuitId::MatchDarkPoolOrders, correlation_id)
                ==> rejects_callback(*old(self), *final(self), r),
            output is Aborted ==> forall|i: int|
                0 <= i < old(self).jobs@.len() && #[trigger] pending_match(
                    old(self).jobs@[i],
                    CircuitId::MatchDarkPoolOrders,
                    correlation_id,
                ) ==> aborts_job_at(*old(self), *final(self), i, r),
            forall|i: int|
                0 <= i < old(self).jobs@.len() && #[trigger] pending_match(
                    old(self).jobs@[i],
                    CircuitId::MatchDarkPoolOrders,
                    correlation_id,
                ) ==> (output matches ComputationOutputs::Success(is_matched) ==> {
                    &&& r == Ok::<(), ErrorCode>(())
                    &&& completes_job_at(*old(self), *final(self), i)
                    &&& final(self).records_eq(*old(self))
                    &&& final(self).events@ == old(self).events@.push(
                        DomainEvent::DarkPoolOrdersMatched(
                            (DarkPoolOrdersMatched { is_matched, timestamp }),
                        ),
                    )
                }),
    {
        let idx = self.find_pending(CircuitId::MatchDarkPoolOrders, correlation_id);
        match idx {
            None => Err(ErrorCode::DuplicateCallback),
            Some(i) => {
                match output {
                    ComputationOutputs::Aborted => {
                        self.retire(i, JobState::Aborted);
                        Err(ErrorCode::AbortedComputation)
                    },
                    ComputationOutputs::Success(is_matched) => {
                        self.retire(i, JobState::Completed);
                        self.events.push(
                            DomainEvent::DarkPoolOrdersMatched(
                                DarkPoolOrdersMatched { is_matched, timestamp },
                            ),
                        );
                        Ok(())
                    },
                }
            },
        }
    }

    /// Consumes the callback of a private swap job: on success only the
    /// revealed settlement flag is published, on a `PrivateSwapExecuted`
    /// event.
    pub fn execute_private_swap_callback(
        &mut self,
        correlation_id: u64,
        output: ComputationOutputs<bool>,
        timestamp: i64,
    ) -> (r: Result<(), ErrorCode>)
        requires
            old(self).wf(),
        ensures
            final(self).wf(),
            !old(self).has_pending(CircuitId::ExecutePrivateSwap, correlation_id)
                ==> rejects_callback(*old(self), *final(self), r),
            output is Aborted ==> forall|i: int|
                0 <= i < old(self).jobs@.len() && #[trigger] pending_match(
                    old(self).jobs@[i],
                    CircuitId::ExecutePrivateSwap,
                    correlation_id,
                ) ==> aborts_job_at(*old(self), *final(self), i, r),
            forall|i: int|
                0 <= i < old(self).jobs@.len() && #[trigger] pending_match(
                    old(self).jobs@[i],
                    CircuitId::ExecutePrivateSwap,
                    correlation_id,
                ) ==> (output matches ComputationOutputs::Success(success) ==> {
                    &&& r == Ok::<(), ErrorCode>(())
                    &&& completes_job_at(*old(self), *final(self), i)
                    &&& final(self).records_eq(*old(self))
                    &&& final(self).events@ == old(self).events@.push(
                        DomainEvent::PrivateSwapExecuted(
                            (PrivateSwapExecuted { success, timestamp }),
                        ),
                    )
                }),
    {
        let idx = self.find_pending(CircuitId::ExecutePrivateSwap, correlation_id);
        match idx {
            None => Err(ErrorCode::DuplicateCallback),
            Some(i) => {
                match output {
                    ComputationOutputs::Aborted => {
                        self.retire(i, JobState::Aborted);
                        Err(ErrorCode::AbortedComputation)
                    },
                    ComputationOutputs::Success(success) => {
                        self.retire(i, JobState::Completed);
                        self.events.push(
                            DomainEvent::PrivateSwapExecuted(
                                PrivateSwapExecuted { success, timestamp },
                            ),
                        );
                        Ok(())
                    },
                }
            },
        }
    }

    /// Consumes the callback of a batch health check job: on success only the
    /// revealed at-risk count is published, on a `BatchHealthChecked` event.
    pub fn batch_health_check_callback(
        &mut self,
        correlation_id: u64,
        output: ComputationOutputs<u8>,
        timestamp: i64,
    ) -> (r: Result<(), ErrorCode>)
        requires
            old(self).wf(),
        ensures
            final(self).wf(),
            !old(self).has_pending(CircuitId::BatchHealthCheck, correlation_id)
                ==> rejects_callback(*old(self), *final(self), r),
            output is Aborted ==> forall|i: int|
                0 <= i < old(self).jobs@.len() && #[trigger] pending_match(
                    old(self).jobs@[i],
                    CircuitId::BatchHealthCheck,
                    correlation_id,
                ) ==> aborts_job_at(*old(self), *final(self), i, r),
            forall|i: int|
                0 <= i < old(self).jobs@.len() && #[trigger] pending_match(
                    old(self).jobs@[i],
                    CircuitId::BatchHealthCheck,
                    correlation_id,
                ) ==> (output matches ComputationOutputs::Success(at_risk_count) ==> {
                    &&& r == Ok::<(), ErrorCode>(())
                    &&& completes_job_at(*old(self), *final(self), i)
                    &&& final(self).records_eq(*old(self))
                    &&& final(self).events@ == old(self).events@.push(
                        DomainEvent::BatchHealthChecked(
                            (BatchHealthChecked { at_risk_count, timestamp }),
                        ),
                    )
                }),
    {
        let idx = self.find_pending(CircuitId::BatchHealthCheck, correlation_id);
        match idx {
            None => Err(ErrorCode::DuplicateCallback),
            Some(i) => {
                match output {
                    ComputationOutputs::Aborted => {
                        self.retire(i, JobState::Aborted);
                        Err(ErrorCode::AbortedComputation)
                    },
                    ComputationOutputs::Success(at_risk_count) => {
                        self.retire(i, JobState::Completed);
                        self.events.push(
                            DomainEvent::BatchHealthChecked(
                                BatchHealthChecked { at_risk_count, timestamp },
                            ),
                        );
                        Ok(())
                    },
                }
            },
        }
    }

    /// Consumes the callback of a liquidation-risk job: on success only the
    /// revealed tier is published, on a `LiquidationRiskCalculated` event.
    pub fn calculate_liquidation_risk_callback(
        &mut self,
        correlation_id: u64,
        output: ComputationOutputs<u8>,
        timestamp: i64,
    ) -> (r: Result<(), ErrorCode>)
        requires
            old(self).wf(),
        ensures
            final(self).wf(),
            !old(self).has_pending(CircuitId::CalculateLiquidationRisk, correlation_id)
                ==> rejects_callback(*old(self), *final(self), r),
            output is Aborted ==> forall|i: int|
                0 <= i < old(self).jobs@.len() && #[trigger] pending_match(
                    old(self).jobs@[i],
                    CircuitId::CalculateLiquidationRisk,
                    correlation_id,
                ) ==> aborts_job_at(*old(self), *final(self), i, r),
            forall|i: int|
                0 <= i < old(self).jobs@.len() && #[trigger] pending_match(
                    old(self).jobs@[i],
                    CircuitId::CalculateLiquidationRisk,
                    correlation_id,
                ) ==> (output matches ComputationOutputs::Success(risk_level) ==> {
                    &&& r == Ok::<(), ErrorCode>(())
                    &&& completes_job_at(*old(self), *final(self), i)
                    &&& final(self).records_eq(*old(self))
                    &&& final(self).events@ == old(self).events@.push(
                        DomainEvent::LiquidationRiskCalculated(
                            (LiquidationRiskCalculated { risk_level, timestamp }),
                        ),
                    )
                }),
    {
        let idx = self.find_pending(CircuitId::CalculateLiquidationRisk, correlation_id);
        match idx {
            None => Err(ErrorCode::DuplicateCallback),
            Some(i) => {
                match output {
                    ComputationOutputs::Aborted => {
                        self.retire(i, JobState::Aborted);
                        Err(ErrorCode::AbortedComputation)
                    },
                    ComputationOutputs::Success(risk_level) => {
                        self.retire(i, JobState::Completed);
                        self.events.push(
                            DomainEvent::LiquidationRiskCalculated(
                                LiquidationRiskCalculated { risk_level, timestamp },
                            ),
                        );
                        Ok(())
                    },
                }
            },
        }
    }
}

/// What a submission guarantees: a cluster must be configured, the
/// correlation id must not collide with a pending job of the same circuit,
/// and on success exactly one pending job is appended and nothing else moves.
pub open spec fn submit_outcome(
    pre: Orchestrator,
    post: Orchestrator,
    correlation_id: u64,
    args: CircuitArgs,
    r: Result<(), ErrorCode>,
) -> bool {
    &&& (!pre.cluster_set ==> r == Err::<(), ErrorCode>(ErrorCode::ClusterNotSet) && post.state_eq(
        pre,
    ))
    &&& (pre.cluster_set && pre.has_pending(circuit_of(args), correlation_id) ==> r == Err::<
        (),
        ErrorCode,
    >(ErrorCode::DuplicateComputation) && post.state_eq(pre))
    &&& (pre.cluster_set && !pre.has_pending(circuit_of(args), correlation_id) ==> {
        &&& r == Ok::<(), ErrorCode>(())
        &&& post.jobs@ == pre.jobs@.push(
            Job { correlation_id, args, state: JobState::Pending },
        )
        &&& post.cluster_set == pre.cluster_set
        &&& post.records_eq(pre)
        &&& post.events@ == pre.events@
    })
}

/// A rejected callback: the duplicate (or unknown) delivery is refused and
/// nothing changes.
pub open spec fn rejects_callback(
    pre: Orchestrator,
    post: Orchestrator,
    r: Result<(), ErrorCode>,
) -> bool {
    r == Err::<(), ErrorCode>(ErrorCode::DuplicateCallback) && post.state_eq(pre)
}

/// An aborted callback: the job at `i` is retired as aborted, the failure is
/// surfaced, and neither the stores nor the event log move.
pub open spec fn aborts_job_at(
    pre: Orchestrator,
    post: Orchestrator,
    i: int,
    r: Result<(), ErrorCode>,
) -> bool {
    &&& r == Err::<(), ErrorCode>(ErrorCode::AbortedComputation)
    &&& post.jobs@ == pre.jobs@.update(i, (Job { state: JobState::Aborted, ..pre.jobs@[i] }))
    &&& post.cluster_set == pre.cluster_set
    &&& post.records_eq(pre)
    &&& post.events@ == pre.events@
}

/// A successful callback's job transition: the pending job at `i` is retired
/// as completed; no other job moves.
pub open spec fn completes_job_at(pre: Orchestrator, post: Orchestrator, i: int) -> bool {
    &&& post.jobs@ == pre.jobs@.update(i, (Job { state: JobState::Completed, ..pre.jobs@[i] }))
    &&& post.cluster_set == pre.cluster_set
}

/// Retiring one job cannot create a second pending job under any key.
proof fn lemma_retire_preserves_uniqueness(jobs: Seq<Job>, i: int, updated: Job)
    requires
        at_most_one_pending(jobs),
        0 <= i < jobs.len(),
        !updated.is_pending(),
    ensures
        at_most_one_pending(jobs.update(i, updated)),
{
    let jobs2 = jobs.update(i, updated);
    assert forall|x: int, y: int|
        0 <= x < jobs2.len() && 0 <= y < jobs2.len() && x != y && #[trigger] jobs2[x].is_pending()
            && #[trigger] jobs2[y].is_pending() && jobs2[x].circuit() == jobs2[y].circuit() implies jobs2[x].correlation_id
        != jobs2[y].correlation_id by {
        assert(x != i && y != i);
        assert(jobs2[x] == jobs[x]);
        assert(jobs2[y] == jobs[y]);
    }
}

} // verus!
