//! A second record domain sharing the position lifecycle: sustainability
//! reports and emissions data are zero-initialised, superseded by
//! re-encryption, and queried only through threshold proofs that reveal a
//! single boolean or percentage.

use vstd::prelude::*;

verus! {

/// A stakeholder-engagement and materiality report.
#[derive(Clone, Copy, PartialEq, Eq, Structural, Debug)]
pub struct SEMAReport {
    pub stakeholder_count: u64,
    pub material_topic_count: u64,
    pub compliance_score: u64,
    pub total_score: u64,
}

/// Greenhouse-gas emissions by scope.
#[derive(Clone, Copy, PartialEq, Eq, Structural, Debug)]
pub struct EmissionsData {
    pub scope1: u64,
    pub scope2: u64,
    pub scope3: u64,
    pub total: u64,
}

/// A freshly initialised, all-zero report.
pub fn init_sema_report() -> (r: SEMAReport)
    ensures
        r == (SEMAReport {
            stakeholder_count: 0,
            material_topic_count: 0,
            compliance_score: 0,
            total_score: 0,
        }),
{
    SEMAReport { stakeholder_count: 0, material_topic_count: 0, compliance_score: 0, total_score: 0 }
}

/// Freshly initialised, all-zero emissions data.
pub fn init_emissions_data() -> (r: EmissionsData)
    ensures
        r == (EmissionsData { scope1: 0, scope2: 0, scope3: 0, total: 0 }),
{
    EmissionsData { scope1: 0, scope2: 0, scope3: 0, total: 0 }
}

/// Re-encrypts a caller-supplied report over the stored one.
pub fn update_sema_report(incoming: SEMAReport, stored: SEMAReport) -> (r: SEMAReport)
    ensures
        r == incoming,
{
    let _ = stored;
    incoming
}

/// Re-encrypts caller-supplied emissions data over the stored ones.
pub fn update_emissions_data(incoming: EmissionsData, stored: EmissionsData) -> (r: EmissionsData)
    ensures
        r == incoming,
{
    let _ = stored;
    incoming
}

/// Reveals only whether an encrypted scalar reaches a threshold.
pub fn prove_threshold(value: u64, threshold: u64) -> (r: bool)
    ensures
        r == (value >= threshold),
{
    value >= threshold
}

/// Reveals only whether a report's total score reaches a threshold.
pub fn prove_sema_compliance(report: SEMAReport, threshold: u64) -> (r: bool)
    ensures
        r == (report.total_score >= threshold),
{
    report.total_score >= threshold
}

/// The share of a total that has been retired, in whole percent; zero when
/// the total is zero (a percentage of nothing is nothing), and zero whenever
/// nothing was retired.
pub fn calculate_offset_percentage(total: u64, retired: u64) -> (r: u64)
    requires
        total > 0 ==> retired <= u64::MAX / 100,
    ensures
        total == 0 ==> r == 0,
        total > 0 ==> r == retired * 100 / (total as int),
        retired == 0 ==> r == 0,
{
    if total == 0 {
        0
    } else {
        (retired * 100) / total
    }
}

} // verus!
