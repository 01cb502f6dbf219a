//! The agent's decisions around its monitoring loop that need no arithmetic: how full
//! the disk is against the thresholds, and which actions a manual cleanup runs.
use vstd::prelude::*;

use crate::binary64::{f64_ge, le};
use crate::btrmind::actions::Action;
use crate::btrmind::config::ThresholdConfig;

verus! {

/// How full the disk is against the configured thresholds.
#[derive(Debug, Clone, Copy, PartialEq, Eq, Structural)]
pub enum UsageLevel {
    Normal,
    Warning,
    Critical,
    Emergency,
}

/// The level of a disk usage (an `f64` as its bits): at or above the emergency level,
/// the critical level or the warning level, checked in that order; normal otherwise,
/// and for a NaN.
pub open spec fn level_of(t: ThresholdConfig, usage: u64) -> UsageLevel {
    if le(t.emergency_level, usage) {
        UsageLevel::Emergency
    } else if le(t.critical_level, usage) {
        UsageLevel::Critical
    } else if le(t.warning_level, usage) {
        UsageLevel::Warning
    } else {
        UsageLevel::Normal
    }
}

/// The level of a disk usage (see `level_of`).
pub fn usage_level(thresholds: &ThresholdConfig, usage: u64) -> (l: UsageLevel)
    ensures
        l == level_of(*thresholds, usage),
{
    if f64_ge(usage, thresholds.emergency_level) {
        UsageLevel::Emergency
    } else if f64_ge(usage, thresholds.critical_level) {
        UsageLevel::Critical
    } else if f64_ge(usage, thresholds.warning_level) {
        UsageLevel::Warning
    } else {
        UsageLevel::Normal
    }
}

/// The actions of a manual cleanup, in order: temporary files and snapshots, and when
/// aggressive also compression and the metadata balance between them.
pub fn cleanup_actions(aggressive: bool) -> (v: Vec<Action>)
    ensures
        aggressive ==> v@ == seq![
            Action::DeleteTempFiles,
            Action::CompressFiles,
            Action::BalanceMetadata,
            Action::CleanupSnapshots,
        ],
        !aggressive ==> v@ == seq![Action::DeleteTempFiles, Action::CleanupSnapshots],
{
    let mut v: Vec<Action> = Vec::new();
    v.push(Action::DeleteTempFiles);
    if aggressive {
        v.push(Action::CompressFiles);
        v.push(Action::BalanceMetadata);
    }
    v.push(Action::CleanupSnapshots);
    proof {
        if aggressive {
            assert(v@ =~= seq![
                Action::DeleteTempFiles,
                Action::CompressFiles,
                Action::BalanceMetadata,
                Action::CleanupSnapshots,
            ]);
        } else {
            assert(v@ =~= seq![Action::DeleteTempFiles, Action::CleanupSnapshots]);
        }
    }
    v
}

/// The actions the learner chooses among for a disk usage normalized to `[0, 1]` (an
/// `f64` as its bits): from 0.98 only the cleanups of temporary files and snapshots;
/// from 0.95 compression as well; from 0.85 every maintenance action; below that
/// doing nothing, the metadata balance or the snapshot cleanup.
pub open spec fn candidates_for(usage: u64) -> Seq<Action> {
    if le(0x3fef_5c28_f5c2_8f5c, usage) {
        seq![Action::DeleteTempFiles, Action::CleanupSnapshots]
    } else if le(0x3fee_6666_6666_6666, usage) {
        seq![Action::DeleteTempFiles, Action::CompressFiles, Action::CleanupSnapshots]
    } else if le(0x3feb_3333_3333_3333, usage) {
        seq![
            Action::DeleteTempFiles,
            Action::CompressFiles,
            Action::BalanceMetadata,
            Action::CleanupSnapshots,
        ]
    } else {
        seq![Action::NoOperation, Action::BalanceMetadata, Action::CleanupSnapshots]
    }
}

/// The actions the learner chooses among (see `candidates_for`).
pub fn candidate_actions(usage: u64) -> (v: Vec<Action>)
    ensures
        v@ == candidates_for(usage),
{
    let mut v: Vec<Action> = Vec::new();
    if f64_ge(usage, 0x3fef_5c28_f5c2_8f5c) {
        v.push(Action::DeleteTempFiles);
        v.push(Action::CleanupSnapshots);
    } else if f64_ge(usage, 0x3fee_6666_6666_6666) {
        v.push(Action::DeleteTempFiles);
        v.push(Action::CompressFiles);
        v.push(Action::CleanupSnapshots);
    } else if f64_ge(usage, 0x3feb_3333_3333_3333) {
        v.push(Action::DeleteTempFiles);
        v.push(Action::CompressFiles);
        v.push(Action::BalanceMetadata);
        v.push(Action::CleanupSnapshots);
    } else {
        v.push(Action::NoOperation);
        v.push(Action::BalanceMetadata);
        v.push(Action::CleanupSnapshots);
    }
    assert(v@ =~= candidates_for(usage));
    v
}

} // verus!
