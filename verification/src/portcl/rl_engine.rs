//! The discrete side of the learning agent: which action each output of the model
//! stands for. The model itself works in floating point and is the caller's part.
use vstd::prelude::*;

use crate::portcl::actions::Action;
use crate::portcl::error::PortCLError;
use crate::text::{append_decimal, decimal};

verus! {

/// Whether a model is the one being trained or its target copy.
#[derive(Debug, Clone, Copy, PartialEq, Eq, Structural)]
pub enum ModelType {
    Online,
    Target,
}

/// The kinds of knowledge consolidation.
#[derive(Debug, Clone, Copy, PartialEq, Eq, Structural)]
pub enum ConsolidationEventType {
    PolicyMerging,
    KnowledgePruning,
    EWCUpdate,
    NetworkCompression,
    MemoryConsolidation,
}

/// The number of actions the model chooses among.
pub open spec fn action_slots() -> nat {
    6
}

/// The model output that an action's kind takes.
pub open spec fn slot_of(a: Action) -> nat {
    match a {
        Action::NoOp => 0,
        Action::AdjustParallelism { .. } => 1,
        Action::OptimizeBuildOrder { .. } => 2,
        Action::ScheduleOperation { .. } => 3,
        Action::PreFetchDependencies { .. } => 4,
        Action::CleanObsoletePackages { .. } => 5,
    }
}

/// The action that model output `index` stands for; past the last action, an error.
pub fn index_to_action(index: usize) -> (r: Result<Action, PortCLError>)
    ensures
        match r {
            Ok(a) => index < action_slots() && slot_of(a) == index && (index == 1 ==> a
                == Action::AdjustParallelism { jobs: 1 }) && (index == 3 ==> a
                == Action::ScheduleOperation { delay_seconds: 0 }) && (index == 5 ==> a
                == Action::CleanObsoletePackages { force: false }) && (a matches Action::OptimizeBuildOrder { package_list }
                ==> package_list.len() == 0) && (a matches Action::PreFetchDependencies { packages }
                ==> packages.len() == 0),
            Err(e) => index >= action_slots() && (e matches PortCLError::RLEngine(m) && m@
                == "Invalid action index: "@ + decimal(index as nat)),
        },
{
    match index {
        0 => Ok(Action::NoOp),
        1 => Ok(Action::AdjustParallelism { jobs: 1 }),
        2 => Ok(Action::OptimizeBuildOrder { package_list: Vec::new() }),
        3 => Ok(Action::ScheduleOperation { delay_seconds: 0 }),
        4 => Ok(Action::PreFetchDependencies { packages: Vec::new() }),
        5 => Ok(Action::CleanObsoletePackages { force: false }),
        _ => {
            let mut m = String::from_str("Invalid action index: ");
            append_decimal(&mut m, index as u64);
            Err(PortCLError::RLEngine(m))
        },
    }
}

/// The model output that an action's kind takes.
pub fn action_to_index(action: &Action) -> (i: usize)
    ensures
        i == slot_of(*action),
        i < action_slots(),
{
    match action {
        Action::NoOp => 0,
        Action::AdjustParallelism { .. } => 1,
        Action::OptimizeBuildOrder { .. } => 2,
        Action::ScheduleOperation { .. } => 3,
        Action::PreFetchDependencies { .. } => 4,
        Action::CleanObsoletePackages { .. } => 5,
    }
}

} // verus!
