//! The actions that the PortCL agent takes, and how they are carried out safely.
pub mod executor;
pub mod portage_actions;
pub mod safety;

use vstd::prelude::*;

use crate::text::{append_bool, append_decimal, clone_strings, decimal, bool_text, string_views};

verus! {

/// An action of the agent.
#[derive(Debug, Clone, PartialEq)]
pub enum Action {
    NoOp,
    AdjustParallelism { jobs: u32 },
    OptimizeBuildOrder { package_list: Vec<String> },
    ScheduleOperation { delay_seconds: u64 },
    PreFetchDependencies { packages: Vec<String> },
    CleanObsoletePackages { force: bool },
}

impl Action {
    /// The name of the action's variant.
    pub open spec fn kind_name(&self) -> Seq<char> {
        match self {
            Action::NoOp => "NoOp"@,
            Action::AdjustParallelism { .. } => "AdjustParallelism"@,
            Action::OptimizeBuildOrder { .. } => "OptimizeBuildOrder"@,
            Action::ScheduleOperation { .. } => "ScheduleOperation"@,
            Action::PreFetchDependencies { .. } => "PreFetchDependencies"@,
            Action::CleanObsoletePackages { .. } => "CleanObsoletePackages"@,
        }
    }

    /// Whether two actions are the same: the same variant with equal fields.
    pub open spec fn same_as(&self, other: &Action) -> bool {
        match (self, other) {
            (Action::NoOp, Action::NoOp) => true,
            (Action::AdjustParallelism { jobs: a }, Action::AdjustParallelism { jobs: b }) => a
                == b,
            (
                Action::OptimizeBuildOrder { package_list: a },
                Action::OptimizeBuildOrder { package_list: b },
            ) => string_views(a@) == string_views(b@),
            (
                Action::ScheduleOperation { delay_seconds: a },
                Action::ScheduleOperation { delay_seconds: b },
            ) => a == b,
            (
                Action::PreFetchDependencies { packages: a },
                Action::PreFetchDependencies { packages: b },
            ) => string_views(a@) == string_views(b@),
            (
                Action::CleanObsoletePackages { force: a },
                Action::CleanObsoletePackages { force: b },
            ) => a == b,
            _ => false,
        }
    }

    /// Whether the action is safe: any action but parallelism outside 1 to 32 jobs and
    /// a forced clean.
    pub open spec fn safe(&self) -> bool {
        match self {
            Action::AdjustParallelism { jobs } => 1 <= *jobs <= 32,
            Action::CleanObsoletePackages { force } => !*force,
            _ => true,
        }
    }

    /// The action described in words.
    pub open spec fn describe(&self) -> Seq<char> {
        match self {
            Action::NoOp => "No operation"@,
            Action::AdjustParallelism { jobs } => "Adjust compilation parallelism to "@ + decimal(
                *jobs as nat,
            ) + " jobs"@,
            Action::OptimizeBuildOrder { package_list } => "Optimize build order for "@
                + decimal(package_list.len() as nat) + " packages"@,
            Action::ScheduleOperation { delay_seconds } => "Schedule operation with "@ + decimal(
                *delay_seconds as nat,
            ) + "s delay"@,
            Action::PreFetchDependencies { packages } => "Pre-fetch dependencies for "@
                + decimal(packages.len() as nat) + " packages"@,
            Action::CleanObsoletePackages { force } => "Clean obsolete packages (force: "@
                + bool_text(*force) + ")"@,
        }
    }

    /// The name of the action's variant, such as `AdjustParallelism`.
    pub fn action_type(&self) -> (s: String)
        ensures
            s@ == self.kind_name(),
    {
        let t = match self {
            Action::NoOp => "NoOp",
            Action::AdjustParallelism { .. } => "AdjustParallelism",
            Action::OptimizeBuildOrder { .. } => "OptimizeBuildOrder",
            Action::ScheduleOperation { .. } => "ScheduleOperation",
            Action::PreFetchDependencies { .. } => "PreFetchDependencies",
            Action::CleanObsoletePackages { .. } => "CleanObsoletePackages",
        };
        String::from_str(t)
    }

    /// Whether the action is safe to take (see `safe`).
    pub fn is_safe(&self) -> (b: bool)
        ensures
            b == self.safe(),
    {
        match self {
            Action::NoOp => true,
            Action::AdjustParallelism { jobs } => *jobs >= 1 && *jobs <= 32,
            Action::OptimizeBuildOrder { .. } => true,
            Action::ScheduleOperation { .. } => true,
            Action::PreFetchDependencies { .. } => true,
            Action::CleanObsoletePackages { force } => !force,
        }
    }

    /// The action described in words, such as `Adjust compilation parallelism to 4 jobs`.
    pub fn description(&self) -> (s: String)
        ensures
            s@ == self.describe(),
    {
        let mut s = String::new();
        proof {
            reveal_strlit(" jobs");
            reveal_strlit(" packages");
            reveal_strlit("s delay");
            reveal_strlit(")");
        }
        match self {
            Action::NoOp => {
                s.append("No operation");
            },
            Action::AdjustParallelism { jobs } => {
                s.append("Adjust compilation parallelism to ");
                append_decimal(&mut s, *jobs as u64);
                s.append(" jobs");
            },
            Action::OptimizeBuildOrder { package_list } => {
                s.append("Optimize build order for ");
                append_decimal(&mut s, package_list.len() as u64);
                s.append(" packages");
            },
            Action::ScheduleOperation { delay_seconds } => {
                s.append("Schedule operation with ");
                append_decimal(&mut s, *delay_seconds);
                s.append("s delay");
            },
            Action::PreFetchDependencies { packages } => {
                s.append("Pre-fetch dependencies for ");
                append_decimal(&mut s, packages.len() as u64);
                s.append(" packages");
            },
            Action::CleanObsoletePackages { force } => {
                s.append("Clean obsolete packages (force: ");
                append_bool(&mut s, *force);
                s.append(")");
            },
        }
        s
    }

    /// A copy of the action.
    pub fn duplicate(&self) -> (a: Action)
        ensures
            a.same_as(self),
    {
        match self {
            Action::NoOp => Action::NoOp,
            Action::AdjustParallelism { jobs } => Action::AdjustParallelism { jobs: *jobs },
            Action::OptimizeBuildOrder { package_list } => Action::OptimizeBuildOrder {
                package_list: clone_strings(package_list),
            },
            Action::ScheduleOperation { delay_seconds } => Action::ScheduleOperation {
                delay_seconds: *delay_seconds,
            },
            Action::PreFetchDependencies { packages } => Action::PreFetchDependencies {
                packages: clone_strings(packages),
            },
            Action::CleanObsoletePackages { force } => Action::CleanObsoletePackages {
                force: *force,
            },
        }
    }
}

} // verus!
