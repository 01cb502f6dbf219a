//! The action executor: which actions may start, the actions in progress, and what a
//! finished action reports. Waiting for an action, with its timeout, is left to the
//! caller, which starts it with `begin_action` and ends it with `finish_action`.
use vstd::prelude::*;

use crate::platform::{instant_now, new_uuid_text};
use crate::portcl::actions::Action;
use crate::portcl::error::{random_source_error, random_source_message, PortCLError};
use crate::text::{append_bool, append_decimal, bool_text, chars_of, decimal, starts_with_seq, str_eq};

verus! {

/// How the executor runs actions.
#[derive(Debug, Clone, Copy, PartialEq, Eq, Structural)]
pub struct ExecutorConfig {
    pub max_concurrent_actions: u32,
    pub action_timeout_ms: u64,
    pub retry_attempts: u32,
    pub safety_checks_enabled: bool,
    pub rollback_on_failure: bool,
}

impl Default for ExecutorConfig {
    /// Five concurrent actions, a 30 s timeout, three retries, safety checks and
    /// rollback on failure.
    fn default() -> (c: Self)
        ensures
            c == (ExecutorConfig {
                max_concurrent_actions: 5,
                action_timeout_ms: 30000,
                retry_attempts: 3,
                safety_checks_enabled: true,
                rollback_on_failure: true,
            }),
    {
        ExecutorConfig {
            max_concurrent_actions: 5,
            action_timeout_ms: 30000,
            retry_attempts: 3,
            safety_checks_enabled: true,
            rollback_on_failure: true,
        }
    }
}

/// Why an action may not start, as the kind and message of the error; `None` when it
/// may. The limit on concurrent actions comes first, then the action's own limits.
pub open spec fn start_refusal(max_concurrent: u32, active: nat, a: Action) -> Option<(int, Seq<char>)> {
    if active >= max_concurrent {
        Some((14, "Maximum concurrent actions ("@ + decimal(max_concurrent as nat) + ") reached"@))
    } else {
        match a {
            Action::AdjustParallelism { jobs } => if jobs < 1 || jobs > 32 {
                Some((11, "Parallel jobs must be between 1 and 32, got "@ + decimal(jobs as nat)))
            } else {
                None
            },
            Action::OptimizeBuildOrder { package_list } => if package_list.len() == 0 {
                Some((11, "Package list cannot be empty"@))
            } else if package_list.len() > 1000 {
                Some((11, "Package list too large (max 1000)"@))
            } else {
                None
            },
            Action::ScheduleOperation { delay_seconds } => if delay_seconds > 3600 {
                Some((11, "Delay cannot exceed 1 hour"@))
            } else {
                None
            },
            Action::PreFetchDependencies { packages } => if packages.len() == 0 {
                Some((11, "Packages list cannot be empty"@))
            } else {
                None
            },
            _ => None,
        }
    }
}

/// `after` (with `after_len` entries) is `before` (with `before_len`) with `id` added:
/// one more entry unless `id` was already in progress.
pub open spec fn started(
    before: Set<Seq<char>>,
    before_len: nat,
    after: Set<Seq<char>>,
    after_len: nat,
    id: Seq<char>,
) -> bool {
    &&& after == before.insert(id)
    &&& after_len == before_len + if before.contains(id) {
        0int
    } else {
        1int
    }
}

/// The ids of a list of active actions.
pub open spec fn entry_keys(s: Seq<(String, tokio::time::Instant)>) -> Seq<Seq<char>> {
    s.map_values(|e: (String, tokio::time::Instant)| e.0@)
}

/// The executor: its configuration and the actions in progress, each under an id made
/// of the action's type and a UUID, with the instant it started.
pub struct ActionExecutor {
    config: ExecutorConfig,
    active_actions: Vec<(String, tokio::time::Instant)>,
}

proof fn lemma_remove_keeps_distinct(s: Seq<Seq<char>>, i: int)
    requires
        s.no_duplicates(),
        0 <= i < s.len(),
    ensures
        s.remove(i).no_duplicates(),
        forall|k: Seq<char>| s.remove(i).contains(k) <==> (s.contains(k) && k != s[i]),
{
    let r = s.remove(i);
    assert forall|a: int, b: int| 0 <= a < r.len() && 0 <= b < r.len() && a != b implies r[a]
        != r[b] by {
        let a0 = if a < i { a } else { a + 1 };
        let b0 = if b < i { b } else { b + 1 };
        assert(r[a] == s[a0] && r[b] == s[b0]);
    }
    assert forall|k: Seq<char>| r.contains(k) <==> (s.contains(k) && k != s[i]) by {
        if r.contains(k) {
            let a = choose|a: int| 0 <= a < r.len() && r[a] == k;
            let a0 = if a < i { a } else { a + 1 };
            assert(s[a0] == k);
        }
        if s.contains(k) && k != s[i] {
            let a0 = choose|a: int| 0 <= a < s.len() && s[a] == k;
            let a = if a0 < i { a0 } else { a0 - 1 };
            assert(r[a] == k);
        }
    }
}

/// The position of the entry with id `key`.
fn key_position(entries: &Vec<(String, tokio::time::Instant)>, key: &str) -> (r: Option<usize>)
    ensures
        match r {
            Some(i) => i < entries.len() && entry_keys(entries@)[i as int] == key@,
            None => !entry_keys(entries@).contains(key@),
        },
{
    let mut i: usize = 0;
    while i < entries.len()
        invariant
            i <= entries.len(),
            forall|j: int| 0 <= j < i ==> entry_keys(entries@)[j] != key@,
        decreases entries.len() - i,
    {
        if str_eq(entries[i].0.as_str(), key) {
            return Some(i);
        }
        i = i + 1;
    }
    None
}

impl ActionExecutor {
    /// The ids of the actions in progress, in the order they started.
    pub closed spec fn active_keys(&self) -> Seq<Seq<char>> {
        entry_keys(self.active_actions@)
    }

    /// The set of ids of the actions in progress.
    pub open spec fn active_set(&self) -> Set<Seq<char>> {
        self.active_keys().to_set()
    }

    pub closed spec fn spec_config(&self) -> ExecutorConfig {
        self.config
    }

    #[verifier::type_invariant]
    spec fn wf(&self) -> bool {
        &&& self.active_keys().no_duplicates()
        &&& self.active_actions@.len() <= u32::MAX
    }

    /// An executor with the default configuration and nothing in progress.
    pub fn new() -> (e: Self)
        ensures
            e.spec_config() == (ExecutorConfig {
                max_concurrent_actions: 5,
                action_timeout_ms: 30000,
                retry_attempts: 3,
                safety_checks_enabled: true,
                rollback_on_failure: true,
            }),
            e.active_keys().len() == 0,
    {
        Self::with_config(ExecutorConfig::default())
    }

    /// An executor with `config` and nothing in progress.
    pub fn with_config(config: ExecutorConfig) -> (e: Self)
        ensures
            e.spec_config() == config,
            e.active_keys().len() == 0,
    {
        let e = ActionExecutor { config, active_actions: Vec::new() };
        assert(e.active_keys() =~= Seq::<Seq<char>>::empty());
        e
    }

    /// Whether `action` may start now (see `start_refusal`).
    pub fn validate_action(&self, action: &Action) -> (r: Result<(), PortCLError>)
        ensures
            match r {
                Ok(_) => start_refusal(
                    self.spec_config().max_concurrent_actions,
                    self.active_keys().len(),
                    *action,
                ) is None,
                Err(e) => start_refusal(
                    self.spec_config().max_concurrent_actions,
                    self.active_keys().len(),
                    *action,
                ) == Some((e.kind(), e.message())),
            },
    {
        proof {
            reveal_strlit(") reached");
        }
        if self.active_actions.len() >= self.config.max_concurrent_actions as usize {
            let mut m = String::from_str("Maximum concurrent actions (");
            append_decimal(&mut m, self.config.max_concurrent_actions as u64);
            m.append(") reached");
            return Err(PortCLError::Resource(m));
        }
        match action {
            Action::AdjustParallelism { jobs } => {
                if *jobs < 1 || *jobs > 32 {
                    let mut m = String::from_str("Parallel jobs must be between 1 and 32, got ");
                    append_decimal(&mut m, *jobs as u64);
                    return Err(PortCLError::Validation(m));
                }
            },
            Action::OptimizeBuildOrder { package_list } => {
                if package_list.len() == 0 {
                    return Err(PortCLError::Validation(String::from_str("Package list cannot be empty")));
                }
                if package_list.len() > 1000 {
                    return Err(
                        PortCLError::Validation(String::from_str("Package list too large (max 1000)")),
                    );
                }
            },
            Action::ScheduleOperation { delay_seconds } => {
                if *delay_seconds > 3600 {
                    return Err(PortCLError::Validation(String::from_str("Delay cannot exceed 1 hour")));
                }
            },
            Action::PreFetchDependencies { packages } => {
                if packages.len() == 0 {
                    return Err(PortCLError::Validation(String::from_str("Packages list cannot be empty")));
                }
            },
            _ => {},
        }
        Ok(())
    }

    /// Starts `action` if it may start: records it as in progress under a new id, its
    /// type, `_` and a UUID, and returns the id. A refused action changes nothing; nor
    /// does a failure of the random source that the UUID comes from, a system error.
    pub fn begin_action(&mut self, action: &Action) -> (r: Result<String, PortCLError>)
        ensures
            final(self).spec_config() == old(self).spec_config(),
            match r {
                Ok(id) => {
                    &&& start_refusal(
                        old(self).spec_config().max_concurrent_actions,
                        old(self).active_keys().len(),
                        *action,
                    ) is None
                    &&& id@.len() == action.kind_name().len() + 37
                    &&& id@.take(action.kind_name().len() + 1int) == action.kind_name() + "_"@
                    &&& started(old(self).active_set(), old(self).active_keys().len(), final(self).active_set(), final(self).active_keys().len(), id@)
                },
                Err(e) => {
                    &&& match start_refusal(
                        old(self).spec_config().max_concurrent_actions,
                        old(self).active_keys().len(),
                        *action,
                    ) {
                        Some(refusal) => refusal == (e.kind(), e.message()),
                        None => e matches PortCLError::System(m) && m@ == random_source_message(),
                    }
                    &&& final(self).active_keys() == old(self).active_keys()
                },
            },
    {
        match self.validate_action(action) {
            Err(e) => {
                return Err(e);
            },
            Ok(_) => {},
        }
        let u = match new_uuid_text() {
            Some(u) => u,
            None => {
                return Err(random_source_error());
            },
        };
        let r = self.start_with_id(action, u);
        proof {
            reveal_strlit("_");
            if r is Ok {
                let id = r->Ok_0;
                assert(id@.take(action.kind_name().len() + 1int) =~= action.kind_name() + "_"@);
            }
        }
        r
    }

    /// Starts `action` under the id made of its type, `_` and `uuid` if it may start
    /// (see `start_refusal`), recording it as in progress, and returns the id. A
    /// refused action changes nothing.
    pub fn start_with_id(&mut self, action: &Action, uuid: String) -> (r: Result<String, PortCLError>)
        ensures
            final(self).spec_config() == old(self).spec_config(),
            match r {
                Ok(id) => {
                    &&& start_refusal(
                        old(self).spec_config().max_concurrent_actions,
                        old(self).active_keys().len(),
                        *action,
                    ) is None
                    &&& id@ == action.kind_name() + "_"@ + uuid@
                    &&& started(old(self).active_set(), old(self).active_keys().len(), final(self).active_set(), final(self).active_keys().len(), id@)
                },
                Err(e) => {
                    &&& start_refusal(
                        old(self).spec_config().max_concurrent_actions,
                        old(self).active_keys().len(),
                        *action,
                    ) == Some((e.kind(), e.message()))
                    &&& final(self).active_keys() == old(self).active_keys()
                },
            },
    {
        proof {
            use_type_invariant(&*self);
        }
        match self.validate_action(action) {
            Err(e) => {
                return Err(e);
            },
            Ok(_) => {},
        }
        let u = uuid;
        let mut id = action.action_type();
        id.append("_");
        id.append(u.as_str());
        proof {
            reveal_strlit("_");
            assert(id@.take(action.kind_name().len() + 1int) =~= action.kind_name() + "_"@);
        }
        let now = instant_now();
        let mut entries: Vec<(String, tokio::time::Instant)> = Vec::new();
        std::mem::swap(&mut entries, &mut self.active_actions);
        let ghost before = entries@;
        let key = id.clone();
        match key_position(&entries, id.as_str()) {
            Some(i) => {
                entries.set(i, (key, now));
                assert(entry_keys(entries@) =~= entry_keys(before));
                assert(entry_keys(before).contains(id@));
                assert(entry_keys(entries@).to_set() =~= entry_keys(before).to_set().insert(id@));
            },
            None => {
                entries.push((key, now));
                assert(entry_keys(entries@) =~= entry_keys(before).push(id@));
                assert(entries@.len() <= u32::MAX);
                assert forall|k: Seq<char>| entry_keys(entries@).contains(k) <==> (entry_keys(
                    before,
                ).contains(k) || k == id@) by {
                    if entry_keys(entries@).contains(k) {
                        let j = choose|j: int|
                            0 <= j < entry_keys(entries@).len() && entry_keys(entries@)[j] == k;
                        if j < before.len() {
                            assert(entry_keys(before)[j] == k);
                        }
                    }
                    if entry_keys(before).contains(k) {
                        let j = choose|j: int|
                            0 <= j < entry_keys(before).len() && entry_keys(before)[j] == k;
                        assert(entry_keys(entries@)[j] == k);
                    }
                    if k == id@ {
                        assert(entry_keys(entries@)[before.len() as int] == k);
                    }
                }
                assert(entry_keys(entries@).to_set() =~= entry_keys(before).to_set().insert(id@));
                assert(entry_keys(entries@).no_duplicates());
            },
        }
        self.active_actions = entries;
        Ok(id)
    }

    /// Ends the action in progress under `id`, if there is one.
    pub fn finish_action(&mut self, id: &str)
        ensures
            final(self).spec_config() == old(self).spec_config(),
            final(self).active_set() == old(self).active_set().remove(id@),
            final(self).active_keys().len() == old(self).active_keys().len() - if old(self).active_set().contains(id@) {
                1int
            } else {
                0int
            },
    {
        proof {
            use_type_invariant(&*self);
        }
        let mut entries: Vec<(String, tokio::time::Instant)> = Vec::new();
        std::mem::swap(&mut entries, &mut self.active_actions);
        let ghost before = entries@;
        match key_position(&entries, id) {
            Some(i) => {
                entries.remove(i);
                proof {
                    assert(entry_keys(entries@) =~= entry_keys(before).remove(i as int));
                    lemma_remove_keeps_distinct(entry_keys(before), i as int);
                }
            },
            None => {},
        }
        assert(entry_keys(entries@).to_set() =~= entry_keys(before).to_set().remove(id@));
        self.active_actions = entries;
    }

    /// The error of an action that outlived the configured timeout.
    pub fn timeout_error(&self) -> (e: PortCLError)
        ensures
            e matches PortCLError::Timeout(m) && m@ == "Action timed out after "@ + decimal(
                self.spec_config().action_timeout_ms as nat,
            ) + "ms"@,
    {
        let mut m = String::from_str("Action timed out after ");
        append_decimal(&mut m, self.config.action_timeout_ms);
        m.append("ms");
        proof {
            reveal_strlit("ms");
        }
        PortCLError::Timeout(m)
    }

    /// The number of actions in progress.
    pub fn active_action_count(&self) -> (n: usize)
        ensures
            n == self.active_keys().len(),
            n == self.active_set().len(),
    {
        proof {
            use_type_invariant(self);
            self.active_keys().unique_seq_to_set();
        }
        self.active_actions.len()
    }

    /// Whether an action whose id starts with `action_type` is in progress.
    pub fn is_action_type_active(&self, action_type: &str) -> (b: bool)
        ensures
            b == exists|k: Seq<char>| #[trigger] self.active_set().contains(k) && action_type@.is_prefix_of(k),
    {
        let t = chars_of(action_type);
        let mut i: usize = 0;
        while i < self.active_actions.len()
            invariant
                t@ == action_type@,
                i <= self.active_actions.len(),
                forall|j: int| 0 <= j < i ==> !action_type@.is_prefix_of(#[trigger] self.active_keys()[j]),
            decreases self.active_actions.len() - i,
        {
            let k = chars_of(self.active_actions[i].0.as_str());
            assert(k@ == self.active_keys()[i as int]);
            if starts_with_seq(&k, &t) {
                assert(self.active_set().contains(k@));
                return true;
            }
            i = i + 1;
        }
        assert forall|k: Seq<char>| #[trigger] self.active_set().contains(k) implies !action_type@.is_prefix_of(k) by {
            let j = choose|j: int| 0 <= j < self.active_keys().len() && self.active_keys()[j] == k;
        }
        false
    }

    /// The executor's configuration.
    pub fn config(&self) -> (c: &ExecutorConfig)
        ensures
            *c == self.spec_config(),
    {
        &self.config
    }

    /// Replaces the configuration; the actions in progress stay.
    pub fn update_config(&mut self, config: ExecutorConfig)
        ensures
            final(self).spec_config() == config,
            final(self).active_keys() == old(self).active_keys(),
    {
        proof {
            use_type_invariant(&*self);
        }
        self.config = config;
    }

    /// Forgets every action in progress and says how many there were.
    pub fn cancel_all_actions(&mut self) -> (n: u32)
        ensures
            n == old(self).active_keys().len(),
            final(self).active_keys().len() == 0,
            final(self).spec_config() == old(self).spec_config(),
    {
        proof {
            use_type_invariant(&*self);
        }
        let n = self.active_actions.len() as u32;
        self.active_actions = Vec::new();
        assert(self.active_keys() =~= Seq::<Seq<char>>::empty());
        n
    }
}

/// How long the simulated execution of an action takes, in milliseconds.
pub open spec fn simulated_ms(a: Action) -> int {
    match a {
        Action::NoOp => 10,
        Action::AdjustParallelism { .. } => 50,
        Action::OptimizeBuildOrder { package_list } => 100 + package_list.len() * 5,
        Action::ScheduleOperation { .. } => 20,
        Action::PreFetchDependencies { packages } => 200 + packages.len() * 10,
        Action::CleanObsoletePackages { .. } => 500,
    }
}

/// Whether a simulated run succeeds: it always does.
pub fn simulate_success() -> (b: bool)
    ensures
        b,
{
    true
}

/// The time the simulated execution of `action` takes, in milliseconds: a fixed time,
/// and for the actions on package lists a time per package on top.
pub fn simulated_duration_ms(action: &Action) -> (ms: u64)
    requires
        simulated_ms(*action) <= u64::MAX,
    ensures
        ms == simulated_ms(*action),
{
    match action {
        Action::NoOp => 10,
        Action::AdjustParallelism { .. } => 50,
        Action::OptimizeBuildOrder { package_list } => 100 + package_list.len() as u64 * 5,
        Action::ScheduleOperation { .. } => 20,
        Action::PreFetchDependencies { packages } => 200 + packages.len() as u64 * 10,
        Action::CleanObsoletePackages { .. } => 500,
    }
}

/// What a successful action reports.
pub open spec fn success_output(a: Action) -> Seq<char> {
    match a {
        Action::NoOp => "No operation performed"@,
        Action::AdjustParallelism { jobs } => "Parallel jobs adjusted to "@ + decimal(jobs as nat),
        Action::OptimizeBuildOrder { package_list } => "Build order optimized for "@ + decimal(
            package_list.len() as nat,
        ) + " packages"@,
        Action::ScheduleOperation { delay_seconds } => "Operation scheduled with "@ + decimal(
            delay_seconds as nat,
        ) + "s delay"@,
        Action::PreFetchDependencies { packages } => "Dependencies pre-fetched for "@ + decimal(
            packages.len() as nat,
        ) + " packages"@,
        Action::CleanObsoletePackages { force } => "Cleaned obsolete packages (forced: "@
            + bool_text(force) + ")"@,
    }
}

/// The output of a successful action, such as `Parallel jobs adjusted to 4`.
pub fn simulated_output(action: &Action) -> (s: String)
    ensures
        s@ == success_output(*action),
{
    let mut s = String::new();
    proof {
        reveal_strlit(" packages");
        reveal_strlit("s delay");
        reveal_strlit(")");
    }
    match action {
        Action::NoOp => {
            s.append("No operation performed");
        },
        Action::AdjustParallelism { jobs } => {
            s.append("Parallel jobs adjusted to ");
            append_decimal(&mut s, *jobs as u64);
        },
        Action::OptimizeBuildOrder { package_list } => {
            s.append("Build order optimized for ");
            append_decimal(&mut s, package_list.len() as u64);
            s.append(" packages");
        },
        Action::ScheduleOperation { delay_seconds } => {
            s.append("Operation scheduled with ");
            append_decimal(&mut s, *delay_seconds);
            s.append("s delay");
        },
        Action::PreFetchDependencies { packages } => {
            s.append("Dependencies pre-fetched for ");
            append_decimal(&mut s, packages.len() as u64);
            s.append(" packages");
        },
        Action::CleanObsoletePackages { force } => {
            s.append("Cleaned obsolete packages (forced: ");
            append_bool(&mut s, *force);
            s.append(")");
        },
    }
    s
}

/// The I/O operations an action counts: 50 for a clean, two per package for a build
/// order, five otherwise.
pub fn io_operations(action: &Action) -> (n: u32)
    requires
        action matches Action::OptimizeBuildOrder { package_list } ==> package_list.len() * 2
            <= u32::MAX,
    ensures
        n == match *action {
            Action::CleanObsoletePackages { .. } => 50,
            Action::OptimizeBuildOrder { package_list } => package_list.len() * 2,
            _ => 5,
        },
{
    match action {
        Action::CleanObsoletePackages { .. } => 50,
        Action::OptimizeBuildOrder { package_list } => package_list.len() as u32 * 2,
        _ => 5,
    }
}

/// The network calls an action counts: ten for a pre-fetch, none otherwise.
pub fn network_calls(action: &Action) -> (n: u32)
    ensures
        n == if action is PreFetchDependencies {
            10u32
        } else {
            0u32
        },
{
    match action {
        Action::PreFetchDependencies { .. } => 10,
        _ => 0,
    }
}

/// The law of the concurrency limit: an action starts only while fewer actions than
/// the limit are in progress, so starting one never takes their number past the limit.
pub proof fn lemma_start_within_limit(max_concurrent: u32, active: nat, a: Action)
    requires
        start_refusal(max_concurrent, active, a) is None,
    ensures
        active + 1 <= max_concurrent,
{
}

/// The law of starting and ending an action: ending an action under a new id leaves
/// the actions in progress as they were before it started.
pub proof fn lemma_finish_undoes_begin(active: Set<Seq<char>>, id: Seq<char>)
    requires
        !active.contains(id),
    ensures
        active.insert(id).remove(id) == active,
        active.insert(id).contains(id),
{
    assert(active.insert(id).remove(id) =~= active);
}

} // verus!
