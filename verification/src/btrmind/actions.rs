//! The storage actions BtrMind can take, and the decisions that guard them: whether
//! an action runs at all, which temporary paths may be cleaned and how, and which
//! snapshots are deleted. Running the commands is left to the caller.
use vstd::prelude::*;

use crate::btrmind::config::ActionConfig;
use crate::text::{
    chars_of, concat2, contains_char, contains_seq, decimal, has_char, has_sub,
    is_ascii_alnum, is_last_occurrence, lines, lines_of, occurs_at, rfind_seq, str_eq,
    string_after, string_views, append_decimal,
};

verus! {

#[derive(Debug, Clone, Copy, PartialEq, Eq, Structural)]
pub enum Action {
    NoOperation,
    DeleteTempFiles,
    CompressFiles,
    BalanceMetadata,
    CleanupSnapshots,
}

impl Action {
    /// The action's number, its place in `all_actions`.
    pub open spec fn id(self) -> nat {
        match self {
            Action::NoOperation => 0,
            Action::DeleteTempFiles => 1,
            Action::CompressFiles => 2,
            Action::BalanceMetadata => 3,
            Action::CleanupSnapshots => 4,
        }
    }

    pub fn from_id(id: usize) -> (r: Option<Action>)
        ensures
            id < 5 ==> (r matches Some(a) && a.id() == id),
            id >= 5 ==> r is None,
    {
        match id {
            0 => Some(Action::NoOperation),
            1 => Some(Action::DeleteTempFiles),
            2 => Some(Action::CompressFiles),
            3 => Some(Action::BalanceMetadata),
            4 => Some(Action::CleanupSnapshots),
            _ => None,
        }
    }

    pub fn all_actions() -> (v: Vec<Action>)
        ensures
            v@.len() == 5,
            forall|i: int| 0 <= i < 5 ==> (#[trigger] v@[i]).id() == i,
    {
        let mut v = Vec::new();
        v.push(Action::NoOperation);
        v.push(Action::DeleteTempFiles);
        v.push(Action::CompressFiles);
        v.push(Action::BalanceMetadata);
        v.push(Action::CleanupSnapshots);
        v
    }

    pub fn action_count() -> (n: usize)
        ensures
            n == 5,
    {
        5
    }
}

/// Every action has a number below `action_count`, and `from_id` gives the action back
/// from its number.
pub proof fn lemma_action_ids(a: Action)
    ensures
        a.id() < 5,
        forall|b: Action| b.id() == a.id() ==> b == a,
{
}

/// What happens to an action before any command runs.
#[derive(Debug, Clone)]
pub enum ActionStep {
    /// The action ends here, with this outcome and no space freed.
    Finished { success: bool, message: String },
    /// The action's work is to be carried out.
    Perform(Action),
}

/// The outcome of an action that ends before any command runs, or `None` when its
/// work is to be carried out.
pub open spec fn early_outcome(config: ActionConfig, dry_run: bool, action: Action) -> Option<
    (bool, Seq<char>),
> {
    if dry_run {
        Some((true, "Dry run - no action taken"@))
    } else {
        match action {
            Action::NoOperation => Some((true, "No action taken"@)),
            Action::DeleteTempFiles => if !config.enable_temp_cleanup {
                Some((true, "Temp cleanup disabled in config"@))
            } else {
                None
            },
            Action::CompressFiles => if !config.enable_compression {
                Some((true, "Compression disabled in config"@))
            } else {
                None
            },
            Action::BalanceMetadata => if !config.enable_balance {
                Some((true, "Balance disabled in config"@))
            } else {
                None
            },
            Action::CleanupSnapshots => if !config.enable_snapshot_cleanup {
                Some((true, "Snapshot cleanup disabled in config"@))
            } else {
                None
            },
        }
    }
}

/// Whether the configuration lets `action` do work: each storage action has its own
/// switch, and the no-operation action never does any.
pub open spec fn action_enabled(config: ActionConfig, action: Action) -> bool {
    match action {
        Action::NoOperation => false,
        Action::DeleteTempFiles => config.enable_temp_cleanup,
        Action::CompressFiles => config.enable_compression,
        Action::BalanceMetadata => config.enable_balance,
        Action::CleanupSnapshots => config.enable_snapshot_cleanup,
    }
}

/// The law of the guards: an action's work is carried out exactly when it is not a dry
/// run and the configuration enables the action; every action that ends early ends
/// with success; a dry run says so whatever the action; and an action disabled in the
/// configuration ends with the message that names its switch.
pub proof fn lemma_disabled_actions_never_run(config: ActionConfig, dry_run: bool, action: Action)
    ensures
        early_outcome(config, dry_run, action) is None <==> (!dry_run && action_enabled(
            config,
            action,
        )),
        early_outcome(config, dry_run, action) matches Some((success, _)) ==> success,
        dry_run ==> early_outcome(config, dry_run, action) == Some(
            (true, "Dry run - no action taken"@),
        ),
        !dry_run && action == Action::NoOperation ==> early_outcome(config, dry_run, action)
            == Some((true, "No action taken"@)),
        !dry_run && action == Action::DeleteTempFiles && !config.enable_temp_cleanup
            ==> early_outcome(config, dry_run, action) == Some(
            (true, "Temp cleanup disabled in config"@),
        ),
        !dry_run && action == Action::CompressFiles && !config.enable_compression
            ==> early_outcome(config, dry_run, action) == Some(
            (true, "Compression disabled in config"@),
        ),
        !dry_run && action == Action::BalanceMetadata && !config.enable_balance
            ==> early_outcome(config, dry_run, action) == Some(
            (true, "Balance disabled in config"@),
        ),
        !dry_run && action == Action::CleanupSnapshots && !config.enable_snapshot_cleanup
            ==> early_outcome(config, dry_run, action) == Some(
            (true, "Snapshot cleanup disabled in config"@),
        ),
{
}

#[derive(Debug, Clone)]
pub struct ActionExecutor {
    config: ActionConfig,
    dry_run: bool,
}

impl ActionExecutor {
    pub closed spec fn spec_config(&self) -> ActionConfig {
        self.config
    }

    pub closed spec fn spec_dry_run(&self) -> bool {
        self.dry_run
    }

    pub fn new(config: ActionConfig, dry_run: bool) -> (e: Self)
        ensures
            e.spec_config() == config,
            e.spec_dry_run() == dry_run,
    {
        ActionExecutor { config, dry_run }
    }

    pub fn config(&self) -> (c: &ActionConfig)
        ensures
            *c == self.spec_config(),
    {
        &self.config
    }

    pub fn dry_run(&self) -> (b: bool)
        ensures
            b == self.spec_dry_run(),
    {
        self.dry_run
    }

    /// Whether `action` ends before any command runs (in a dry run, for the
    /// no-operation action, or when the configuration disables it), and how.
    pub fn decide_action(&self, action: Action) -> (s: ActionStep)
        ensures
            match s {
                ActionStep::Finished { success, message } => early_outcome(
                    self.spec_config(),
                    self.spec_dry_run(),
                    action,
                ) == Some((success, message@)),
                ActionStep::Perform(a) => a == action && early_outcome(
                    self.spec_config(),
                    self.spec_dry_run(),
                    action,
                ) is None,
            },
            s is Perform <==> (!self.spec_dry_run() && action_enabled(self.spec_config(), action)),
    {
        if self.dry_run {
            return ActionStep::Finished {
                success: true,
                message: String::from_str("Dry run - no action taken"),
            };
        }
        match action {
            Action::NoOperation => ActionStep::Finished {
                success: true,
                message: String::from_str("No action taken"),
            },
            Action::DeleteTempFiles => if !self.config.enable_temp_cleanup {
                ActionStep::Finished {
                    success: true,
                    message: String::from_str("Temp cleanup disabled in config"),
                }
            } else {
                ActionStep::Perform(action)
            },
            Action::CompressFiles => if !self.config.enable_compression {
                ActionStep::Finished {
                    success: true,
                    message: String::from_str("Compression disabled in config"),
                }
            } else {
                ActionStep::Perform(action)
            },
            Action::BalanceMetadata => if !self.config.enable_balance {
                ActionStep::Finished {
                    success: true,
                    message: String::from_str("Balance disabled in config"),
                }
            } else {
                ActionStep::Perform(action)
            },
            Action::CleanupSnapshots => if !self.config.enable_snapshot_cleanup {
                ActionStep::Finished {
                    success: true,
                    message: String::from_str("Snapshot cleanup disabled in config"),
                }
            } else {
                ActionStep::Perform(action)
            },
        }
    }

    /// Whether a configured temporary path may be used: no NUL, no `..`, and only
    /// ASCII letters, digits and `/ _ - . *`.
    pub fn is_safe_temp_path(path: &str) -> (b: bool)
        ensures
            b == safe_temp_path(path@),
    {
        let v = chars_of(path);
        if contains_char(&v, '\0') {
            return false;
        }
        let dots = chars_of("..");
        proof {
            reveal_strlit("..");
        }
        if contains_seq(&v, &dots) {
            return false;
        }
        let mut i: usize = 0;
        while i < v.len()
            invariant
                v@ == path@,
                !has_char(v@, '\0'),
                !has_sub(v@, ".."@),
                i <= v.len(),
                forall|k: int| 0 <= k < i ==> safe_temp_char(#[trigger] v@[k]),
            decreases v.len() - i,
        {
            let c = v[i];
            let ok = ('0' <= c && c <= '9') || ('a' <= c && c <= 'z') || ('A' <= c && c <= 'Z')
                || c == '/' || c == '_' || c == '-' || c == '.' || c == '*';
            if !ok {
                assert(!safe_temp_char(v@[i as int]));
                return false;
            }
            i = i + 1;
        }
        true
    }

    /// How a configured temporary path is cleaned, decided before any filesystem access.
    pub fn cleanup_plan(path: &str) -> (r: TempCleanup)
        ensures
            temp_cleanup_matches(r, path@),
    {
        if !Self::is_safe_temp_path(path) {
            return TempCleanup::Refused(concat2("Refusing to clean unsafe temp path: ", path));
        }
        let v = chars_of(path);
        if contains_char(&v, '*') {
            if str_eq(path, "/home/*/.cache") {
                return TempCleanup::UserCaches;
            }
            return TempCleanup::Refused(concat2("Unsupported glob pattern: ", path));
        }
        if str_eq(path, "/tmp") || str_eq(path, "/var/tmp") {
            TempCleanup::DeleteOlderThan(7)
        } else if str_eq(path, "/var/cache") {
            TempCleanup::SystemCaches
        } else {
            TempCleanup::Skipped
        }
    }

    /// The absolute paths of the snapshots that `btrfs subvolume list -s /` lists: for
    /// each line holding ` path `, `/` followed by what comes after its last ` path `.
    pub fn parse_snapshot_paths(output: &str) -> (paths: Vec<String>)
        ensures
            string_views(paths@) == lines(output@).filter_map(snapshot_path_fn()),
    {
        let v = chars_of(output);
        let ls = lines_of(&v);
        let marker = chars_of(" path ");
        proof {
            reveal_strlit(" path ");
        }
        let mut paths: Vec<String> = Vec::new();
        let ghost f = snapshot_path_fn();
        for i in 0..ls.len()
            invariant
                crate::text::views(ls@) == lines(output@),
                marker@ == " path "@,
                f == snapshot_path_fn(),
                string_views(paths@) == crate::text::views(ls@).take(i as int).filter_map(f),
        {
            let ghost lv = crate::text::views(ls@);
            proof {
                reveal_strlit(" path ");
                assert(marker@.len() == 6);
                lv.lemma_filter_map_take_succ(f, i as int);
                assert(lv[i as int] == ls@[i as int]@);
            }
            let line = &ls[i];
            let ghost before = string_views(paths@);
            match rfind_seq(line, &marker) {
                Some(pos) => {
                    proof {
                        lemma_last_occurrence_unique(line@, marker@, pos as int);
                        assert(occurs_at(line@, marker@, pos as int));
                        assert(f(lv[i as int]) == snapshot_path_of(line@));
                    }
                    assert(pos + marker@.len() <= line@.len());
                    let n = line.len();
                    let rest = crate::text::slice_chars(line, pos + 6, n);
                    let p = string_after("/", &rest);
                    proof {
                        reveal_strlit("/");
                    }
                    proof {
                        crate::text::lemma_string_views_push(paths@, p);
                    }
                    paths.push(p);
                    assert(p@ == seq!['/'] + line@.skip(pos + 6));
                },
                None => {
                    assert(f(lv[i as int]) == snapshot_path_of(line@));
                },
            }
        }
        assert(crate::text::views(ls@).take(ls.len() as int) =~= crate::text::views(ls@));
        paths
    }

    /// Which snapshots a cleanup deletes, oldest first, keeping the newest `keep`.
    pub fn plan_snapshot_cleanup(paths: &Vec<String>, keep: usize) -> (r: SnapshotPlan)
        ensures
            paths@.len() <= keep ==> (r matches SnapshotPlan::KeepAll(m) && m@
                == "No snapshots to clean (keeping "@ + decimal(keep as nat) + " snapshots)"@),
            paths@.len() > keep ==> (r matches SnapshotPlan::Delete { to_delete, unsafe_paths }
                && string_views(to_delete@) == string_views(paths@).take(
                paths@.len() - keep,
            ).filter(safe_path_fn()) && string_views(unsafe_paths@) == string_views(paths@).take(
                paths@.len() - keep,
            ).filter(unsafe_path_fn())),
            r matches SnapshotPlan::Delete { to_delete, unsafe_paths } ==> {
                &&& to_delete@.len() + unsafe_paths@.len() == paths@.len() - keep
                &&& forall|i: int| 0 <= i < to_delete@.len() ==> safe_temp_path(#[trigger] to_delete@[i]@)
            },
    {
        if paths.len() <= keep {
            let mut m = String::from_str("No snapshots to clean (keeping ");
            append_decimal(&mut m, keep as u64);
            m.append(" snapshots)");
            return SnapshotPlan::KeepAll(m);
        }
        let n = paths.len() - keep;
        let ghost sv = string_views(paths@);
        let ghost safe = safe_path_fn();
        let ghost bad = unsafe_path_fn();
        let mut to_delete: Vec<String> = Vec::new();
        let mut unsafe_paths: Vec<String> = Vec::new();
        for i in 0..n
            invariant
                n <= paths.len(),
                sv == string_views(paths@),
                safe == safe_path_fn(),
                bad == unsafe_path_fn(),
                string_views(to_delete@) == sv.take(i as int).filter(safe),
                string_views(unsafe_paths@) == sv.take(i as int).filter(bad),
        {
            proof {
                crate::text::lemma_filter_take_succ(sv, safe, i as int);
                crate::text::lemma_filter_take_succ(sv, bad, i as int);
            }
            let p = paths[i].clone();
            assert(p@ == sv[i as int]);
            let ok = Self::is_safe_temp_path(p.as_str());
            assert(safe(sv[i as int]) == ok && bad(sv[i as int]) == !ok);
            if ok {
                proof {
                    crate::text::lemma_string_views_push(to_delete@, p);
                }
                to_delete.push(p);
            } else {
                proof {
                    crate::text::lemma_string_views_push(unsafe_paths@, p);
                }
                unsafe_paths.push(p);
            }
        }
        proof {
            let oldest = sv.take(n as int);
            assert(sv.take(n as int) =~= oldest);
            lemma_snapshot_plan_partition(oldest);
            assert forall|i: int| 0 <= i < to_delete@.len() implies safe_temp_path(#[trigger] to_delete@[i]@) by {
                let d = string_views(to_delete@);
                assert(d[i] == to_delete@[i]@);
                assert(d.contains(d[i]));
                lemma_filter_contains(oldest, safe_path_fn(), d[i]);
            }
        }
        SnapshotPlan::Delete { to_delete, unsafe_paths }
    }
}

pub open spec fn safe_temp_char(c: char) -> bool {
    is_ascii_alnum(c) || c == '/' || c == '_' || c == '-' || c == '.' || c == '*'
}

/// A temporary path that cleanup may use.
pub open spec fn safe_temp_path(p: Seq<char>) -> bool {
    &&& !has_char(p, '\0')
    &&& !has_sub(p, ".."@)
    &&& forall|i: int| 0 <= i < p.len() ==> safe_temp_char(#[trigger] p[i])
}

/// How one configured temporary path is cleaned.
#[derive(Debug, Clone)]
pub enum TempCleanup {
    /// The path is refused before any filesystem access, for this reason.
    Refused(String),
    /// The per-user cache pattern: each `.cache` directory under `/home` is cleaned.
    UserCaches,
    /// The path is not on the allowlist and is left alone.
    Skipped,
    /// Files under the path not accessed for this many days are deleted.
    DeleteOlderThan(u32),
    /// The package managers' caches are cleaned.
    SystemCaches,
}

/// `r` is how `path` is cleaned: refused when unsafe or an unsupported pattern, the
/// per-user caches for `/home/*/.cache`, week-old files for `/tmp` and `/var/tmp`, the
/// package caches for `/var/cache`, and nothing for any other path.
pub open spec fn temp_cleanup_matches(r: TempCleanup, path: Seq<char>) -> bool {
    if !safe_temp_path(path) {
        r matches TempCleanup::Refused(m) && m@ == "Refusing to clean unsafe temp path: "@ + path
    } else if has_char(path, '*') {
        if path == "/home/*/.cache"@ {
            r is UserCaches
        } else {
            r matches TempCleanup::Refused(m) && m@ == "Unsupported glob pattern: "@ + path
        }
    } else if path == "/tmp"@ || path == "/var/tmp"@ {
        r == TempCleanup::DeleteOlderThan(7)
    } else if path == "/var/cache"@ {
        r is SystemCaches
    } else {
        r is Skipped
    }
}

/// The law of temporary path cleanup: a path that holds `..` or a NUL, or any
/// character outside letters, digits and `/ _ - . *`, is refused before anything is
/// touched; files are deleted by age only under `/tmp` and `/var/tmp`, and only when a
/// week old; the package caches are cleaned only for `/var/cache`; the user caches
/// only for `/home/*/.cache`; and every other glob pattern is refused.
pub proof fn lemma_temp_cleanup_safe(r: TempCleanup, path: Seq<char>)
    requires
        temp_cleanup_matches(r, path),
    ensures
        has_sub(path, ".."@) || has_char(path, '\0') ==> r is Refused,
        (exists|i: int| 0 <= i < path.len() && !safe_temp_char(#[trigger] path[i])) ==> r is Refused,
        r matches TempCleanup::DeleteOlderThan(days) ==> days == 7 && (path == "/tmp"@ || path
            == "/var/tmp"@),
        r is SystemCaches ==> path == "/var/cache"@,
        r is UserCaches ==> path == "/home/*/.cache"@,
        has_char(path, '*') && path != "/home/*/.cache"@ ==> r is Refused,
        !(r is Refused) ==> safe_temp_path(path),
{
}

pub open spec fn safe_path_fn() -> spec_fn(Seq<char>) -> bool {
    |p: Seq<char>| safe_temp_path(p)
}

pub open spec fn unsafe_path_fn() -> spec_fn(Seq<char>) -> bool {
    |p: Seq<char>| !safe_temp_path(p)
}

pub open spec fn snapshot_path_fn() -> spec_fn(Seq<char>) -> Option<Seq<char>> {
    |l: Seq<char>| snapshot_path_of(l)
}

/// The snapshot path named on one line of `btrfs subvolume list` output.
pub open spec fn snapshot_path_of(line: Seq<char>) -> Option<Seq<char>> {
    if has_sub(line, " path "@) {
        let i = choose|i: int| is_last_occurrence(line, " path "@, i);
        Some(seq!['/'] + line.skip(i + 6))
    } else {
        None
    }
}

pub proof fn lemma_last_occurrence_unique(s: Seq<char>, t: Seq<char>, i: int)
    requires
        is_last_occurrence(s, t, i),
    ensures
        has_sub(s, t),
        forall|j: int| is_last_occurrence(s, t, j) ==> j == i,
        (choose|j: int| is_last_occurrence(s, t, j)) == i,
{
    assert(occurs_at(s, t, i));
}

/// Which snapshots a cleanup deletes.
#[derive(Debug, Clone)]
pub enum SnapshotPlan {
    /// There are no more snapshots than are kept; nothing is deleted.
    KeepAll(String),
    /// Delete `to_delete`, oldest first; `unsafe_paths` are skipped.
    Delete { to_delete: Vec<String>, unsafe_paths: Vec<String> },
}

/// What a filter keeps passes the filter.
proof fn lemma_filter_contains(s: Seq<Seq<char>>, f: spec_fn(Seq<char>) -> bool, x: Seq<char>)
    requires
        s.filter(f).contains(x),
    ensures
        f(x),
{
    let i = choose|i: int| 0 <= i < s.filter(f).len() && s.filter(f)[i] == x;
    s.filter_lemma(f);
    assert(f(s.filter(f)[i]));
}

/// The law of a snapshot cleanup plan: the paths to delete and the unsafe paths
/// skipped split the oldest snapshots between them, none left out and none twice.
pub proof fn lemma_snapshot_plan_partition(oldest: Seq<Seq<char>>)
    ensures
        oldest.filter(safe_path_fn()).len() + oldest.filter(unsafe_path_fn()).len() == oldest.len(),
    decreases oldest.len(),
{
    reveal(Seq::filter);
    if oldest.len() > 0 {
        lemma_snapshot_plan_partition(oldest.drop_last());
    }
}

} // verus!
