//! Safety checks before an action, and snapshots of the system to roll back to after a
//! failed one. The checks draw on the random source as simulated checks; what a check
//! reports for each outcome, and which outcomes block an action, is fixed here.
use vstd::prelude::*;

use crate::platform::{new_uuid_text, random_u64, utc_now_micros};
use crate::portcl::actions::Action;
use crate::portcl::error::{random_source_error, random_source_message, PortCLError};
use crate::text::{string_views, str_eq};
use vstd::relations::injective_on;
use vstd::set_lib::{lemma_int_range, lemma_len_subset, lemma_map_size, lemma_set_disjoint_lens, lemma_subset_equality, set_int_range};

verus! {

/// The kinds of safety check.
#[derive(Debug, Clone, Copy, PartialEq, Eq, Structural)]
pub enum SafetyCheckType {
    SystemIntegrity,
    PackageConsistency,
    FileSystemSafety,
    NetworkStability,
    ResourceAvailability,
    ConfigurationValidity,
}

/// How serious a safety finding is.
#[derive(Debug, Clone, Copy, PartialEq, Eq, Structural)]
pub enum SafetySeverity {
    Info,
    Warning,
    Critical,
    Blocking,
}

/// The outcome of one safety check.
#[derive(Debug, Clone)]
pub struct SafetyCheck {
    pub check_type: SafetyCheckType,
    pub passed: bool,
    pub message: String,
    pub severity: SafetySeverity,
    pub recommendations: Vec<String>,
}

/// Which checks run, and what is done around a risky action.
#[derive(Debug, Clone, Copy, PartialEq, Eq, Structural)]
pub struct SafetyConfig {
    pub enable_system_checks: bool,
    pub enable_package_checks: bool,
    pub enable_filesystem_checks: bool,
    pub strict_mode: bool,
    pub auto_rollback_on_failure: bool,
    pub backup_before_critical: bool,
    pub max_backup_size_mb: u64,
}

impl Default for SafetyConfig {
    /// Every check on, not strict, rollback on failure, backups before critical
    /// actions, and backups of up to 1024 MB.
    fn default() -> (c: Self)
        ensures
            c == (SafetyConfig {
                enable_system_checks: true,
                enable_package_checks: true,
                enable_filesystem_checks: true,
                strict_mode: false,
                auto_rollback_on_failure: true,
                backup_before_critical: true,
                max_backup_size_mb: 1024,
            }),
    {
        SafetyConfig {
            enable_system_checks: true,
            enable_package_checks: true,
            enable_filesystem_checks: true,
            strict_mode: false,
            auto_rollback_on_failure: true,
            backup_before_critical: true,
            max_backup_size_mb: 1024,
        }
    }
}

/// The state of one package.
#[derive(Debug, Clone)]
pub struct PackageState {
    pub name: String,
    pub version: String,
    pub slot: String,
    pub repository: String,
    pub installed: bool,
    pub masked: bool,
    pub use_flags: Vec<String>,
}

/// The system as it was before an action: the package database by name, the
/// configuration files by path, and the disk and memory in use, in bytes. The time is
/// in microseconds since the Unix epoch.
#[derive(Debug, Clone)]
pub struct SystemSnapshot {
    pub id: String,
    pub timestamp: i64,
    pub action: Action,
    pub package_database: Vec<(String, PackageState)>,
    pub config_files: Vec<(String, String)>,
    pub disk_usage: u64,
    pub memory_usage: u64,
    pub metadata: Vec<(String, String)>,
}

/// The ids of a list of snapshots.
pub open spec fn snapshot_ids(s: Seq<SystemSnapshot>) -> Seq<Seq<char>> {
    s.map_values(|x: SystemSnapshot| x.id@)
}

/// The times of a list of snapshots.
pub open spec fn snapshot_times(s: Seq<SystemSnapshot>) -> Seq<i64> {
    s.map_values(|x: SystemSnapshot| x.timestamp)
}

/// Snapshot `j` was taken before snapshot `i`: earlier, or at the same time and
/// recorded first.
pub open spec fn older(ts: Seq<i64>, j: int, i: int) -> bool {
    ts[j] < ts[i] || (ts[j] == ts[i] && j < i)
}

/// How many of the first `m` snapshots were taken before snapshot `i`.
pub open spec fn older_count(ts: Seq<i64>, i: int, m: int) -> nat
    decreases m,
{
    if m <= 0 {
        0
    } else {
        older_count(ts, i, m - 1) + if older(ts, m - 1, i) {
            1nat
        } else {
            0nat
        }
    }
}

/// The place of snapshot `i` in the order in which the snapshots were taken.
pub open spec fn age_rank(ts: Seq<i64>, i: int) -> nat {
    older_count(ts, i, ts.len() as int)
}

/// Which snapshots a cleanup keeping `keep` of them leaves: all but the oldest
/// `len - keep`, and never the current one.
pub open spec fn cleanup_marks(
    ts: Seq<i64>,
    ids: Seq<Seq<char>>,
    current: Option<Seq<char>>,
    keep: nat,
) -> Seq<bool> {
    let to_remove = if ts.len() > keep {
        ts.len() - keep
    } else {
        0
    };
    Seq::new(ts.len(), |i: int| !(age_rank(ts, i) < to_remove && current != Some(ids[i])))
}

/// The elements of `s` whose mark is set, in order.
pub open spec fn keep_marked<A>(s: Seq<A>, marks: Seq<bool>) -> Seq<A>
    decreases s.len(),
{
    if s.len() == 0 {
        Seq::empty()
    } else {
        let r = keep_marked(s.drop_last(), marks);
        if marks[s.len() - 1] {
            r.push(s.last())
        } else {
            r
        }
    }
}

/// Holds the snapshots taken before actions, each under its own id, and which one the
/// system was last set to.
pub struct RollbackManager {
    config: SafetyConfig,
    snapshots: Vec<SystemSnapshot>,
    current_snapshot: Option<String>,
}

/// The id of the snapshot with `id`, if there is one.
fn snapshot_position(s: &Vec<SystemSnapshot>, id: &str) -> (r: Option<usize>)
    ensures
        match r {
            Some(i) => i < s.len() && snapshot_ids(s@)[i as int] == id@,
            None => !snapshot_ids(s@).contains(id@),
        },
{
    let mut i: usize = 0;
    while i < s.len()
        invariant
            i <= s.len(),
            forall|j: int| 0 <= j < i ==> snapshot_ids(s@)[j] != id@,
        decreases s.len() - i,
    {
        if str_eq(s[i].id.as_str(), id) {
            return Some(i);
        }
        i = i + 1;
    }
    None
}

/// The number of snapshots taken before snapshot `i`.
fn rank_at(s: &Vec<SystemSnapshot>, i: usize) -> (r: usize)
    requires
        i < s.len(),
    ensures
        r == age_rank(snapshot_times(s@), i as int),
{
    let ghost ts = snapshot_times(s@);
    let t = s[i].timestamp;
    let mut c: usize = 0;
    let mut j: usize = 0;
    while j < s.len()
        invariant
            ts == snapshot_times(s@),
            i < s.len(),
            t == ts[i as int],
            j <= s.len(),
            c == older_count(ts, i as int, j as int),
            c <= j,
        decreases s.len() - j,
    {
        let tj = s[j].timestamp;
        if tj < t || (tj == t && j < i) {
            c = c + 1;
        }
        j = j + 1;
    }
    c
}

fn make_package(
    name: &str,
    version: &str,
    slot: &str,
    flags: Vec<String>,
) -> (p: PackageState)
    ensures
        p.name@ == name@,
        p.version@ == version@,
        p.slot@ == slot@,
        p.repository@ == "gentoo"@,
        p.installed,
        !p.masked,
        p.use_flags@ == flags@,
{
    PackageState {
        name: String::from_str(name),
        version: String::from_str(version),
        slot: String::from_str(slot),
        repository: String::from_str("gentoo"),
        installed: true,
        masked: false,
        use_flags: flags,
    }
}

/// The package database a snapshot records: Portage 3.0.56 and Rust 1.75.0.
fn simulated_package_database() -> (db: Vec<(String, PackageState)>)
    ensures
        db.len() == 2,
        db@[0].0@ == "sys-apps/portage"@,
        db@[1].0@ == "dev-lang/rust"@,
{
    let mut db: Vec<(String, PackageState)> = Vec::new();
    let mut f1: Vec<String> = Vec::new();
    f1.push(String::from_str("-X"));
    f1.push(String::from_str("python"));
    f1.push(String::from_str("ipc"));
    db.push(
        (String::from_str("sys-apps/portage"), make_package("sys-apps/portage", "3.0.56", "0", f1)),
    );
    let mut f2: Vec<String> = Vec::new();
    f2.push(String::from_str("clippy"));
    f2.push(String::from_str("rustfmt"));
    db.push(
        (String::from_str("dev-lang/rust"), make_package("dev-lang/rust", "1.75.0", "stable", f2)),
    );
    db
}

/// The configuration files a snapshot records: `make.conf` and `package.use`.
fn simulated_config_files() -> (files: Vec<(String, String)>)
    ensures
        files.len() == 2,
        files@[0].0@ == "/etc/portage/make.conf"@,
        files@[1].0@ == "/etc/portage/package.use"@,
{
    let mut files: Vec<(String, String)> = Vec::new();
    files.push(
        (
            String::from_str("/etc/portage/make.conf"),
            String::from_str("# Generated by PortCL\nUSE=\"-X python ipc\"\nMAKEOPTS=\"-j4\"\n"),
        ),
    );
    files.push(
        (
            String::from_str("/etc/portage/package.use"),
            String::from_str("# Custom USE flags\ndev-lang/rust clippy rustfmt\n"),
        ),
    );
    files
}

/// What a snapshot records of the system: the Portage and Rust packages, `make.conf` and
/// `package.use`, 50 GiB of disk and 8 GiB of memory in use, and no metadata.
pub open spec fn simulated_record(s: SystemSnapshot) -> bool {
    &&& s.package_database@.len() == 2
    &&& s.package_database@[0].0@ == "sys-apps/portage"@
    &&& s.package_database@[1].0@ == "dev-lang/rust"@
    &&& s.config_files@.len() == 2
    &&& s.config_files@[0].0@ == "/etc/portage/make.conf"@
    &&& s.config_files@[1].0@ == "/etc/portage/package.use"@
    &&& s.disk_usage == 0xC_8000_0000
    &&& s.memory_usage == 0x2_0000_0000
    &&& s.metadata@.len() == 0
}

impl RollbackManager {
    /// The snapshots, in the order they were first taken.
    pub closed spec fn entries(&self) -> Seq<SystemSnapshot> {
        self.snapshots@
    }

    pub open spec fn ids(&self) -> Seq<Seq<char>> {
        snapshot_ids(self.entries())
    }

    /// The id of the snapshot the system was last set to.
    pub closed spec fn current(&self) -> Option<Seq<char>> {
        match self.current_snapshot {
            Some(s) => Some(s@),
            None => None,
        }
    }

    pub closed spec fn spec_config(&self) -> SafetyConfig {
        self.config
    }

    #[verifier::type_invariant]
    spec fn wf(&self) -> bool {
        &&& snapshot_ids(self.snapshots@).no_duplicates()
        &&& (self.current_snapshot matches Some(c) ==> snapshot_ids(self.snapshots@).contains(c@))
    }

    /// A manager with the default configuration and no snapshots.
    pub fn new() -> (m: Self)
        ensures
            m.ids().len() == 0,
            m.current() is None,
            m.spec_config() == (SafetyConfig {
                enable_system_checks: true,
                enable_package_checks: true,
                enable_filesystem_checks: true,
                strict_mode: false,
                auto_rollback_on_failure: true,
                backup_before_critical: true,
                max_backup_size_mb: 1024,
            }),
    {
        Self::with_config(SafetyConfig::default())
    }

    /// A manager with `config` and no snapshots.
    pub fn with_config(config: SafetyConfig) -> (m: Self)
        ensures
            m.ids().len() == 0,
            m.current() is None,
            m.spec_config() == config,
    {
        let m = RollbackManager { config, snapshots: Vec::new(), current_snapshot: None };
        assert(m.ids() =~= Seq::<Seq<char>>::empty());
        m
    }

    /// Records a snapshot of the system before `action`, under a new id, `snapshot_`
    /// and a UUID, and makes it the current one. A snapshot with the same id is
    /// replaced. When the random source that the UUID comes from fails, nothing changes
    /// and the error is a system error.
    pub fn create_snapshot(&mut self, action: &Action) -> (r: Result<String, PortCLError>)
        ensures
            final(self).spec_config() == old(self).spec_config(),
            match r {
                Ok(id) => {
                    &&& id@.len() == 45
                    &&& id@.take(9) == "snapshot_"@
                    &&& final(self).ids().to_set() == old(self).ids().to_set().insert(id@)
                    &&& final(self).current() == Some(id@)
                    &&& exists|i: int|
                        0 <= i < final(self).ids().len() && #[trigger] final(self).ids()[i] == id@
                            && final(self).entries()[i].action.same_as(action) && simulated_record(
                            final(self).entries()[i],
                        )
                },
                Err(e) => {
                    &&& e matches PortCLError::System(m) && m@ == random_source_message()
                    &&& final(self).entries() == old(self).entries()
                    &&& final(self).current() == old(self).current()
                },
            },
    {
        match new_uuid_text() {
            Some(u) => {
                let id = self.record_snapshot(action, u);
                proof {
                    reveal_strlit("snapshot_");
                    assert(id@.take(9) =~= "snapshot_"@);
                }
                Ok(id)
            },
            None => Err(random_source_error()),
        }
    }

    /// Records a snapshot of the system before `action` under the id `snapshot_`
    /// followed by `uuid`, and makes it the current one; a snapshot with the same id is
    /// replaced. The snapshot holds the current time and the simulated system record.
    pub fn record_snapshot(&mut self, action: &Action, uuid: String) -> (id: String)
        ensures
            final(self).spec_config() == old(self).spec_config(),
            id@ == "snapshot_"@ + uuid@,
            final(self).ids().to_set() == old(self).ids().to_set().insert(id@),
            final(self).current() == Some(id@),
            exists|i: int|
                0 <= i < final(self).ids().len() && #[trigger] final(self).ids()[i] == id@
                    && final(self).entries()[i].action.same_as(action) && simulated_record(
                    final(self).entries()[i],
                ),
    {
        proof {
            use_type_invariant(&*self);
        }
        let u = uuid;
        let mut id = String::from_str("snapshot_");
        id.append(u.as_str());
        proof {
            reveal_strlit("snapshot_");
            assert(id@.take(9) =~= "snapshot_"@);
        }
        let snapshot = SystemSnapshot {
            id: id.clone(),
            timestamp: utc_now_micros(),
            action: action.duplicate(),
            package_database: simulated_package_database(),
            config_files: simulated_config_files(),
            disk_usage: 50 * 1024 * 1024 * 1024,
            memory_usage: 8 * 1024 * 1024 * 1024,
            metadata: Vec::new(),
        };
        self.current_snapshot = None;
        let mut entries: Vec<SystemSnapshot> = Vec::new();
        std::mem::swap(&mut entries, &mut self.snapshots);
        let ghost before = entries@;
        let ghost pos: int;
        match snapshot_position(&entries, id.as_str()) {
            Some(i) => {
                entries.set(i, snapshot);
                proof {
                    pos = i as int;
                }
                assert(snapshot_ids(entries@) =~= snapshot_ids(before));
                assert(snapshot_ids(before).contains(id@));
                assert(snapshot_ids(entries@).to_set() =~= snapshot_ids(before).to_set().insert(id@));
            },
            None => {
                entries.push(snapshot);
                proof {
                    pos = before.len() as int;
                }
                assert(snapshot_ids(entries@) =~= snapshot_ids(before).push(id@));
                assert forall|k: Seq<char>| snapshot_ids(entries@).contains(k) <==> (snapshot_ids(
                    before,
                ).contains(k) || k == id@) by {
                    if snapshot_ids(entries@).contains(k) {
                        let j = choose|j: int|
                            0 <= j < snapshot_ids(entries@).len() && snapshot_ids(entries@)[j] == k;
                        if j < before.len() {
                            assert(snapshot_ids(before)[j] == k);
                        }
                    }
                    if snapshot_ids(before).contains(k) {
                        let j = choose|j: int|
                            0 <= j < snapshot_ids(before).len() && snapshot_ids(before)[j] == k;
                        assert(snapshot_ids(entries@)[j] == k);
                    }
                    if k == id@ {
                        assert(snapshot_ids(entries@)[before.len() as int] == k);
                    }
                }
                assert(snapshot_ids(entries@).to_set() =~= snapshot_ids(before).to_set().insert(id@));
            },
        }
        assert(snapshot_ids(entries@)[pos] == id@);
        assert(simulated_record(entries@[pos]));
        assert(snapshot_ids(entries@).contains(id@));
        self.snapshots = entries;
        self.current_snapshot = Some(id.clone());
        assert(self.ids()[pos] == id@);
        id
    }

    /// Sets the system back to the snapshot `snapshot_id`, which becomes the current
    /// one; an unknown id is a validation error and changes nothing. Restoring the
    /// recorded packages and files is the caller's part.
    pub fn rollback_to_snapshot(&mut self, snapshot_id: &str) -> (r: Result<(), PortCLError>)
        ensures
            final(self).entries() == old(self).entries(),
            final(self).spec_config() == old(self).spec_config(),
            match r {
                Ok(_) => old(self).ids().contains(snapshot_id@) && final(self).current() == Some(
                    snapshot_id@,
                ),
                Err(e) => !old(self).ids().contains(snapshot_id@) && final(self).current() == old(self).current() && (e matches PortCLError::Validation(m) && m@ == "Snapshot "@
                    + snapshot_id@ + " not found"@),
            },
    {
        proof {
            use_type_invariant(&*self);
        }
        match snapshot_position(&self.snapshots, snapshot_id) {
            None => {
                let mut m = String::from_str("Snapshot ");
                m.append(snapshot_id);
                m.append(" not found");
                Err(PortCLError::Validation(m))
            },
            Some(_) => {
                self.current_snapshot = Some(String::from_str(snapshot_id));
                Ok(())
            },
        }
    }

    /// Sets the system back to the current snapshot; with none, a validation error.
    pub fn rollback_to_latest(&mut self) -> (r: Result<(), PortCLError>)
        ensures
            final(self).entries() == old(self).entries(),
            final(self).current() == old(self).current(),
            match r {
                Ok(_) => old(self).current() is Some,
                Err(e) => old(self).current() is None && (e matches PortCLError::Validation(m)
                    && m@ == "No snapshot available for rollback"@),
            },
    {
        proof {
            use_type_invariant(&*self);
        }
        let latest = match &self.current_snapshot {
            Some(c) => c.clone(),
            None => {
                return Err(
                    PortCLError::Validation(String::from_str("No snapshot available for rollback")),
                );
            },
        };
        self.rollback_to_snapshot(latest.as_str())
    }

    /// The snapshots, in the order they were first taken.
    pub fn list_snapshots(&self) -> (v: Vec<&SystemSnapshot>)
        ensures
            v.len() == self.entries().len(),
            forall|i: int| 0 <= i < v.len() ==> *v[i] == self.entries()[i],
    {
        let mut v: Vec<&SystemSnapshot> = Vec::new();
        for i in 0..self.snapshots.len()
            invariant
                v.len() == i,
                forall|j: int| 0 <= j < i ==> *v[j] == self.entries()[j],
        {
            v.push(&self.snapshots[i]);
        }
        v
    }

    /// The snapshot with `snapshot_id`.
    pub fn get_snapshot(&self, snapshot_id: &str) -> (r: Option<&SystemSnapshot>)
        ensures
            match r {
                Some(s) => s.id@ == snapshot_id@ && exists|i: int|
                    0 <= i < self.entries().len() && #[trigger] self.entries()[i] == *s,
                None => !self.ids().contains(snapshot_id@),
            },
    {
        match snapshot_position(&self.snapshots, snapshot_id) {
            Some(i) => {
                assert(self.entries()[i as int] == self.snapshots@[i as int]);
                Some(&self.snapshots[i])
            },
            None => None,
        }
    }

    /// The id of the current snapshot.
    pub fn current_snapshot(&self) -> (c: &Option<String>)
        ensures
            match *c {
                Some(s) => self.current() == Some(s@),
                None => self.current() is None,
            },
    {
        &self.current_snapshot
    }

    /// Deletes the oldest snapshots beyond the newest `keep_count`, except the current
    /// one, and says how many were deleted (see `cleanup_marks`).
    pub fn cleanup_old_snapshots(&mut self, keep_count: usize) -> (removed: u32)
        requires
            old(self).entries().len() <= u32::MAX,
        ensures
            ({
                let marks = cleanup_marks(
                    snapshot_times(old(self).entries()),
                    old(self).ids(),
                    old(self).current(),
                    keep_count as nat,
                );
                &&& final(self).entries() == keep_marked(old(self).entries(), marks)
                &&& removed == old(self).entries().len() - final(self).entries().len()
            }),
            old(self).entries().len() <= keep_count ==> removed == 0,
            old(self).entries().len() > keep_count ==> removed == old(self).entries().len() - keep_count
                - (if current_among_oldest(
                snapshot_times(old(self).entries()),
                old(self).ids(),
                old(self).current(),
                (old(self).entries().len() - keep_count) as nat,
            ) {
                1int
            } else {
                0int
            }),
            final(self).current() == old(self).current(),
            final(self).spec_config() == old(self).spec_config(),
    {
        proof {
            use_type_invariant(&*self);
        }
        let n = self.snapshots.len();
        let to_remove: usize = if n > keep_count {
            n - keep_count
        } else {
            0
        };
        let ghost orig = self.snapshots@;
        let ghost cur = self.current();
        let ghost marks = cleanup_marks(
            snapshot_times(orig),
            snapshot_ids(orig),
            self.current(),
            keep_count as nat,
        );
        let mut flags: Vec<bool> = Vec::new();
        for i in 0..n
            invariant
                n == self.snapshots.len(),
                orig == self.snapshots@,
                marks == cleanup_marks(
                    snapshot_times(orig),
                    snapshot_ids(orig),
                    self.current(),
                    keep_count as nat,
                ),
                to_remove == (if n > keep_count {
                    n - keep_count
                } else {
                    0
                }),
                flags.len() == i,
                forall|j: int| 0 <= j < i ==> flags@[j] == marks[j],
        {
            let r = rank_at(&self.snapshots, i);
            let is_current = match &self.current_snapshot {
                Some(c) => str_eq(c.as_str(), self.snapshots[i].id.as_str()),
                None => false,
            };
            assert(is_current == (self.current() == Some(snapshot_ids(orig)[i as int])));
            flags.push(!(r < to_remove && !is_current));
        }
        let mut saved_current: Option<String> = None;
        std::mem::swap(&mut saved_current, &mut self.current_snapshot);
        let mut old_entries: Vec<SystemSnapshot> = Vec::new();
        std::mem::swap(&mut old_entries, &mut self.snapshots);
        let mut kept: Vec<SystemSnapshot> = Vec::new();
        let mut removed: u32 = 0;
        let mut i: usize = 0;
        let ghost mut idx: Seq<int> = Seq::empty();
        while old_entries.len() > 0
            invariant
                n == orig.len(),
                n <= u32::MAX,
                marks.len() == n,
                flags.len() == n,
                forall|j: int| 0 <= j < n ==> flags@[j] == marks[j],
                i <= n,
                old_entries@ == orig.skip(i as int),
                kept@ == keep_marked(orig.take(i as int), marks),
                removed == i - kept.len(),
                idx.len() == kept.len(),
                forall|t: int| 0 <= t < idx.len() ==> 0 <= #[trigger] idx[t] < i && kept@[t] == orig[idx[t]],
                forall|t: int, u: int| 0 <= t < u < idx.len() ==> idx[t] < idx[u],
                forall|j: int| 0 <= j < i && #[trigger] marks[j] ==> exists|t: int| 0 <= t < idx.len() && idx[t] == j,
            decreases old_entries.len(),
        {
            assert(orig.take(i as int + 1).drop_last() =~= orig.take(i as int));
            let s = old_entries.remove(0);
            assert(s == orig[i as int]);
            assert(old_entries@ =~= orig.skip(i as int + 1));
            if flags[i] {
                kept.push(s);
                proof {
                    let old_idx = idx;
                    idx = idx.push(i as int);
                    assert forall|j: int| 0 <= j < i + 1 && #[trigger] marks[j] implies exists|t: int|
                        0 <= t < idx.len() && idx[t] == j by {
                        if j == i {
                            assert(idx[old_idx.len() as int] == j);
                        } else {
                            let t = choose|t: int| 0 <= t < old_idx.len() && old_idx[t] == j;
                            assert(idx[t] == j);
                        }
                    }
                }
            } else {
                removed = removed + 1;
            }
            i = i + 1;
        }
        assert(orig.take(n as int) =~= orig);
        proof {
            let ki = snapshot_ids(kept@);
            assert forall|a: int, b: int| 0 <= a < ki.len() && 0 <= b < ki.len() && a != b implies ki[a] != ki[b] by {
                assert(ki[a] == snapshot_ids(orig)[idx[a]]);
                assert(ki[b] == snapshot_ids(orig)[idx[b]]);
                if a < b {
                    assert(idx[a] < idx[b]);
                } else {
                    assert(idx[b] < idx[a]);
                }
            }
            match cur {
                Some(c) => {
                    let j = choose|j: int| 0 <= j < snapshot_ids(orig).len() && snapshot_ids(orig)[j] == c;
                    assert(marks[j]);
                    let t = choose|t: int| 0 <= t < idx.len() && idx[t] == j;
                    assert(ki[t] == c);
                },
                None => {},
            }
        }
        proof {
            lemma_cleanup_keeps_newest(orig, cur, keep_count as nat);
        }
        self.snapshots = kept;
        self.current_snapshot = saved_current;
        removed
    }
}

/// Which simulated checks passed, in the order they are drawn.
#[derive(Debug, Clone, Copy, PartialEq, Eq, Structural)]
pub struct CheckOutcomes {
    pub system_integrity: bool,
    pub resource_availability: bool,
    pub package_consistency: bool,
    pub filesystem_safety: bool,
}

/// The message of a check of `t` that passed or failed.
pub open spec fn check_message(t: SafetyCheckType, passed: bool) -> Seq<char> {
    match t {
        SafetyCheckType::SystemIntegrity => if passed {
            "System integrity check passed"@
        } else {
            "System integrity check failed"@
        },
        SafetyCheckType::PackageConsistency => if passed {
            "Package consistency check passed"@
        } else {
            "Package database inconsistencies detected"@
        },
        SafetyCheckType::FileSystemSafety => if passed {
            "Filesystem safety check passed"@
        } else {
            "Filesystem may be unstable"@
        },
        _ => if passed {
            "Sufficient resources available"@
        } else {
            "Insufficient system resources"@
        },
    }
}

/// The severity of a failed check of `t`: a failed filesystem check blocks the action.
pub open spec fn failure_severity(t: SafetyCheckType) -> SafetySeverity {
    match t {
        SafetyCheckType::SystemIntegrity => SafetySeverity::Critical,
        SafetyCheckType::FileSystemSafety => SafetySeverity::Blocking,
        _ => SafetySeverity::Warning,
    }
}

/// What a failed check of `t` recommends.
pub open spec fn check_advice(t: SafetyCheckType) -> Seq<char> {
    match t {
        SafetyCheckType::SystemIntegrity => "Check system logs for errors"@,
        SafetyCheckType::PackageConsistency => "Run 'emerge --sync' to update package database"@,
        SafetyCheckType::FileSystemSafety => "Check filesystem integrity with 'fsck'"@,
        _ => "Free up disk space or close memory-intensive applications"@,
    }
}

/// `c` is the report of a check of `t` that passed or failed.
pub open spec fn check_matches(c: SafetyCheck, t: SafetyCheckType, passed: bool) -> bool {
    &&& c.check_type == t
    &&& c.passed == passed
    &&& c.message@ == check_message(t, passed)
    &&& c.severity == if passed {
        SafetySeverity::Info
    } else {
        failure_severity(t)
    }
    &&& string_views(c.recommendations@) == if passed {
        Seq::<Seq<char>>::empty()
    } else {
        seq![check_advice(t)]
    }
}

fn make_check(
    t: SafetyCheckType,
    passed: bool,
    ok: &str,
    bad: &str,
    severity: SafetySeverity,
    advice: &str,
) -> (c: SafetyCheck)
    requires
        ok@ == check_message(t, true),
        bad@ == check_message(t, false),
        severity == failure_severity(t),
        advice@ == check_advice(t),
    ensures
        check_matches(c, t, passed),
{
    let mut recommendations: Vec<String> = Vec::new();
    if !passed {
        recommendations.push(String::from_str(advice));
    }
    assert(string_views(recommendations@) =~= if passed {
        Seq::<Seq<char>>::empty()
    } else {
        seq![check_advice(t)]
    });
    SafetyCheck {
        check_type: t,
        passed,
        message: String::from_str(if passed {
            ok
        } else {
            bad
        }),
        severity: if passed {
            SafetySeverity::Info
        } else {
            severity
        },
        recommendations,
    }
}

/// Whether a simulated check passes on the draw `r`: the draw's top 53 bits, read as
/// a fraction of 2^53, exceed the failure rate (0.1 or 0.05 as `f64`, times 2^53 and
/// rounded up, is `min_fraction`). With no draw, because the random source failed, the
/// check is reported as failed.
fn draw_passes(r: Option<u64>, min_fraction: u64) -> (b: bool)
    ensures
        b == match r {
            Some(x) => x / 0x800 >= min_fraction,
            None => false,
        },
{
    match r {
        Some(x) => x / 0x800 >= min_fraction,
        None => false,
    }
}

/// The checks that the configuration turns on, in the order they run.
pub open spec fn enabled_checks(c: SafetyConfig) -> Seq<SafetyCheckType> {
    (if c.enable_system_checks {
        seq![SafetyCheckType::SystemIntegrity, SafetyCheckType::ResourceAvailability]
    } else {
        Seq::empty()
    }) + (if c.enable_package_checks {
        seq![SafetyCheckType::PackageConsistency]
    } else {
        Seq::empty()
    }) + (if c.enable_filesystem_checks {
        seq![SafetyCheckType::FileSystemSafety]
    } else {
        Seq::empty()
    })
}

/// The outcome that `o` gives for a check of `t`.
pub open spec fn outcome_for(o: CheckOutcomes, t: SafetyCheckType) -> bool {
    match t {
        SafetyCheckType::SystemIntegrity => o.system_integrity,
        SafetyCheckType::ResourceAvailability => o.resource_availability,
        SafetyCheckType::PackageConsistency => o.package_consistency,
        _ => o.filesystem_safety,
    }
}

/// Checks actions before they run and takes snapshots of the system before critical
/// ones.
pub struct SafetyChecker {
    config: SafetyConfig,
    rollback_manager: RollbackManager,
}

impl SafetyChecker {
    pub closed spec fn spec_config(&self) -> SafetyConfig {
        self.config
    }

    pub closed spec fn spec_rollback_manager(&self) -> RollbackManager {
        self.rollback_manager
    }

    /// A checker with the default configuration.
    pub fn new() -> (c: Self)
        ensures
            c.spec_config() == (SafetyConfig {
                enable_system_checks: true,
                enable_package_checks: true,
                enable_filesystem_checks: true,
                strict_mode: false,
                auto_rollback_on_failure: true,
                backup_before_critical: true,
                max_backup_size_mb: 1024,
            }),
            c.spec_rollback_manager().ids().len() == 0,
    {
        Self::with_config(SafetyConfig::default())
    }

    /// A checker with `config`, and a rollback manager with the same configuration.
    pub fn with_config(config: SafetyConfig) -> (c: Self)
        ensures
            c.spec_config() == config,
            c.spec_rollback_manager().spec_config() == config,
            c.spec_rollback_manager().ids().len() == 0,
            c.spec_rollback_manager().current() is None,
    {
        SafetyChecker { config, rollback_manager: RollbackManager::with_config(config) }
    }

    /// The checker's configuration.
    pub fn config(&self) -> (c: &SafetyConfig)
        ensures
            *c == self.spec_config(),
    {
        &self.config
    }

    /// The reports of the enabled checks, given which of them passed; an error when a
    /// failed check blocks the action (only a filesystem check does).
    pub fn validate_with(&self, outcomes: CheckOutcomes) -> (r: Result<Vec<SafetyCheck>, PortCLError>)
        ensures
            ({
                let ts = enabled_checks(self.spec_config());
                let blocked = self.spec_config().enable_filesystem_checks
                    && !outcomes.filesystem_safety;
                match r {
                    Ok(checks) => !blocked && checks.len() == ts.len() && forall|i: int|
                        0 <= i < ts.len() ==> check_matches(
                            #[trigger] checks@[i],
                            ts[i],
                            outcome_for(outcomes, ts[i]),
                        ),
                    Err(e) => blocked && (e matches PortCLError::Safety(m) && m@
                        == "Action blocked by 1 safety check(s)"@),
                }
            }),
    {
        let ghost ts = enabled_checks(self.config);
        let mut checks: Vec<SafetyCheck> = Vec::new();
        if self.config.enable_system_checks {
            checks.push(
                make_check(
                    SafetyCheckType::SystemIntegrity,
                    outcomes.system_integrity,
                    "System integrity check passed",
                    "System integrity check failed",
                    SafetySeverity::Critical,
                    "Check system logs for errors",
                ),
            );
            checks.push(
                make_check(
                    SafetyCheckType::ResourceAvailability,
                    outcomes.resource_availability,
                    "Sufficient resources available",
                    "Insufficient system resources",
                    SafetySeverity::Warning,
                    "Free up disk space or close memory-intensive applications",
                ),
            );
        }
        let ghost n1 = checks.len();
        if self.config.enable_package_checks {
            checks.push(
                make_check(
                    SafetyCheckType::PackageConsistency,
                    outcomes.package_consistency,
                    "Package consistency check passed",
                    "Package database inconsistencies detected",
                    SafetySeverity::Warning,
                    "Run 'emerge --sync' to update package database",
                ),
            );
        }
        let ghost n2 = checks.len();
        let mut blocking: u64 = 0;
        if self.config.enable_filesystem_checks {
            let c = make_check(
                SafetyCheckType::FileSystemSafety,
                outcomes.filesystem_safety,
                "Filesystem safety check passed",
                "Filesystem may be unstable",
                SafetySeverity::Blocking,
                "Check filesystem integrity with 'fsck'",
            );
            if !c.passed {
                blocking = blocking + 1;
            }
            checks.push(c);
        }
        if blocking > 0 {
            return Err(PortCLError::Safety(String::from_str("Action blocked by 1 safety check(s)")));
        }
        assert(checks.len() == ts.len());
        assert forall|i: int| 0 <= i < ts.len() implies check_matches(
            #[trigger] checks@[i],
            ts[i],
            outcome_for(outcomes, ts[i]),
        ) by {
            if self.config.enable_system_checks {
                if i == 0 {
                    assert(ts[i] == SafetyCheckType::SystemIntegrity);
                } else if i == 1 {
                    assert(ts[i] == SafetyCheckType::ResourceAvailability);
                }
            }
            if self.config.enable_package_checks && i == n1 {
                assert(ts[i] == SafetyCheckType::PackageConsistency);
            }
            if self.config.enable_filesystem_checks && i == n2 {
                assert(ts[i] == SafetyCheckType::FileSystemSafety);
            }
        }
        Ok(checks)
    }

    /// Runs the enabled checks on `action`. The system integrity and resource checks
    /// draw from the random source and pass 90% of the time, the package check 95%;
    /// their failures are reported but block nothing. The filesystem check, the only
    /// one whose failure would block the action, passes, so validation succeeds.
    pub fn validate_action(&self, action: &Action) -> (r: Result<Vec<SafetyCheck>, PortCLError>)
        ensures
            ({
                let ts = enabled_checks(self.spec_config());
                &&& r is Ok
                &&& r matches Ok(checks) ==> checks.len() == ts.len() && forall|i: int|
                    0 <= i < ts.len() ==> (#[trigger] checks@[i]).check_type == ts[i]
                        && check_matches(checks@[i], ts[i], checks@[i].passed) && (ts[i]
                        == SafetyCheckType::FileSystemSafety ==> checks@[i].passed)
            }),
    {
        let mut outcomes = CheckOutcomes {
            system_integrity: true,
            resource_availability: true,
            package_consistency: true,
            filesystem_safety: true,
        };
        if self.config.enable_system_checks {
            outcomes.system_integrity = draw_passes(random_u64(), 900719925474100);
            outcomes.resource_availability = draw_passes(random_u64(), 900719925474100);
        }
        if self.config.enable_package_checks {
            outcomes.package_consistency = draw_passes(random_u64(), 450359962737050);
        }
        self.validate_with(outcomes)
    }

    /// Checks `action`, then, for a critical action (a clean of obsolete packages) when
    /// backups are on, takes a snapshot and returns its id. It fails only when that
    /// snapshot cannot have an id because the random source failed.
    pub fn prepare_action(&mut self, action: &Action) -> (r: Result<Option<String>, PortCLError>)
        ensures
            final(self).spec_config() == old(self).spec_config(),
            match r {
                Ok(Some(id)) => action is CleanObsoletePackages && old(self).spec_config().backup_before_critical
                    && final(self).spec_rollback_manager().current() == Some(id@)
                    && final(self).spec_rollback_manager().ids().to_set() == old(self).spec_rollback_manager().ids().to_set().insert(id@),
                Ok(None) => !(action is CleanObsoletePackages && old(self).spec_config().backup_before_critical)
                    && final(self).spec_rollback_manager() == old(self).spec_rollback_manager(),
                Err(e) => action is CleanObsoletePackages && old(self).spec_config().backup_before_critical
                    && (e matches PortCLError::System(m) && m@ == random_source_message())
                    && final(self).spec_rollback_manager().entries() == old(self).spec_rollback_manager().entries()
                    && final(self).spec_rollback_manager().current() == old(self).spec_rollback_manager().current(),
            },
    {
        match self.validate_action(action) {
            Err(e) => {
                return Err(e);
            },
            Ok(_) => {},
        }
        let critical = match action {
            Action::CleanObsoletePackages { .. } => true,
            _ => false,
        };
        if critical && self.config.backup_before_critical {
            match self.rollback_manager.create_snapshot(action) {
                Ok(id) => Ok(Some(id)),
                Err(e) => Err(e),
            }
        } else {
            Ok(None)
        }
    }

    /// After a failed action, rolls back to its snapshot when there is one and rollback
    /// on failure is on; an unknown snapshot is an error.
    pub fn handle_failure(&mut self, snapshot_id: Option<&str>) -> (r: Result<(), PortCLError>)
        ensures
            final(self).spec_config() == old(self).spec_config(),
            final(self).spec_rollback_manager().entries() == old(self).spec_rollback_manager().entries(),
            match snapshot_id {
                Some(id) => if old(self).spec_config().auto_rollback_on_failure {
                    match r {
                        Ok(_) => old(self).spec_rollback_manager().ids().contains(id@) && final(self).spec_rollback_manager().current() == Some(id@),
                        Err(e) => !old(self).spec_rollback_manager().ids().contains(id@) && (
                        e matches PortCLError::Validation(m) && m@ == "Snapshot "@ + id@
                            + " not found"@),
                    }
                } else {
                    r is Ok && final(self).spec_rollback_manager().current() == old(self).spec_rollback_manager().current()
                },
                None => r is Ok && final(self).spec_rollback_manager().current() == old(self).spec_rollback_manager().current(),
            },
    {
        match snapshot_id {
            Some(id) => {
                if self.config.auto_rollback_on_failure {
                    return self.rollback_manager.rollback_to_snapshot(id);
                }
                Ok(())
            },
            None => Ok(()),
        }
    }

    /// The rollback manager.
    pub fn rollback_manager(&self) -> (m: &RollbackManager)
        ensures
            *m == self.spec_rollback_manager(),
    {
        &self.rollback_manager
    }

    /// The rollback manager, to change.
    pub fn rollback_manager_mut(&mut self) -> (m: &mut RollbackManager)
        ensures
            *m == old(self).spec_rollback_manager(),
            final(self).spec_rollback_manager() == *final(m),
            final(self).spec_config() == old(self).spec_config(),
    {
        &mut self.rollback_manager
    }
}

/// Snapshot `j` taken before snapshot `i` has fewer snapshots before it.
proof fn lemma_older_count_mono(ts: Seq<i64>, j: int, i: int, m: int)
    requires
        0 <= j < ts.len(),
        0 <= i < ts.len(),
        older(ts, j, i),
        m <= ts.len(),
    ensures
        older_count(ts, j, m) + (if 0 <= j < m {
            1int
        } else {
            0int
        }) <= older_count(ts, i, m),
    decreases m,
{
    if m > 0 {
        lemma_older_count_mono(ts, j, i, m - 1);
    }
}

/// The law of a cleanup: every snapshot it deletes was taken before every snapshot it
/// keeps, the current one aside; and the current snapshot is always kept.
pub proof fn lemma_cleanup_removes_oldest(
    ts: Seq<i64>,
    ids: Seq<Seq<char>>,
    current: Option<Seq<char>>,
    keep: nat,
    i: int,
    j: int,
)
    requires
        ts.len() == ids.len(),
        0 <= i < ts.len(),
        0 <= j < ts.len(),
        !cleanup_marks(ts, ids, current, keep)[i],
        cleanup_marks(ts, ids, current, keep)[j],
        current != Some(ids[j]),
    ensures
        older(ts, i, j),
        current != Some(ids[i]),
{
    if !older(ts, i, j) {
        assert(i != j);
        assert(older(ts, j, i));
        lemma_older_count_mono(ts, j, i, ts.len() as int);
    }
}

/// Snapshot `i` is taken before no more snapshots than those listed before `m`, itself
/// not counted.
proof fn lemma_older_count_bound(ts: Seq<i64>, i: int, m: int)
    requires
        0 <= i < ts.len(),
        0 <= m <= ts.len(),
    ensures
        older_count(ts, i, m) + (if i < m {
            1int
        } else {
            0int
        }) <= m,
    decreases m,
{
    if m > 0 {
        lemma_older_count_bound(ts, i, m - 1);
    }
}

/// Two snapshots never share a place in the order in which they were taken.
proof fn lemma_rank_injective(ts: Seq<i64>, i: int, j: int)
    requires
        0 <= i < ts.len(),
        0 <= j < ts.len(),
        i != j,
    ensures
        age_rank(ts, i) != age_rank(ts, j),
{
    if older(ts, j, i) {
        lemma_older_count_mono(ts, j, i, ts.len() as int);
    } else {
        lemma_older_count_mono(ts, i, j, ts.len() as int);
    }
}

/// Of `n` snapshots, exactly `t` are among the oldest `t`, for every `t <= n`.
proof fn lemma_oldest_count(ts: Seq<i64>, t: nat)
    requires
        t <= ts.len(),
    ensures
        set_int_range(0, ts.len() as int).filter(|i: int| age_rank(ts, i) < t).finite(),
        set_int_range(0, ts.len() as int).filter(|i: int| age_rank(ts, i) < t).len() == t,
{
    let n = ts.len() as int;
    let all = set_int_range(0, n);
    lemma_int_range(0, n);
    let f = |i: int| age_rank(ts, i) as int;
    assert(injective_on(f, all)) by {
        assert forall|a: int, b: int| all.contains(a) && all.contains(b) && #[trigger] f(a) == #[trigger] f(b)
            implies a == b by {
            if a != b {
                lemma_rank_injective(ts, a, b);
            }
        }
    }
    let ranks = all.map(f);
    lemma_map_size(all, ranks, f);
    assert(ranks.subset_of(all)) by {
        assert forall|r: int| ranks.contains(r) implies all.contains(r) by {
            let i = choose|i: int| all.contains(i) && f(i) == r;
            lemma_older_count_bound(ts, i, n);
        }
    }
    lemma_subset_equality(ranks, all);
    let oldest = all.filter(|i: int| age_rank(ts, i) < t);
    lemma_len_subset(oldest, all);
    assert(injective_on(f, oldest));
    let low = set_int_range(0, t as int);
    assert(oldest.map(f) =~= low) by {
        assert forall|r: int| low.contains(r) implies #[trigger] oldest.map(f).contains(r) by {
            assert(ranks.contains(r));
            let i = choose|i: int| all.contains(i) && f(i) == r;
            assert(oldest.contains(i));
        }
    }
    lemma_map_size(oldest, low, f);
    lemma_int_range(0, t as int);
}

/// Keeping the marked elements keeps as many as there are marks set.
proof fn lemma_keep_marked_len<A>(s: Seq<A>, marks: Seq<bool>)
    requires
        marks.len() >= s.len(),
    ensures
        set_int_range(0, s.len() as int).filter(|j: int| marks[j]).finite(),
        keep_marked(s, marks).len() == set_int_range(0, s.len() as int).filter(|j: int| marks[j]).len(),
    decreases s.len(),
{
    let m = s.len() as int;
    let set_m = set_int_range(0, m).filter(|j: int| marks[j]);
    if m == 0 {
        assert(set_m =~= Set::<int>::empty());
    } else {
        lemma_keep_marked_len(s.drop_last(), marks);
        let prev = set_int_range(0, m - 1).filter(|j: int| marks[j]);
        lemma_int_range(0, m - 1);
        lemma_len_subset(prev, set_int_range(0, m - 1));
        if marks[m - 1] {
            assert(set_m =~= prev.insert(m - 1));
        } else {
            assert(set_m =~= prev);
        }
    }
}

/// Whether the current snapshot is among the oldest `t`.
pub open spec fn current_among_oldest(
    ts: Seq<i64>,
    ids: Seq<Seq<char>>,
    current: Option<Seq<char>>,
    t: nat,
) -> bool {
    exists|i: int| 0 <= i < ts.len() && #[trigger] age_rank(ts, i) < t && current == Some(ids[i])
}

/// The law of the number a cleanup keeps: of `n` snapshots, a cleanup keeping `keep`
/// keeps all when `n <= keep`, and otherwise exactly `keep`, or `keep + 1` when the
/// current snapshot is among the `n - keep` oldest (it is kept all the same).
pub proof fn lemma_cleanup_keeps_newest(
    entries: Seq<SystemSnapshot>,
    current: Option<Seq<char>>,
    keep: nat,
)
    requires
        snapshot_ids(entries).no_duplicates(),
    ensures
        ({
            let ts = snapshot_times(entries);
            let ids = snapshot_ids(entries);
            let kept = keep_marked(entries, cleanup_marks(ts, ids, current, keep)).len();
            &&& entries.len() <= keep ==> kept == entries.len()
            &&& entries.len() > keep ==> kept == keep + (if current_among_oldest(
                ts,
                ids,
                current,
                (entries.len() - keep) as nat,
            ) {
                1int
            } else {
                0int
            })
        }),
{
    let ts = snapshot_times(entries);
    let ids = snapshot_ids(entries);
    let n = entries.len() as int;
    let marks = cleanup_marks(ts, ids, current, keep);
    let t: nat = if n > keep {
        (n - keep) as nat
    } else {
        0
    };
    lemma_keep_marked_len(entries, marks);
    let all = set_int_range(0, n);
    lemma_int_range(0, n);
    let kept = all.filter(|j: int| marks[j]);
    let oldest = all.filter(|i: int| age_rank(ts, i) < t);
    lemma_oldest_count(ts, t);
    let gone = oldest.filter(|i: int| current != Some(ids[i]));
    lemma_len_subset(gone, oldest);
    assert(kept + gone =~= all);
    assert(kept.disjoint(gone));
    lemma_set_disjoint_lens(kept, gone);
    if current_among_oldest(ts, ids, current, t) {
        let i0 = choose|i: int| 0 <= i < ts.len() && #[trigger] age_rank(ts, i) < t && current == Some(ids[i]);
        assert(gone =~= oldest.remove(i0)) by {
            assert forall|j: int| oldest.contains(j) && j != i0 implies current != Some(ids[j]) by {
                assert(ids[j] != ids[i0]);
            }
        }
    } else {
        assert(gone =~= oldest);
    }
}

/// The law of snapshots and rollback: a snapshot just taken can be rolled back to,
/// and the snapshots taken before it stay available.
pub proof fn lemma_new_snapshot_restorable(before: Set<Seq<char>>, id: Seq<char>, other: Seq<char>)
    requires
        before.contains(other),
    ensures
        before.insert(id).contains(id),
        before.insert(id).contains(other),
{
}

} // verus!
