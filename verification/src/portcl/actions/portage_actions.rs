//! Actions on Portage itself: their parameters, how safe they are, what they are
//! expected to cost, and which parameters are accepted.
use vstd::prelude::*;

use crate::binary64::{f64_gt, f64_lt, lt};
use crate::portcl::error::PortCLError;
use crate::text::{
    append_decimal, byte_len, chars_of, decimal, is_alphanumeric, is_blank, string_views, trim,
    unicode_alphanumeric, utf8_len,
};

verus! {

/// The kinds of Portage action.
#[derive(Debug, Clone, Copy, PartialEq, Eq, Structural)]
pub enum PortageActionType {
    Install,
    Uninstall,
    Update,
    Search,
    Info,
    Depends,
    Rdepends,
    Emerge,
    Sync,
    Clean,
    Mask,
    Unmask,
}

/// The parameters of a Portage action. USE flags and features are sets, kept as lists
/// in which nothing is meant to occur twice. Nothing here depends on their order or on
/// an entry listed twice: features are not read, and whether the flags pass depends on
/// them as a set (`lemma_flags_as_set`); only which invalid flag a failed validation
/// names goes by the order (the first listed). A load average is an `f64` held as its
/// IEEE 754 bits.
#[derive(Debug, Clone)]
pub enum ActionParams {
    InstallParams { packages: Vec<String>, use_flags: Vec<String>, verbose: bool, pretend: bool },
    UninstallParams { packages: Vec<String>, clean_deps: bool, config_files: String },
    UpdateParams { packages: Vec<String>, deep: bool, newuse: bool, backtrack: u32 },
    SearchParams { query: String, search_desc: bool, regex: bool },
    InfoParams { packages: Vec<String>, verbose: bool },
    DependsParams { packages: Vec<String>, deep: bool },
    EmergeParams {
        packages: Vec<String>,
        use_flags: Vec<String>,
        features: Vec<String>,
        jobs: Option<u32>,
        load_average: Option<u64>,
    },
    SyncParams { repos: Vec<String>, quiet: bool },
    CleanParams { packages: bool, distfiles: bool, packages_filter: String },
    MaskParams { packages: Vec<String> },
    UnmaskParams { packages: Vec<String> },
}

/// A Portage action with its parameters, priority and timeout.
#[derive(Debug, Clone)]
pub struct PortageAction {
    pub action_type: PortageActionType,
    pub params: ActionParams,
    pub priority: i32,
    pub timeout_ms: u64,
}

/// Some text of `ss` is empty once trimmed.
pub open spec fn any_blank(ss: Seq<Seq<char>>) -> bool {
    exists|i: int| 0 <= i < ss.len() && #[trigger] trim(ss[i]).len() == 0
}

pub open spec fn flag_char(c: char) -> bool {
    unicode_alphanumeric(c) || c == '_' || c == '+' || c == '-'
}

/// A USE flag holds a character other than alphanumerics, `_`, `+` and `-`.
pub open spec fn bad_flag(f: Seq<char>) -> bool {
    exists|j: int| 0 <= j < f.len() && !flag_char(#[trigger] f[j])
}

/// `k` is the first bad flag of `fs`.
pub open spec fn first_bad_flag(fs: Seq<Seq<char>>, k: int) -> bool {
    0 <= k < fs.len() && bad_flag(fs[k]) && forall|j: int| 0 <= j < k ==> !bad_flag(#[trigger] fs[j])
}

pub open spec fn any_bad_flag(fs: Seq<Seq<char>>) -> bool {
    exists|k: int| 0 <= k < fs.len() && #[trigger] bad_flag(fs[k])
}

/// The law of USE flags as a set: lists with the same flags, in any order and with any
/// repetition, pass or fail the flag check alike.
pub proof fn lemma_flags_as_set(fs: Seq<Seq<char>>, gs: Seq<Seq<char>>)
    requires
        fs.to_set() == gs.to_set(),
    ensures
        any_bad_flag(fs) == any_bad_flag(gs),
{
    if any_bad_flag(fs) {
        let k = choose|k: int| 0 <= k < fs.len() && #[trigger] bad_flag(fs[k]);
        assert(fs.to_set().contains(fs[k]));
        assert(gs.contains(fs[k]));
        let j = choose|j: int| 0 <= j < gs.len() && gs[j] == fs[k];
        assert(bad_flag(gs[j]));
    }
    if any_bad_flag(gs) {
        let k = choose|k: int| 0 <= k < gs.len() && #[trigger] bad_flag(gs[k]);
        assert(gs.to_set().contains(gs[k]));
        assert(fs.contains(gs[k]));
        let j = choose|j: int| 0 <= j < fs.len() && fs[j] == gs[k];
        assert(bad_flag(fs[j]));
    }
}

/// 100.0 as IEEE 754 bits.
pub open spec fn hundred_bits() -> u64 {
    0x4059_0000_0000_0000
}

/// The parameters pass their own checks.
pub open spec fn params_ok(p: ActionParams) -> bool {
    match p {
        ActionParams::InstallParams { packages, use_flags, .. } => packages.len() > 0 && !any_blank(
            string_views(packages@),
        ) && !any_bad_flag(string_views(use_flags@)),
        ActionParams::UninstallParams { packages, .. } => packages.len() > 0,
        ActionParams::UpdateParams { packages, backtrack, .. } => packages.len() > 0 && backtrack
            <= 100,
        ActionParams::SearchParams { query, .. } => trim(query@).len() > 0 && utf8_len(query@)
            <= 200,
        ActionParams::InfoParams { packages, .. } => packages.len() > 0,
        ActionParams::DependsParams { packages, .. } => packages.len() > 0,
        ActionParams::EmergeParams { packages, jobs, load_average, .. } => packages.len() > 0
            && (jobs matches Some(j) ==> 1 <= j <= 64) && (load_average matches Some(l) ==> !lt(
            l,
            0,
        ) && !lt(hundred_bits(), l)),
        ActionParams::SyncParams { repos, .. } => !any_blank(string_views(repos@)),
        ActionParams::CleanParams { packages_filter, .. } => utf8_len(packages_filter@) <= 100,
        ActionParams::MaskParams { packages } => packages.len() > 0,
        ActionParams::UnmaskParams { packages } => packages.len() > 0,
    }
}

/// `m` is the message of the first check that the parameters fail.
pub open spec fn params_message(p: ActionParams, m: Seq<char>) -> bool {
    match p {
        ActionParams::InstallParams { packages, use_flags, .. } => if packages.len() == 0 {
            m == "Package list cannot be empty"@
        } else if any_blank(string_views(packages@)) {
            m == "Package name cannot be empty"@
        } else {
            exists|k: int|
                first_bad_flag(string_views(use_flags@), k) && m == "Invalid USE flag: "@
                    + #[trigger] string_views(use_flags@)[k]
        },
        ActionParams::UpdateParams { packages, .. } => if packages.len() == 0 {
            m == "Package list cannot be empty"@
        } else {
            m == "Backtrack value too high (max 100)"@
        },
        ActionParams::SearchParams { query, .. } => if trim(query@).len() == 0 {
            m == "Search query cannot be empty"@
        } else {
            m == "Search query too long (max 200 chars)"@
        },
        ActionParams::EmergeParams { packages, jobs, .. } => if packages.len() == 0 {
            m == "Package list cannot be empty"@
        } else if jobs matches Some(j) && !(1 <= j <= 64) {
            m == "Jobs must be between 1 and 64"@
        } else {
            m == "Load average must be between 0.0 and 100.0"@
        },
        ActionParams::SyncParams { .. } => m == "Repository name cannot be empty"@,
        ActionParams::CleanParams { .. } => m == "Package filter too long (max 100 chars)"@,
        _ => m == "Package list cannot be empty"@,
    }
}

/// The action passes validation.
pub open spec fn action_ok(a: PortageAction) -> bool {
    params_ok(a.params) && a.timeout_ms >= 1000 && 1 <= a.priority <= 10
}

/// `m` is the message of the first check that the action fails.
pub open spec fn action_message(a: PortageAction, m: Seq<char>) -> bool {
    if !params_ok(a.params) {
        params_message(a.params, m)
    } else if a.timeout_ms < 1000 {
        m == "Timeout must be at least 1000ms"@
    } else {
        m == "Priority must be between 1 and 10"@
    }
}

/// Whether the action is safe: an install only when it pretends; never an uninstall,
/// a mask or an unmask; anything else always.
pub open spec fn params_safe(p: ActionParams) -> bool {
    match p {
        ActionParams::InstallParams { pretend, .. } => pretend,
        ActionParams::UninstallParams { .. } => false,
        ActionParams::MaskParams { .. } => false,
        ActionParams::UnmaskParams { .. } => false,
        _ => true,
    }
}

/// The action described in words, when its type and parameters agree.
pub open spec fn action_description(t: PortageActionType, p: ActionParams) -> Seq<char> {
    match (t, p) {
        (PortageActionType::Install, ActionParams::InstallParams { packages, .. }) => "Install "@
            + decimal(packages.len() as nat) + " packages"@,
        (PortageActionType::Uninstall, ActionParams::UninstallParams { packages, .. }) =>
            "Uninstall "@ + decimal(packages.len() as nat) + " packages"@,
        (PortageActionType::Update, ActionParams::UpdateParams { packages, .. }) => "Update "@
            + decimal(packages.len() as nat) + " packages"@,
        (PortageActionType::Search, ActionParams::SearchParams { query, .. }) => "Search for '"@
            + query@ + "'"@,
        (PortageActionType::Info, ActionParams::InfoParams { packages, .. }) => "Get info for "@
            + decimal(packages.len() as nat) + " packages"@,
        (PortageActionType::Depends, ActionParams::DependsParams { packages, .. }) =>
            "Get dependencies for "@ + decimal(packages.len() as nat) + " packages"@,
        (PortageActionType::Emerge, ActionParams::EmergeParams { packages, .. }) => "Emerge "@
            + decimal(packages.len() as nat) + " packages"@,
        (PortageActionType::Sync, ActionParams::SyncParams { repos, .. }) => if repos.len() == 0 {
            "Sync all repositories"@
        } else {
            "Sync "@ + decimal(repos.len() as nat) + " repositories"@
        },
        (PortageActionType::Clean, ActionParams::CleanParams { .. }) => "Clean package system"@,
        (PortageActionType::Mask, ActionParams::MaskParams { packages }) => "Mask "@ + decimal(
            packages.len() as nat,
        ) + " packages"@,
        (PortageActionType::Unmask, ActionParams::UnmaskParams { packages }) => "Unmask "@
            + decimal(packages.len() as nat) + " packages"@,
        (PortageActionType::Rdepends, _) => "Get reverse dependencies"@,
        _ => "Unknown action"@,
    }
}

/// The expected time of the action in milliseconds: a base time and a time per package
/// or repository where the type and parameters agree, a fixed time otherwise.
pub open spec fn duration_estimate(t: PortageActionType, p: ActionParams) -> int {
    match (t, p) {
        (PortageActionType::Install, ActionParams::InstallParams { packages, .. }) => 5000
            + packages.len() * 2000,
        (PortageActionType::Uninstall, ActionParams::UninstallParams { packages, .. }) => 3000
            + packages.len() * 1000,
        (PortageActionType::Update, ActionParams::UpdateParams { packages, .. }) => 10000
            + packages.len() * 5000,
        (PortageActionType::Search, _) => 1000,
        (PortageActionType::Info, ActionParams::InfoParams { packages, .. }) => 500
            + packages.len() * 100,
        (PortageActionType::Depends, ActionParams::DependsParams { packages, .. }) => 2000
            + packages.len() * 500,
        (PortageActionType::Emerge, ActionParams::EmergeParams { packages, .. }) => 15000
            + packages.len() * 10000,
        (PortageActionType::Sync, ActionParams::SyncParams { repos, .. }) => 30000 + repos.len()
            * 5000,
        (PortageActionType::Clean, _) => 5000,
        (PortageActionType::Mask, _) => 500,
        (PortageActionType::Unmask, _) => 500,
        _ => 1000,
    }
}

/// Whether some string of `v` is empty once trimmed.
fn has_blank(v: &Vec<String>) -> (b: bool)
    ensures
        b == any_blank(string_views(v@)),
{
    let ghost sv = string_views(v@);
    let mut i: usize = 0;
    while i < v.len()
        invariant
            sv == string_views(v@),
            i <= v.len(),
            forall|j: int| 0 <= j < i ==> #[trigger] trim(sv[j]).len() != 0,
        decreases v.len() - i,
    {
        assert(sv[i as int] == v@[i as int]@);
        if is_blank(v[i].as_str()) {
            assert(trim(sv[i as int]).len() == 0);
            return true;
        }
        i = i + 1;
    }
    false
}

/// Whether the flag holds a character that a USE flag may not hold.
fn flag_is_bad(f: &String) -> (b: bool)
    ensures
        b == bad_flag(f@),
{
    let v = chars_of(f.as_str());
    let mut i: usize = 0;
    while i < v.len()
        invariant
            v@ == f@,
            i <= v.len(),
            forall|j: int| 0 <= j < i ==> flag_char(#[trigger] v@[j]),
        decreases v.len() - i,
    {
        let c = v[i];
        if !(is_alphanumeric(c) || c == '_' || c == '+' || c == '-') {
            assert(!flag_char(v@[i as int]));
            return true;
        }
        i = i + 1;
    }
    false
}

/// The position of the first bad USE flag.
fn find_bad_flag(flags: &Vec<String>) -> (r: Option<usize>)
    ensures
        match r {
            Some(k) => k < flags.len() && first_bad_flag(string_views(flags@), k as int),
            None => !any_bad_flag(string_views(flags@)),
        },
{
    let ghost sv = string_views(flags@);
    let mut i: usize = 0;
    while i < flags.len()
        invariant
            sv == string_views(flags@),
            i <= flags.len(),
            forall|j: int| 0 <= j < i ==> !bad_flag(#[trigger] sv[j]),
        decreases flags.len() - i,
    {
        assert(sv[i as int] == flags@[i as int]@);
        if flag_is_bad(&flags[i]) {
            return Some(i);
        }
        i = i + 1;
    }
    None
}

impl PortageAction {
    /// An action with the default priority, 5, and timeout, 30 s.
    pub fn new(action_type: PortageActionType, params: ActionParams) -> (a: Self)
        ensures
            a == (PortageAction { action_type, params, priority: 5, timeout_ms: 30000 }),
    {
        PortageAction { action_type, params, priority: 5, timeout_ms: 30000 }
    }

    /// An action with the given priority and timeout.
    pub fn with_config(
        action_type: PortageActionType,
        params: ActionParams,
        priority: i32,
        timeout_ms: u64,
    ) -> (a: Self)
        ensures
            a == (PortageAction { action_type, params, priority, timeout_ms }),
    {
        PortageAction { action_type, params, priority, timeout_ms }
    }

    /// Whether the action is safe to take (see `params_safe`).
    pub fn is_safe(&self) -> (b: bool)
        ensures
            b == params_safe(self.params),
    {
        match &self.params {
            ActionParams::InstallParams { pretend, .. } => *pretend,
            ActionParams::UninstallParams { .. } => false,
            ActionParams::UpdateParams { .. } => true,
            ActionParams::SearchParams { .. } => true,
            ActionParams::InfoParams { .. } => true,
            ActionParams::DependsParams { .. } => true,
            ActionParams::EmergeParams { .. } => true,
            ActionParams::SyncParams { .. } => true,
            ActionParams::CleanParams { .. } => true,
            ActionParams::MaskParams { .. } => false,
            ActionParams::UnmaskParams { .. } => false,
        }
    }

    /// The action described in words, such as `Install 1 packages`.
    pub fn description(&self) -> (s: String)
        ensures
            s@ == action_description(self.action_type, self.params),
    {
        let mut s = String::new();
        proof {
            reveal_strlit(" packages");
            reveal_strlit(" repositories");
            reveal_strlit("'");
        }
        match (&self.action_type, &self.params) {
            (PortageActionType::Install, ActionParams::InstallParams { packages, .. }) => {
                s.append("Install ");
                append_decimal(&mut s, packages.len() as u64);
                s.append(" packages");
            },
            (PortageActionType::Uninstall, ActionParams::UninstallParams { packages, .. }) => {
                s.append("Uninstall ");
                append_decimal(&mut s, packages.len() as u64);
                s.append(" packages");
            },
            (PortageActionType::Update, ActionParams::UpdateParams { packages, .. }) => {
                s.append("Update ");
                append_decimal(&mut s, packages.len() as u64);
                s.append(" packages");
            },
            (PortageActionType::Search, ActionParams::SearchParams { query, .. }) => {
                s.append("Search for '");
                s.append(query.as_str());
                s.append("'");
            },
            (PortageActionType::Info, ActionParams::InfoParams { packages, .. }) => {
                s.append("Get info for ");
                append_decimal(&mut s, packages.len() as u64);
                s.append(" packages");
            },
            (PortageActionType::Depends, ActionParams::DependsParams { packages, .. }) => {
                s.append("Get dependencies for ");
                append_decimal(&mut s, packages.len() as u64);
                s.append(" packages");
            },
            (PortageActionType::Emerge, ActionParams::EmergeParams { packages, .. }) => {
                s.append("Emerge ");
                append_decimal(&mut s, packages.len() as u64);
                s.append(" packages");
            },
            (PortageActionType::Sync, ActionParams::SyncParams { repos, .. }) => {
                if repos.len() == 0 {
                    s.append("Sync all repositories");
                } else {
                    s.append("Sync ");
                    append_decimal(&mut s, repos.len() as u64);
                    s.append(" repositories");
                }
            },
            (PortageActionType::Clean, ActionParams::CleanParams { .. }) => {
                s.append("Clean package system");
            },
            (PortageActionType::Mask, ActionParams::MaskParams { packages }) => {
                s.append("Mask ");
                append_decimal(&mut s, packages.len() as u64);
                s.append(" packages");
            },
            (PortageActionType::Unmask, ActionParams::UnmaskParams { packages }) => {
                s.append("Unmask ");
                append_decimal(&mut s, packages.len() as u64);
                s.append(" packages");
            },
            (PortageActionType::Rdepends, _) => {
                s.append("Get reverse dependencies");
            },
            _ => {
                s.append("Unknown action");
            },
        }
        s
    }

    /// The expected time of the action in milliseconds (see `duration_estimate`).
    pub fn estimated_duration_ms(&self) -> (ms: u64)
        requires
            duration_estimate(self.action_type, self.params) <= u64::MAX,
        ensures
            ms == duration_estimate(self.action_type, self.params),
    {
        match (&self.action_type, &self.params) {
            (PortageActionType::Install, ActionParams::InstallParams { packages, .. }) => 5000
                + packages.len() as u64 * 2000,
            (PortageActionType::Uninstall, ActionParams::UninstallParams { packages, .. }) => 3000
                + packages.len() as u64 * 1000,
            (PortageActionType::Update, ActionParams::UpdateParams { packages, .. }) => 10000
                + packages.len() as u64 * 5000,
            (PortageActionType::Search, _) => 1000,
            (PortageActionType::Info, ActionParams::InfoParams { packages, .. }) => 500
                + packages.len() as u64 * 100,
            (PortageActionType::Depends, ActionParams::DependsParams { packages, .. }) => 2000
                + packages.len() as u64 * 500,
            (PortageActionType::Emerge, ActionParams::EmergeParams { packages, .. }) => 15000
                + packages.len() as u64 * 10000,
            (PortageActionType::Sync, ActionParams::SyncParams { repos, .. }) => 30000
                + repos.len() as u64 * 5000,
            (PortageActionType::Clean, _) => 5000,
            (PortageActionType::Mask, _) => 500,
            (PortageActionType::Unmask, _) => 500,
            _ => 1000,
        }
    }

    /// Checks the parameters, then the timeout, then the priority; the first failed
    /// check gives a validation error.
    pub fn validate(&self) -> (r: Result<(), PortCLError>)
        ensures
            r is Ok <==> action_ok(*self),
            r matches Err(e) ==> (e matches PortCLError::Validation(m) && action_message(
                *self,
                m@,
            )),
    {
        let empty_list = "Package list cannot be empty";
        match &self.params {
            ActionParams::InstallParams { packages, use_flags, .. } => {
                if packages.len() == 0 {
                    return Err(PortCLError::Validation(String::from_str(empty_list)));
                }
                if has_blank(packages) {
                    return Err(PortCLError::Validation(String::from_str("Package name cannot be empty")));
                }
                match find_bad_flag(use_flags) {
                    Some(k) => {
                        let mut m = String::from_str("Invalid USE flag: ");
                        m.append(use_flags[k].as_str());
                        assert(string_views(use_flags@)[k as int] == use_flags@[k as int]@);
                        return Err(PortCLError::Validation(m));
                    },
                    None => {},
                }
            },
            ActionParams::UninstallParams { packages, .. } => {
                if packages.len() == 0 {
                    return Err(PortCLError::Validation(String::from_str(empty_list)));
                }
            },
            ActionParams::UpdateParams { packages, backtrack, .. } => {
                if packages.len() == 0 {
                    return Err(PortCLError::Validation(String::from_str(empty_list)));
                }
                if *backtrack > 100 {
                    return Err(
                        PortCLError::Validation(String::from_str("Backtrack value too high (max 100)")),
                    );
                }
            },
            ActionParams::SearchParams { query, .. } => {
                if is_blank(query.as_str()) {
                    return Err(PortCLError::Validation(String::from_str("Search query cannot be empty")));
                }
                if byte_len(query.as_str()) > 200 {
                    return Err(
                        PortCLError::Validation(
                            String::from_str("Search query too long (max 200 chars)"),
                        ),
                    );
                }
            },
            ActionParams::InfoParams { packages, .. } => {
                if packages.len() == 0 {
                    return Err(PortCLError::Validation(String::from_str(empty_list)));
                }
            },
            ActionParams::DependsParams { packages, .. } => {
                if packages.len() == 0 {
                    return Err(PortCLError::Validation(String::from_str(empty_list)));
                }
            },
            ActionParams::EmergeParams { packages, jobs, load_average, .. } => {
                if packages.len() == 0 {
                    return Err(PortCLError::Validation(String::from_str(empty_list)));
                }
                match jobs {
                    Some(j) => {
                        if *j < 1 || *j > 64 {
                            return Err(
                                PortCLError::Validation(String::from_str("Jobs must be between 1 and 64")),
                            );
                        }
                    },
                    None => {},
                }
                match load_average {
                    Some(l) => {
                        if f64_lt(*l, 0) || f64_gt(*l, 0x4059_0000_0000_0000) {
                            return Err(
                                PortCLError::Validation(
                                    String::from_str("Load average must be between 0.0 and 100.0"),
                                ),
                            );
                        }
                    },
                    None => {},
                }
            },
            ActionParams::SyncParams { repos, .. } => {
                if has_blank(repos) {
                    return Err(
                        PortCLError::Validation(String::from_str("Repository name cannot be empty")),
                    );
                }
            },
            ActionParams::CleanParams { packages_filter, .. } => {
                if byte_len(packages_filter.as_str()) > 100 {
                    return Err(
                        PortCLError::Validation(
                            String::from_str("Package filter too long (max 100 chars)"),
                        ),
                    );
                }
            },
            ActionParams::MaskParams { packages } => {
                if packages.len() == 0 {
                    return Err(PortCLError::Validation(String::from_str(empty_list)));
                }
            },
            ActionParams::UnmaskParams { packages } => {
                if packages.len() == 0 {
                    return Err(PortCLError::Validation(String::from_str(empty_list)));
                }
            },
        }
        if self.timeout_ms < 1000 {
            return Err(PortCLError::Validation(String::from_str("Timeout must be at least 1000ms")));
        }
        if self.priority < 1 || self.priority > 10 {
            return Err(PortCLError::Validation(String::from_str("Priority must be between 1 and 10")));
        }
        Ok(())
    }
}

/// Builds a Portage action step by step.
pub struct PortageActionBuilder {
    action_type: Option<PortageActionType>,
    params: Option<ActionParams>,
    priority: Option<i32>,
    timeout_ms: Option<u64>,
}

impl PortageActionBuilder {
    pub closed spec fn spec_action_type(&self) -> Option<PortageActionType> {
        self.action_type
    }

    pub closed spec fn spec_params(&self) -> Option<ActionParams> {
        self.params
    }

    pub closed spec fn spec_priority(&self) -> Option<i32> {
        self.priority
    }

    pub closed spec fn spec_timeout_ms(&self) -> Option<u64> {
        self.timeout_ms
    }

    /// A builder with nothing set.
    pub fn new() -> (b: Self)
        ensures
            b.spec_action_type() is None,
            b.spec_params() is None,
            b.spec_priority() is None,
            b.spec_timeout_ms() is None,
    {
        PortageActionBuilder { action_type: None, params: None, priority: None, timeout_ms: None }
    }

    pub fn action_type(self, action_type: PortageActionType) -> (b: Self)
        ensures
            b.spec_action_type() == Some(action_type),
            b.spec_params() == self.spec_params(),
            b.spec_priority() == self.spec_priority(),
            b.spec_timeout_ms() == self.spec_timeout_ms(),
    {
        PortageActionBuilder { action_type: Some(action_type), ..self }
    }

    pub fn params(self, params: ActionParams) -> (b: Self)
        ensures
            b.spec_action_type() == self.spec_action_type(),
            b.spec_params() == Some(params),
            b.spec_priority() == self.spec_priority(),
            b.spec_timeout_ms() == self.spec_timeout_ms(),
    {
        PortageActionBuilder { params: Some(params), ..self }
    }

    pub fn priority(self, priority: i32) -> (b: Self)
        ensures
            b.spec_action_type() == self.spec_action_type(),
            b.spec_params() == self.spec_params(),
            b.spec_priority() == Some(priority),
            b.spec_timeout_ms() == self.spec_timeout_ms(),
    {
        PortageActionBuilder { priority: Some(priority), ..self }
    }

    pub fn timeout_ms(self, timeout_ms: u64) -> (b: Self)
        ensures
            b.spec_action_type() == self.spec_action_type(),
            b.spec_params() == self.spec_params(),
            b.spec_priority() == self.spec_priority(),
            b.spec_timeout_ms() == Some(timeout_ms),
    {
        PortageActionBuilder { timeout_ms: Some(timeout_ms), ..self }
    }

    /// The action that the builder describes, with priority 5 and a 30 s timeout
    /// where none was set: an error when the type or the parameters are missing, or
    /// when the action fails validation.
    pub fn build(self) -> (r: Result<PortageAction, PortCLError>)
        ensures
            self.spec_action_type() is None ==> (r matches Err(e) && (e matches PortCLError::Validation(m)
                && m@ == "Action type is required"@)),
            self.spec_action_type() is Some && self.spec_params() is None ==> (r matches Err(e) && (
            e matches PortCLError::Validation(m) && m@ == "Action parameters are required"@)),
            self.spec_action_type() is Some && self.spec_params() is Some ==> ({
                let a = PortageAction {
                    action_type: self.spec_action_type()->0,
                    params: self.spec_params()->0,
                    priority: match self.spec_priority() {
                        Some(p) => p,
                        None => 5,
                    },
                    timeout_ms: match self.spec_timeout_ms() {
                        Some(t) => t,
                        None => 30000,
                    },
                };
                match r {
                    Ok(b) => b == a && action_ok(a),
                    Err(e) => !action_ok(a) && (e matches PortCLError::Validation(m)
                        && action_message(a, m@)),
                }
            }),
    {
        let action_type = match self.action_type {
            Some(t) => t,
            None => {
                return Err(PortCLError::Validation(String::from_str("Action type is required")));
            },
        };
        let params = match self.params {
            Some(p) => p,
            None => {
                return Err(PortCLError::Validation(String::from_str("Action parameters are required")));
            },
        };
        let priority = match self.priority {
            Some(p) => p,
            None => 5,
        };
        let timeout_ms = match self.timeout_ms {
            Some(t) => t,
            None => 30000,
        };
        let action = PortageAction::with_config(action_type, params, priority, timeout_ms);
        match action.validate() {
            Ok(_) => Ok(action),
            Err(e) => Err(e),
        }
    }
}

impl Default for PortageActionBuilder {
    fn default() -> (b: Self)
        ensures
            b.spec_action_type() is None,
            b.spec_params() is None,
            b.spec_priority() is None,
            b.spec_timeout_ms() is None,
    {
        Self::new()
    }
}

} // verus!
