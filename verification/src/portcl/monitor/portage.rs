//! What Portage's tools print, read into package information. Running the tools is
//! the caller's part: it hands their output to these functions.
use vstd::prelude::*;

use crate::platform::path_exists;
use crate::portcl::config::settings::MonitoringConfig;
use crate::portcl::error::PortCLError;
use crate::text::{
    after_prefix, chars_of, contains_char, contains_seq, has_char, has_sub, lines, lines_of,
    parse_i64, parse_i64_text, parse_u64, parse_u64_text, split_first, split_first_chars,
    split_last, split_last_chars, string_of, trim, trim_chars, views, words, words_of,
};

verus! {

/// What Portage reports of the system; the last sync is in seconds since the epoch.
#[derive(Debug, Clone)]
pub struct PortageInfo {
    pub installed_packages: u32,
    pub available_updates: u32,
    pub world_packages: u32,
    pub last_sync: Option<i64>,
    pub portage_version: String,
    pub profile: String,
    pub arch: String,
}

/// What is known of a package; times are in microseconds since the epoch.
#[derive(Debug, Clone)]
pub struct PackageInfo {
    pub name: String,
    pub version: String,
    pub category: String,
    pub slot: Option<String>,
    pub repository: Option<String>,
    pub installed_size: Option<u64>,
    pub homepage: Option<String>,
    pub description: Option<String>,
    pub license: Option<String>,
    pub use_flags: Vec<String>,
    pub dependencies: Vec<String>,
    pub build_time: Option<i64>,
    pub last_modified: Option<i64>,
}

/// A package search: a name, and optionally a category, slot, repository and version.
#[derive(Debug, Clone)]
pub struct PackageQuery {
    pub name: String,
    pub category: Option<String>,
    pub slot: Option<String>,
    pub repository: Option<String>,
    pub version_constraint: Option<String>,
}

/// Reads what Portage's tools print.
pub struct PortageMonitor {
    config: MonitoringConfig,
}

pub open spec fn opt_view(o: Option<String>) -> Option<Seq<char>> {
    match o {
        Some(s) => Some(s@),
        None => None,
    }
}

/// A package's category, name and version.
pub open spec fn identity(p: PackageInfo) -> (Seq<char>, Seq<char>, Seq<char>) {
    (p.category@, p.name@, p.version@)
}

/// Nothing is known of the package beyond its identity.
pub open spec fn bare(p: PackageInfo) -> bool {
    &&& p.slot is None
    &&& p.repository is None
    &&& p.installed_size is None
    &&& p.homepage is None
    &&& p.description is None
    &&& p.license is None
    &&& p.use_flags.len() == 0
    &&& p.dependencies.len() == 0
    &&& p.build_time is None
    &&& p.last_modified is None
}

fn bare_package(category: String, name: String, version: String) -> (p: PackageInfo)
    ensures
        identity(p) == (category@, name@, version@),
        bare(p),
{
    PackageInfo {
        name,
        version,
        category,
        slot: None,
        repository: None,
        installed_size: None,
        homepage: None,
        description: None,
        license: None,
        use_flags: Vec::new(),
        dependencies: Vec::new(),
        build_time: None,
        last_modified: None,
    }
}

/// A package found by a search: version `unknown` and nothing else known.
pub open spec fn unknown_bare(p: PackageInfo) -> bool {
    p.version@ == "unknown"@ && bare(p)
}

/// The trimmed text after `prefix` on the last line that starts with it.
pub open spec fn last_field(ls: Seq<Seq<char>>, prefix: Seq<char>) -> Option<Seq<char>>
    decreases ls.len(),
{
    if ls.len() == 0 {
        None
    } else if prefix.is_prefix_of(ls.last()) {
        Some(trim(ls.last().skip(prefix.len() as int)))
    } else {
        last_field(ls.drop_last(), prefix)
    }
}

/// The size on the last `Size: ` line: its first word as a number, or 0 with no word;
/// `None` when that word is not a number.
pub open spec fn last_size(ls: Seq<Seq<char>>) -> Option<Option<u64>>
    decreases ls.len(),
{
    if ls.len() == 0 {
        None
    } else if "Size: "@.is_prefix_of(ls.last()) {
        let w = words(ls.last().skip(6));
        Some(
            if w.len() == 0 {
                Some(0u64)
            } else {
                parse_u64_text(w[0])
            },
        )
    } else {
        last_size(ls.drop_last())
    }
}

/// The package that a line of `emerge --search` output names: the first word of a
/// line without `*` that is not blank, split at its first `/`.
pub open spec fn search_entry(l: Seq<char>) -> Option<(Seq<char>, Seq<char>)> {
    if has_char(l, '*') || trim(l).len() == 0 || words(l).len() == 0 {
        None
    } else {
        split_first(words(l)[0], '/')
    }
}

pub open spec fn search_entry_fn() -> spec_fn(Seq<char>) -> Option<(Seq<char>, Seq<char>)> {
    |l: Seq<char>| search_entry(l)
}

/// The package that a line of `qlist -I -v` output names: category before the first
/// `/`, then name and version split at the last `-`.
pub open spec fn list_entry(l: Seq<char>) -> Option<(Seq<char>, Seq<char>, Seq<char>)> {
    match split_first(l, '/') {
        Some((c, nv)) => match split_last(nv, '-') {
            Some((n, v)) => Some((c, n, v)),
            None => None,
        },
        None => None,
    }
}

pub open spec fn list_entry_fn() -> spec_fn(Seq<char>) -> Option<(Seq<char>, Seq<char>, Seq<char>)> {
    |l: Seq<char>| list_entry(l)
}

/// The version on the first line of `equery list` output: what follows its last `-`,
/// or the whole line.
pub open spec fn installed_version(output: Seq<char>) -> Option<Seq<char>> {
    let ls = lines(output);
    if ls.len() == 0 {
        None
    } else {
        match split_last(ls[0], '-') {
            Some((_, v)) => Some(v),
            None => Some(ls[0]),
        }
    }
}

/// The time of the last completed sync in the tail of `emerge.log`: the first word,
/// as seconds, of the last line mentioning `=== Sync completed` whose first word is a
/// number.
pub open spec fn last_sync_in(ls: Seq<Seq<char>>) -> Option<i64>
    decreases ls.len(),
{
    if ls.len() == 0 {
        None
    } else {
        let l = ls.last();
        if has_sub(l, "=== Sync completed"@) && words(l).len() > 0 && parse_i64_text(words(l)[0])
            is Some {
            parse_i64_text(words(l)[0])
        } else {
            last_sync_in(ls.drop_last())
        }
    }
}

/// The law of `equery list` parsing: the version is the end of the first line after
/// its last `-` (the whole line when it has none), so it never holds a `-`; there is no
/// version only when the output has no line.
pub proof fn lemma_installed_version_after_last_dash(output: Seq<char>)
    ensures
        match installed_version(output) {
            Some(v) => {
                &&& lines(output).len() > 0
                &&& !has_char(v, '-')
                &&& if has_char(lines(output)[0], '-') {
                    exists|p: Seq<char>| lines(output)[0] == #[trigger] (p + seq!['-'] + v)
                } else {
                    v == lines(output)[0]
                }
            },
            None => lines(output).len() == 0,
        },
{
    let ls = lines(output);
    if ls.len() > 0 {
        crate::text::lemma_split_last_parts(ls[0], '-');
        match split_last(ls[0], '-') {
            Some((p, v)) => {
                assert(ls[0] == p + seq!['-'] + v);
            },
            None => {},
        }
    }
}

/// The law of `qlist -I -v` parsing: an entry is the category, `/`, the name, `-` and
/// the version put back together; the category holds no `/` and the version no `-`,
/// so the name keeps every `-` but the last.
pub proof fn lemma_list_entry_parts(l: Seq<char>)
    ensures
        list_entry(l) matches Some((c, n, v)) ==> (l == c + seq!['/'] + n + seq!['-'] + v
            && !has_char(c, '/') && !has_char(v, '-')),
        list_entry(l) is None ==> (!has_char(l, '/') || (split_first(l, '/') matches Some((_, nv))
            && !has_char(nv, '-'))),
{
    crate::text::lemma_split_first_parts(l, '/');
    match split_first(l, '/') {
        Some((c, nv)) => {
            crate::text::lemma_split_last_parts(nv, '-');
            match split_last(nv, '-') {
                Some((n, v)) => {
                    assert(l =~= c + seq!['/'] + n + seq!['-'] + v);
                },
                None => {},
            }
        },
        None => {},
    }
}

/// The law of metadata fields: a field found is the trimmed rest of a line that starts
/// with the prefix, and no later line starts with it, so the last such line wins; no
/// field is found only when no line starts with the prefix.
pub proof fn lemma_last_field_is_latest(ls: Seq<Seq<char>>, prefix: Seq<char>)
    ensures
        match last_field(ls, prefix) {
            Some(x) => exists|i: int|
                0 <= i < ls.len() && #[trigger] prefix.is_prefix_of(ls[i]) && x == trim(
                    ls[i].skip(prefix.len() as int),
                ) && forall|j: int| i < j < ls.len() ==> !prefix.is_prefix_of(#[trigger] ls[j]),
            None => forall|i: int| 0 <= i < ls.len() ==> !prefix.is_prefix_of(#[trigger] ls[i]),
        },
    decreases ls.len(),
{
    if ls.len() > 0 {
        let n = ls.len() - 1;
        if prefix.is_prefix_of(ls[n]) {
            assert(prefix.is_prefix_of(ls[n]));
        } else {
            let rest = ls.drop_last();
            lemma_last_field_is_latest(rest, prefix);
            match last_field(rest, prefix) {
                Some(x) => {
                    let i = choose|i: int|
                        0 <= i < rest.len() && #[trigger] prefix.is_prefix_of(rest[i]) && x == trim(
                            rest[i].skip(prefix.len() as int),
                        ) && forall|j: int| i < j < rest.len() ==> !prefix.is_prefix_of(#[trigger] rest[j]);
                    assert(ls[i] == rest[i]);
                    assert forall|j: int| i < j < ls.len() implies !prefix.is_prefix_of(#[trigger] ls[j]) by {
                        if j < n {
                            assert(ls[j] == rest[j]);
                        }
                    }
                    assert(prefix.is_prefix_of(ls[i]));
                },
                None => {
                    assert forall|i: int| 0 <= i < ls.len() implies !prefix.is_prefix_of(#[trigger] ls[i]) by {
                        if i < n {
                            assert(ls[i] == rest[i]);
                        }
                    }
                },
            }
        }
    }
}

/// A line of `emerge.log` that records a completed sync with its time: it mentions
/// `=== Sync completed` and its first word is a number.
pub open spec fn is_sync_line(l: Seq<char>) -> bool {
    has_sub(l, "=== Sync completed"@) && words(l).len() > 0 && parse_i64_text(words(l)[0]) is Some
}

/// The law of the last sync: the time found is that of a sync line after which the log
/// has no other sync line, so the most recent sync wins; and no time is found only when
/// the log has no sync line at all.
pub proof fn lemma_last_sync_is_latest(ls: Seq<Seq<char>>)
    ensures
        match last_sync_in(ls) {
            Some(t) => exists|i: int|
                0 <= i < ls.len() && #[trigger] is_sync_line(ls[i]) && parse_i64_text(words(ls[i])[0])
                    == Some(t) && forall|j: int| i < j < ls.len() ==> !is_sync_line(#[trigger] ls[j]),
            None => forall|i: int| 0 <= i < ls.len() ==> !is_sync_line(#[trigger] ls[i]),
        },
    decreases ls.len(),
{
    if ls.len() > 0 {
        let l = ls.last();
        let n = ls.len() - 1;
        if is_sync_line(l) {
            assert(is_sync_line(ls[n]));
        } else {
            let rest = ls.drop_last();
            lemma_last_sync_is_latest(rest);
            match last_sync_in(rest) {
                Some(t) => {
                    let i = choose|i: int|
                        0 <= i < rest.len() && #[trigger] is_sync_line(rest[i]) && parse_i64_text(
                            words(rest[i])[0],
                        ) == Some(t) && forall|j: int| i < j < rest.len() ==> !is_sync_line(#[trigger] rest[j]);
                    assert(ls[i] == rest[i]);
                    assert forall|j: int| i < j < ls.len() implies !is_sync_line(#[trigger] ls[j]) by {
                        if j < n {
                            assert(ls[j] == rest[j]);
                        }
                    }
                    assert(is_sync_line(ls[i]));
                },
                None => {
                    assert forall|i: int| 0 <= i < ls.len() implies !is_sync_line(#[trigger] ls[i]) by {
                        if i < n {
                            assert(ls[i] == rest[i]);
                        }
                    }
                },
            }
        }
    }
}

/// The version in `emerge --version` output: the second word of its first line, or
/// `unknown`; `None` when there is no line.
pub open spec fn portage_version_in(output: Seq<char>) -> Option<Seq<char>> {
    let ls = lines(output);
    if ls.len() == 0 {
        None
    } else if words(ls[0]).len() >= 2 {
        Some(words(ls[0])[1])
    } else {
        Some("unknown"@)
    }
}

/// The arguments of the `emerge` search for a query: `--search --quiet`, the
/// repository when one is given, and the pattern `category/name`, `category/` or
/// `name`; `None` when the query names neither (an empty name counts as none).
pub open spec fn search_args(
    name: Seq<char>,
    category: Option<Seq<char>>,
    repository: Option<Seq<char>>,
) -> Option<Seq<Seq<char>>> {
    let head = seq!["emerge"@, "--search"@, "--quiet"@] + match repository {
        Some(r) => seq!["--repository"@, r],
        None => Seq::empty(),
    };
    match category {
        Some(c) => Some(head.push(if name.len() > 0 {
            c + "/"@ + name
        } else {
            c + "/"@
        })),
        None => if name.len() > 0 {
            Some(head.push(name))
        } else {
            None
        },
    }
}

pub open spec fn string_seq(v: Seq<String>) -> Seq<Seq<char>> {
    v.map_values(|s: String| s@)
}

impl PortageMonitor {
    pub closed spec fn spec_config(&self) -> MonitoringConfig {
        self.config
    }

    /// A monitor for `config`, given whether its Portage binary exists.
    pub fn with_portage_check(config: MonitoringConfig, portage_found: bool) -> (r: Result<
        PortageMonitor,
        PortCLError,
    >)
        ensures
            match r {
                Ok(m) => portage_found && m.spec_config() == config,
                Err(e) => !portage_found && (e matches PortCLError::Validation(m) && m@
                    == "Portage binary not found at: "@ + config.portage_path@),
            },
    {
        if !portage_found {
            let mut m = String::from_str("Portage binary not found at: ");
            m.append(config.portage_path.as_str());
            return Err(PortCLError::Validation(m));
        }
        Ok(PortageMonitor { config })
    }

    /// A monitor for `config`, when its Portage binary exists on this machine.
    pub fn new(config: MonitoringConfig) -> (r: Result<PortageMonitor, PortCLError>)
        ensures
            match r {
                Ok(m) => m.spec_config() == config,
                Err(e) => e matches PortCLError::Validation(m) && m@ == "Portage binary not found at: "@
                    + config.portage_path@,
            },
    {
        let found = path_exists(config.portage_path.as_str());
        Self::with_portage_check(config, found)
    }

    /// The monitor's configuration.
    pub fn config(&self) -> (c: &MonitoringConfig)
        ensures
            *c == self.spec_config(),
    {
        &self.config
    }

    /// Splits `category/name` at its first `/`; a name without a category is a
    /// Portage error.
    pub fn parse_package_name(&self, package: &str) -> (r: Result<(String, String), PortCLError>)
        ensures
            match r {
                Ok((c, n)) => split_first(package@, '/') == Some((c@, n@)),
                Err(e) => split_first(package@, '/') is None && (e matches PortCLError::Portage(m)
                    && m@ == "Package name must include category: "@ + package@),
            },
    {
        match crate::text::split_first_char(package, '/') {
            Some(parts) => Ok(parts),
            None => {
                let mut m = String::from_str("Package name must include category: ");
                m.append(package);
                Err(PortCLError::Portage(m))
            },
        }
    }

    /// The installed version on the first line of `equery list` output (see
    /// `installed_version`); empty output is a Portage error.
    pub fn parse_installed_version(&self, output: &str) -> (r: Result<String, PortCLError>)
        ensures
            match r {
                Ok(v) => installed_version(output@) == Some(v@),
                Err(e) => installed_version(output@) is None && (e matches PortCLError::Portage(m)
                    && m@ == "Empty package list output"@),
            },
    {
        let ls = lines_of(&chars_of(output));
        if ls.len() == 0 {
            return Err(PortCLError::Portage(String::from_str("Empty package list output")));
        }
        assert(views(ls@)[0] == ls@[0]@);
        match split_last_chars(&ls[0], '-') {
            Some((_, v)) => Ok(string_of(&v)),
            None => Ok(string_of(&ls[0])),
        }
    }

    /// The package's information from `equery meta` output: description, homepage,
    /// license, slot and repository from the last line that gives each, trimmed, and
    /// the size from the last `Size: ` line.
    pub fn parse_package_metadata(
        &self,
        category: &str,
        name: &str,
        version: &str,
        output: &str,
    ) -> (p: PackageInfo)
        ensures
            identity(p) == (category@, name@, version@),
            opt_view(p.description) == last_field(lines(output@), "Description: "@),
            opt_view(p.homepage) == last_field(lines(output@), "Homepage: "@),
            opt_view(p.license) == last_field(lines(output@), "License: "@),
            opt_view(p.slot) == last_field(lines(output@), "Slot: "@),
            opt_view(p.repository) == last_field(lines(output@), "Repository: "@),
            p.installed_size == match last_size(lines(output@)) {
                Some(s) => s,
                None => None::<u64>,
            },
            p.use_flags.len() == 0,
            p.dependencies.len() == 0,
            p.build_time is None,
            p.last_modified is None,
    {
        let ls = lines_of(&chars_of(output));
        let ghost lv = views(ls@);
        let mut description: Option<String> = None;
        let mut homepage: Option<String> = None;
        let mut license: Option<String> = None;
        let mut slot: Option<String> = None;
        let mut repository: Option<String> = None;
        let mut size: Option<Option<u64>> = None;
        proof {
            reveal_strlit("Description: ");
            reveal_strlit("Homepage: ");
            reveal_strlit("License: ");
            reveal_strlit("Slot: ");
            reveal_strlit("Repository: ");
            reveal_strlit("Size: ");
        }
        for i in 0..ls.len()
            invariant
                lv == views(ls@),
                lv == lines(output@),
                opt_view(description) == last_field(lv.take(i as int), "Description: "@),
                opt_view(homepage) == last_field(lv.take(i as int), "Homepage: "@),
                opt_view(license) == last_field(lv.take(i as int), "License: "@),
                opt_view(slot) == last_field(lv.take(i as int), "Slot: "@),
                opt_view(repository) == last_field(lv.take(i as int), "Repository: "@),
                size == last_size(lv.take(i as int)),
        {
            let line = &ls[i];
            proof {
                reveal_strlit("Description: ");
                reveal_strlit("Homepage: ");
                reveal_strlit("License: ");
                reveal_strlit("Slot: ");
                reveal_strlit("Repository: ");
                reveal_strlit("Size: ");
            }
            assert(lv[i as int] == line@);
            assert(lv.take(i as int + 1).drop_last() =~= lv.take(i as int));
            assert(lv.take(i as int + 1).last() == line@);
            match after_prefix(line, "Description: ") {
                Some(rest) => {
                    description = Some(string_of(&trim_chars(&rest)));
                },
                None => {},
            }
            match after_prefix(line, "Homepage: ") {
                Some(rest) => {
                    homepage = Some(string_of(&trim_chars(&rest)));
                },
                None => {},
            }
            match after_prefix(line, "License: ") {
                Some(rest) => {
                    license = Some(string_of(&trim_chars(&rest)));
                },
                None => {},
            }
            match after_prefix(line, "Slot: ") {
                Some(rest) => {
                    slot = Some(string_of(&trim_chars(&rest)));
                },
                None => {},
            }
            match after_prefix(line, "Repository: ") {
                Some(rest) => {
                    repository = Some(string_of(&trim_chars(&rest)));
                },
                None => {},
            }
            match after_prefix(line, "Size: ") {
                Some(rest) => {
                    assert(rest@ == line@.skip(6));
                    let ws = words_of(&rest);
                    if ws.len() == 0 {
                        size = Some(Some(0));
                    } else {
                        assert(views(ws@)[0] == ws@[0]@);
                        size = Some(parse_u64(&ws[0]));
                    }
                },
                None => {},
            }
        }
        assert(lv.take(ls.len() as int) =~= lv);
        let mut p = bare_package(
            String::from_str(category),
            String::from_str(name),
            String::from_str(version),
        );
        p.description = description;
        p.homepage = homepage;
        p.license = license;
        p.slot = slot;
        p.repository = repository;
        p.installed_size = match size {
            Some(s) => s,
            None => None,
        };
        p
    }

    /// The packages that `emerge --search` output names (see `search_entry`), with
    /// version `unknown`.
    pub fn parse_search_results(&self, output: &str) -> (r: Vec<PackageInfo>)
        ensures
            r@.map_values(|p: PackageInfo| (p.category@, p.name@)) == lines(output@).filter_map(
                search_entry_fn(),
            ),
            forall|i: int| 0 <= i < r.len() ==> unknown_bare(#[trigger] r@[i]),
    {
        let ls = lines_of(&chars_of(output));
        let ghost lv = views(ls@);
        let ghost f = search_entry_fn();
        let mut r: Vec<PackageInfo> = Vec::new();
        proof {
            reveal_strlit("unknown");
        }
        for i in 0..ls.len()
            invariant
                lv == views(ls@),
                lv == lines(output@),
                f == search_entry_fn(),
                r@.map_values(|p: PackageInfo| (p.category@, p.name@)) == lv.take(i as int).filter_map(f),
                forall|k: int| 0 <= k < r.len() ==> unknown_bare(#[trigger] r@[k]),
        {
            proof {
                lv.lemma_filter_map_take_succ(f, i as int);
            }
            let line = &ls[i];
            assert(lv[i as int] == line@);
            let ghost before = r@;
            let blank = trim_chars(line).len() == 0;
            let entry: Option<(Vec<char>, Vec<char>)> = if contains_char(line, '*') || blank {
                None
            } else {
                let ws = words_of(line);
                if ws.len() == 0 {
                    None
                } else {
                    assert(views(ws@)[0] == ws@[0]@);
                    split_first_chars(&ws[0], '/')
                }
            };
            assert(f(line@) == search_entry(line@));
            match entry {
                Some((c, n)) => {
                    let p = bare_package(string_of(&c), string_of(&n), String::from_str("unknown"));
                    assert(unknown_bare(p));
                    r.push(p);
                    assert forall|k: int| 0 <= k < r.len() implies unknown_bare(#[trigger] r@[k]) by {
                        if k < before.len() {
                            assert(r@[k] == before[k]);
                        }
                    }
                    assert(r@.map_values(|p: PackageInfo| (p.category@, p.name@)) =~= before.map_values(
                        |p: PackageInfo| (p.category@, p.name@),
                    ).push((c@, n@)));
                },
                None => {},
            }
        }
        assert(lv.take(ls.len() as int) =~= lv);
        r
    }

    /// The packages that `qlist -I -v` output names (see `list_entry`).
    pub fn parse_package_list(&self, output: &str) -> (r: Vec<PackageInfo>)
        ensures
            r@.map_values(|p: PackageInfo| identity(p)) == lines(output@).filter_map(list_entry_fn()),
            forall|i: int| 0 <= i < r.len() ==> bare(#[trigger] r@[i]),
    {
        let ls = lines_of(&chars_of(output));
        let ghost lv = views(ls@);
        let ghost f = list_entry_fn();
        let mut r: Vec<PackageInfo> = Vec::new();
        for i in 0..ls.len()
            invariant
                lv == views(ls@),
                lv == lines(output@),
                f == list_entry_fn(),
                r@.map_values(|p: PackageInfo| identity(p)) == lv.take(i as int).filter_map(f),
                forall|k: int| 0 <= k < r.len() ==> bare(#[trigger] r@[k]),
        {
            proof {
                lv.lemma_filter_map_take_succ(f, i as int);
            }
            let line = &ls[i];
            assert(lv[i as int] == line@);
            assert(f(line@) == list_entry(line@));
            let ghost before = r@;
            match split_first_chars(line, '/') {
                Some((c, nv)) => {
                    match split_last_chars(&nv, '-') {
                        Some((n, v)) => {
                            let p = bare_package(string_of(&c), string_of(&n), string_of(&v));
                            r.push(p);
                            assert(r@.map_values(|p: PackageInfo| identity(p)) =~= before.map_values(
                                |p: PackageInfo| identity(p),
                            ).push((c@, n@, v@)));
                        },
                        None => {},
                    }
                },
                None => {},
            }
        }
        assert(lv.take(ls.len() as int) =~= lv);
        r
    }
}

/// The number of lines of a tool's output, as a count of packages or updates
/// (`lines().count() as u32`).
pub fn count_output_lines(output: &str) -> (n: u32)
    ensures
        n == lines(output@).len() as u32,
{
    crate::text::line_count(output) as u32
}

/// The time of the last completed sync in the tail of `emerge.log` (see
/// `last_sync_in`).
pub fn parse_last_sync(log_tail: &str) -> (r: Option<i64>)
    ensures
        r == last_sync_in(lines(log_tail@)),
{
    let ls = lines_of(&chars_of(log_tail));
    let ghost lv = views(ls@);
    let marker = chars_of("=== Sync completed");
    let mut i = ls.len();
    assert(lv.take(i as int) =~= lv);
    while i > 0
        invariant
            lv == views(ls@),
            lv == lines(log_tail@),
            marker@ == "=== Sync completed"@,
            i <= ls.len(),
            last_sync_in(lv) == last_sync_in(lv.take(i as int)),
        decreases i,
    {
        let line = &ls[i - 1];
        assert(lv[i - 1] == line@);
        assert(lv.take(i as int).drop_last() =~= lv.take(i - 1));
        assert(lv.take(i as int).last() == line@);
        if contains_seq(line, &marker) {
            let ws = words_of(line);
            if ws.len() > 0 {
                assert(views(ws@)[0] == ws@[0]@);
                match parse_i64(&ws[0]) {
                    Some(secs) => {
                        return Some(secs);
                    },
                    None => {},
                }
            }
        }
        i = i - 1;
    }
    None
}

/// The version that `emerge --version` prints (see `portage_version_in`); empty
/// output is a Portage error.
pub fn parse_portage_version(output: &str) -> (r: Result<String, PortCLError>)
    ensures
        match r {
            Ok(v) => portage_version_in(output@) == Some(v@),
            Err(e) => portage_version_in(output@) is None && (e matches PortCLError::Portage(m)
                && m@ == "Failed to get portage version"@),
        },
{
    let ls = lines_of(&chars_of(output));
    if ls.len() == 0 {
        return Err(PortCLError::Portage(String::from_str("Failed to get portage version")));
    }
    assert(views(ls@)[0] == ls@[0]@);
    let ws = words_of(&ls[0]);
    if ws.len() >= 2 {
        assert(views(ws@)[1] == ws@[1]@);
        Ok(string_of(&ws[1]))
    } else {
        Ok(String::from_str("unknown"))
    }
}

/// The arguments of the `emerge` search for `query` (see `search_args`).
pub fn search_command(query: &PackageQuery) -> (r: Option<Vec<String>>)
    ensures
        match r {
            Some(v) => search_args(query.name@, opt_view(query.category), opt_view(query.repository))
                == Some(string_seq(v@)),
            None => search_args(query.name@, opt_view(query.category), opt_view(query.repository))
                is None,
        },
{
    let mut v: Vec<String> = Vec::new();
    v.push(String::from_str("emerge"));
    v.push(String::from_str("--search"));
    v.push(String::from_str("--quiet"));
    match &query.repository {
        Some(r) => {
            v.push(String::from_str("--repository"));
            v.push(r.clone());
        },
        None => {},
    }
    let ghost head = string_seq(v@);
    let named = chars_of(query.name.as_str()).len() > 0;
    proof {
        reveal_strlit("/");
    }
    match &query.category {
        Some(c) => {
            let mut pat = c.clone();
            pat.append("/");
            if named {
                pat.append(query.name.as_str());
            }
            v.push(pat);
            assert(string_seq(v@) =~= head.push(pat@));
        },
        None => {
            if !named {
                return None;
            }
            let pat = query.name.clone();
            v.push(pat);
            assert(string_seq(v@) =~= head.push(pat@));
        },
    }
    assert(head =~= seq!["emerge"@, "--search"@, "--quiet"@] + match opt_view(query.repository) {
        Some(r) => seq!["--repository"@, r],
        None => Seq::<Seq<char>>::empty(),
    });
    Some(v)
}

} // verus!
