//! PortCL's system services: their names under systemd and OpenRC, how a service
//! manager's answer is read as a status, and how the statuses of the services add up.
//! Running `systemctl`, `rc-service` and the rest is the caller's part.
use vstd::prelude::*;

use crate::platform::path_exists;
use crate::text::{has_sub, str_contains, string_views};

verus! {

/// The state of a service.
#[derive(Debug, Clone, Copy, PartialEq, Eq, Structural)]
pub enum ServiceStatus {
    Running,
    Stopped,
    Failed,
    NotInstalled,
    Unknown,
}

/// Whether systemd manages this machine: `/run/systemd/system` exists.
pub fn is_systemd_available() -> (b: bool) {
    path_exists("/run/systemd/system")
}

/// Whether OpenRC manages this machine: `/run/openrc` exists.
pub fn is_openrc_available() -> (b: bool) {
    path_exists("/run/openrc")
}

/// The status that `systemctl is-active` gives by its exit code (none when it was
/// killed): 0 running, 3 stopped, otherwise not installed when its error output says
/// the unit is not loaded or not found, and failed else.
pub open spec fn systemd_status(code: Option<i32>, stderr: Seq<char>) -> ServiceStatus {
    let c = match code {
        Some(c) => c as int,
        None => -1,
    };
    if c == 0 {
        ServiceStatus::Running
    } else if c == 3 {
        ServiceStatus::Stopped
    } else if has_sub(stderr, "not loaded"@) || has_sub(stderr, "not found"@) {
        ServiceStatus::NotInstalled
    } else {
        ServiceStatus::Failed
    }
}

/// The status that `rc-status service` output gives: started, stopped, crashed, or
/// not installed when it says none of these.
pub open spec fn openrc_status(stdout: Seq<char>) -> ServiceStatus {
    if has_sub(stdout, "started"@) {
        ServiceStatus::Running
    } else if has_sub(stdout, "stopped"@) {
        ServiceStatus::Stopped
    } else if has_sub(stdout, "crashed"@) {
        ServiceStatus::Failed
    } else {
        ServiceStatus::NotInstalled
    }
}

/// The overall status after one more service's status: a failure settles it, a
/// running service makes it running, a stopped one makes a not-installed total
/// stopped.
pub open spec fn combine_status(overall: ServiceStatus, next: ServiceStatus) -> ServiceStatus {
    match next {
        ServiceStatus::Failed => ServiceStatus::Failed,
        ServiceStatus::Running => ServiceStatus::Running,
        ServiceStatus::Stopped => if overall == ServiceStatus::NotInstalled {
            ServiceStatus::Stopped
        } else {
            overall
        },
        _ => overall,
    }
}

/// The overall status of services with these statuses, from not installed; a
/// failure ends the count.
pub open spec fn overall_status(ss: Seq<ServiceStatus>) -> ServiceStatus
    decreases ss.len(),
{
    if ss.len() == 0 {
        ServiceStatus::NotInstalled
    } else {
        let before = overall_status(ss.drop_last());
        if before == ServiceStatus::Failed {
            ServiceStatus::Failed
        } else {
            combine_status(before, ss.last())
        }
    }
}

pub fn status_from_systemd(exit_code: Option<i32>, stderr: &str) -> (s: ServiceStatus)
    ensures
        s == systemd_status(exit_code, stderr@),
{
    let code: i32 = match exit_code {
        Some(c) => c,
        None => -1,
    };
    if code == 0 {
        ServiceStatus::Running
    } else if code == 3 {
        ServiceStatus::Stopped
    } else if str_contains(stderr, "not loaded") || str_contains(stderr, "not found") {
        ServiceStatus::NotInstalled
    } else {
        ServiceStatus::Failed
    }
}

pub fn status_from_rc_status(stdout: &str) -> (s: ServiceStatus)
    ensures
        s == openrc_status(stdout@),
        has_sub(stdout@, "started"@) <==> s == ServiceStatus::Running,
        !has_sub(stdout@, "started"@) && has_sub(stdout@, "stopped"@) ==> s == ServiceStatus::Stopped,
        s == ServiceStatus::NotInstalled ==> !has_sub(stdout@, "started"@) && !has_sub(stdout@, "stopped"@)
            && !has_sub(stdout@, "crashed"@),
{
    if str_contains(stdout, "started") {
        ServiceStatus::Running
    } else if str_contains(stdout, "stopped") {
        ServiceStatus::Stopped
    } else if str_contains(stdout, "crashed") {
        ServiceStatus::Failed
    } else {
        ServiceStatus::NotInstalled
    }
}

/// One step of adding up the statuses (see `combine_status`).
pub fn next_overall_status(overall: ServiceStatus, next: ServiceStatus) -> (s: ServiceStatus)
    ensures
        s == combine_status(overall, next),
{
    match next {
        ServiceStatus::Failed => ServiceStatus::Failed,
        ServiceStatus::Running => ServiceStatus::Running,
        ServiceStatus::Stopped => if overall == ServiceStatus::NotInstalled {
            ServiceStatus::Stopped
        } else {
            overall
        },
        _ => overall,
    }
}

/// Whether an overall status is settled: once the total is failed, no further status
/// changes it (see `lemma_failed_total_settled`), so no more need be read.
pub fn status_settled(overall: ServiceStatus) -> (b: bool)
    ensures
        b == (overall == ServiceStatus::Failed),
{
    overall == ServiceStatus::Failed
}

/// The law of reading `rc-status`: a service reported as started is running; one
/// reported as stopped and not started is stopped, never taken for not installed; one
/// only reported as crashed has failed; and a service is taken for not installed only
/// when the output names none of these states.
pub proof fn lemma_openrc_status_reads_state(stdout: Seq<char>)
    ensures
        has_sub(stdout, "started"@) <==> openrc_status(stdout) == ServiceStatus::Running,
        !has_sub(stdout, "started"@) && has_sub(stdout, "stopped"@) ==> openrc_status(stdout)
            == ServiceStatus::Stopped,
        !has_sub(stdout, "started"@) && !has_sub(stdout, "stopped"@) && has_sub(stdout, "crashed"@)
            ==> openrc_status(stdout) == ServiceStatus::Failed,
        openrc_status(stdout) == ServiceStatus::NotInstalled <==> (!has_sub(stdout, "started"@)
            && !has_sub(stdout, "stopped"@) && !has_sub(stdout, "crashed"@)),
{
}

/// The law of reading `systemctl is-active`: exit code 0 is running and 3 is stopped,
/// whatever the error output says; a service is taken for not installed only when the
/// error output says the unit is not loaded or not found.
pub proof fn lemma_systemd_status_reads_code(code: Option<i32>, stderr: Seq<char>)
    ensures
        code == Some(0i32) ==> systemd_status(code, stderr) == ServiceStatus::Running,
        code == Some(3i32) ==> systemd_status(code, stderr) == ServiceStatus::Stopped,
        systemd_status(code, stderr) == ServiceStatus::NotInstalled ==> (has_sub(stderr, "not loaded"@)
            || has_sub(stderr, "not found"@)),
        systemd_status(code, stderr) == ServiceStatus::Running ==> code == Some(0i32),
{
}

/// The law of a settled total: when the statuses read so far add up to failed, the
/// statuses read after them leave the total failed.
pub proof fn lemma_failed_total_settled(read: Seq<ServiceStatus>, rest: Seq<ServiceStatus>)
    requires
        overall_status(read) == ServiceStatus::Failed,
    ensures
        overall_status(read + rest) == ServiceStatus::Failed,
    decreases rest.len(),
{
    if rest.len() > 0 {
        lemma_failed_total_settled(read, rest.drop_last());
        assert((read + rest).drop_last() =~= read + rest.drop_last());
    } else {
        assert(read + rest =~= read);
    }
}

/// The overall status of services with these statuses (see `overall_status`).
pub fn aggregate_status(statuses: &Vec<ServiceStatus>) -> (s: ServiceStatus)
    ensures
        s == overall_status(statuses@),
{
    let mut overall = ServiceStatus::NotInstalled;
    for i in 0..statuses.len()
        invariant
            overall == overall_status(statuses@.take(i as int)),
    {
        assert(statuses@.take(i as int + 1).drop_last() =~= statuses@.take(i as int));
        if overall != ServiceStatus::Failed {
            overall = next_overall_status(overall, statuses[i]);
        }
    }
    assert(statuses@.take(statuses.len() as int) =~= statuses@);
    overall
}

/// The law of the overall status: it is failed when some service failed, else
/// running when some service runs, else stopped when some service is stopped, else
/// not installed.
pub proof fn lemma_overall_status(ss: Seq<ServiceStatus>)
    ensures
        overall_status(ss) == if ss.contains(ServiceStatus::Failed) {
            ServiceStatus::Failed
        } else if ss.contains(ServiceStatus::Running) {
            ServiceStatus::Running
        } else if ss.contains(ServiceStatus::Stopped) {
            ServiceStatus::Stopped
        } else {
            ServiceStatus::NotInstalled
        },
    decreases ss.len(),
{
    if ss.len() > 0 {
        let p = ss.drop_last();
        lemma_overall_status(p);
        assert forall|x: ServiceStatus| ss.contains(x) <==> (p.contains(x) || ss.last() == x) by {
            if ss.contains(x) {
                let i = choose|i: int| 0 <= i < ss.len() && ss[i] == x;
                if i < p.len() {
                    assert(p[i] == x);
                }
            }
            if p.contains(x) {
                let i = choose|i: int| 0 <= i < p.len() && p[i] == x;
                assert(ss[i] == x);
            }
            if ss.last() == x {
                assert(ss[ss.len() - 1] == x);
            }
        }
    }
}

/// The units of PortCL's services.
pub open spec fn systemd_units() -> Seq<Seq<char>> {
    seq!["portcl-agent.service"@, "portcl-monitor.service"@]
}

pub open spec fn openrc_services() -> Seq<Seq<char>> {
    seq!["portcl-agent"@, "portcl-monitor"@]
}

/// PortCL's services under systemd.
pub struct SystemdServiceManager {
    service_files: Vec<String>,
}

impl SystemdServiceManager {
    pub closed spec fn units(&self) -> Seq<Seq<char>> {
        string_views(self.service_files@)
    }

    /// The agent and monitor units.
    pub fn new() -> (m: Self)
        ensures
            m.units() == systemd_units(),
    {
        let mut v: Vec<String> = Vec::new();
        v.push(String::from_str("portcl-agent.service"));
        v.push(String::from_str("portcl-monitor.service"));
        let m = SystemdServiceManager { service_files: v };
        assert(m.units() =~= systemd_units());
        m
    }

    /// The unit names, in the order they are handled.
    pub fn service_files(&self) -> (v: &Vec<String>)
        ensures
            string_views(v@) == self.units(),
    {
        &self.service_files
    }
}

/// PortCL's services under OpenRC.
pub struct OpenRCServiceManager {
    service_files: Vec<String>,
}

impl OpenRCServiceManager {
    pub closed spec fn services(&self) -> Seq<Seq<char>> {
        string_views(self.service_files@)
    }

    /// The agent and monitor services.
    pub fn new() -> (m: Self)
        ensures
            m.services() == openrc_services(),
    {
        let mut v: Vec<String> = Vec::new();
        v.push(String::from_str("portcl-agent"));
        v.push(String::from_str("portcl-monitor"));
        let m = OpenRCServiceManager { service_files: v };
        assert(m.services() =~= openrc_services());
        m
    }

    /// The service names, in the order they are handled.
    pub fn service_files(&self) -> (v: &Vec<String>)
        ensures
            string_views(v@) == self.services(),
    {
        &self.service_files
    }
}

} // verus!
