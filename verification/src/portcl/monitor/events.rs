//! The record of Portage events: the last thousand events, newest last, and the
//! queries and statistics over them. Writing events to the log file is the caller's
//! part.
use vstd::prelude::*;

use crate::platform::{new_uuid_text, utc_now_micros};
use crate::portcl::config::settings::MonitoringConfig;
use crate::portcl::error::{random_source_error, random_source_message, PortCLError};
use crate::text::{has_sub, str_contains};

verus! {

/// The kinds of Portage event.
#[derive(Debug, Clone, Copy, PartialEq, Eq, Structural, Hash)]
pub enum EventType {
    PackageInstall,
    PackageRemove,
    PackageUpdate,
    SyncStart,
    SyncComplete,
    SyncFailed,
    CompileStart,
    CompileSuccess,
    CompileFailed,
    DependencyResolution,
    ConfigurationChange,
    SystemStateChange,
    UserAction,
    AgentAction,
    Error,
    Warning,
    Info,
}

/// How serious an event is.
#[derive(Debug, Clone, Copy, PartialEq, Eq, Structural, Hash)]
pub enum EventSeverity {
    Critical,
    High,
    Medium,
    Low,
    Info,
}

/// Where an event comes from.
#[derive(Debug, Clone, Copy, PartialEq, Eq, Structural, Hash)]
pub enum EventSource {
    Portage,
    System,
    User,
    Agent,
    External,
}

/// One event; its time is in microseconds since the Unix epoch.
#[derive(Debug, Clone)]
pub struct PortageEvent {
    pub id: String,
    pub event_type: EventType,
    pub timestamp: i64,
    pub details: String,
    pub severity: EventSeverity,
    pub source: EventSource,
}

/// An event as plain values: id, type, time, details, severity and source.
pub open spec fn event_view(e: PortageEvent) -> (Seq<char>, EventType, i64, Seq<char>, EventSeverity, EventSource) {
    (e.id@, e.event_type, e.timestamp, e.details@, e.severity, e.source)
}

pub open spec fn event_views(s: Seq<PortageEvent>) -> Seq<(Seq<char>, EventType, i64, Seq<char>, EventSeverity, EventSource)> {
    s.map_values(|e: PortageEvent| event_view(e))
}

impl PortageEvent {
    /// A copy of the event.
    pub fn duplicate(&self) -> (e: PortageEvent)
        ensures
            event_view(e) == event_view(*self),
    {
        PortageEvent {
            id: self.id.clone(),
            event_type: self.event_type,
            timestamp: self.timestamp,
            details: self.details.clone(),
            severity: self.severity,
            source: self.source,
        }
    }
}

/// The severity of an event of type `t`.
pub open spec fn severity_for(t: EventType) -> EventSeverity {
    match t {
        EventType::Error => EventSeverity::High,
        EventType::CompileFailed => EventSeverity::Medium,
        EventType::SyncFailed => EventSeverity::Medium,
        EventType::Warning => EventSeverity::Medium,
        EventType::PackageInstall | EventType::PackageRemove | EventType::PackageUpdate =>
            EventSeverity::Low,
        EventType::UserAction | EventType::AgentAction => EventSeverity::Low,
        _ => EventSeverity::Info,
    }
}

/// The source of an event of type `t`.
pub open spec fn source_for(t: EventType) -> EventSource {
    match t {
        EventType::ConfigurationChange | EventType::SystemStateChange => EventSource::System,
        EventType::UserAction => EventSource::User,
        EventType::AgentAction => EventSource::Agent,
        EventType::Error | EventType::Warning | EventType::Info => EventSource::External,
        _ => EventSource::Portage,
    }
}

/// Errors are high; failed compiles and syncs and warnings medium; package changes
/// and user and agent actions low; the rest informational.
pub fn determine_severity(event_type: EventType) -> (s: EventSeverity)
    ensures
        s == severity_for(event_type),
{
    match event_type {
        EventType::Error => EventSeverity::High,
        EventType::CompileFailed => EventSeverity::Medium,
        EventType::SyncFailed => EventSeverity::Medium,
        EventType::Warning => EventSeverity::Medium,
        EventType::PackageInstall | EventType::PackageRemove | EventType::PackageUpdate =>
            EventSeverity::Low,
        EventType::CompileStart | EventType::CompileSuccess | EventType::SyncStart
        | EventType::SyncComplete | EventType::DependencyResolution
        | EventType::ConfigurationChange | EventType::SystemStateChange => EventSeverity::Info,
        EventType::UserAction | EventType::AgentAction => EventSeverity::Low,
        EventType::Info => EventSeverity::Info,
    }
}

/// Package, sync, compile and dependency events come from Portage; configuration and
/// state changes from the system; user and agent actions from those; errors,
/// warnings and information from outside.
pub fn determine_source(event_type: EventType) -> (s: EventSource)
    ensures
        s == source_for(event_type),
{
    match event_type {
        EventType::PackageInstall | EventType::PackageRemove | EventType::PackageUpdate
        | EventType::SyncStart | EventType::SyncComplete | EventType::SyncFailed
        | EventType::CompileStart | EventType::CompileSuccess | EventType::CompileFailed
        | EventType::DependencyResolution => EventSource::Portage,
        EventType::ConfigurationChange | EventType::SystemStateChange => EventSource::System,
        EventType::UserAction => EventSource::User,
        EventType::AgentAction => EventSource::Agent,
        EventType::Error | EventType::Warning | EventType::Info => EventSource::External,
    }
}

/// A selection of events.
pub enum EventQuery {
    OfType(EventType),
    OfSeverity(EventSeverity),
    Between(i64, i64),
    Compilation,
    MentioningPackage(String),
}

/// Whether an event belongs to a selection.
pub open spec fn query_matches(
    q: EventQuery,
    v: (Seq<char>, EventType, i64, Seq<char>, EventSeverity, EventSource),
) -> bool {
    match q {
        EventQuery::OfType(t) => v.1 == t,
        EventQuery::OfSeverity(s) => v.4 == s,
        EventQuery::Between(start, end) => start <= v.2 <= end,
        EventQuery::Compilation => v.1 == EventType::CompileStart || v.1 == EventType::CompileSuccess
            || v.1 == EventType::CompileFailed,
        EventQuery::MentioningPackage(p) => has_sub(v.3, p@),
    }
}

pub open spec fn query_fn(q: EventQuery) -> spec_fn(
    (Seq<char>, EventType, i64, Seq<char>, EventSeverity, EventSource),
) -> bool {
    |v: (Seq<char>, EventType, i64, Seq<char>, EventSeverity, EventSource)| query_matches(q, v)
}

/// Whether an event's details mention `p`.
pub open spec fn mentions_fn(p: Seq<char>) -> spec_fn(
    (Seq<char>, EventType, i64, Seq<char>, EventSeverity, EventSource),
) -> bool {
    |v: (Seq<char>, EventType, i64, Seq<char>, EventSeverity, EventSource)| has_sub(v.3, p)
}

/// How many of the events are of type `t`.
pub open spec fn type_count(
    evs: Seq<(Seq<char>, EventType, i64, Seq<char>, EventSeverity, EventSource)>,
    t: EventType,
) -> nat
    decreases evs.len(),
{
    if evs.len() == 0 {
        0
    } else {
        type_count(evs.drop_last(), t) + if evs.last().1 == t {
            1nat
        } else {
            0nat
        }
    }
}

pub open spec fn severity_count(
    evs: Seq<(Seq<char>, EventType, i64, Seq<char>, EventSeverity, EventSource)>,
    s: EventSeverity,
) -> nat
    decreases evs.len(),
{
    if evs.len() == 0 {
        0
    } else {
        severity_count(evs.drop_last(), s) + if evs.last().4 == s {
            1nat
        } else {
            0nat
        }
    }
}

pub open spec fn source_count(
    evs: Seq<(Seq<char>, EventType, i64, Seq<char>, EventSeverity, EventSource)>,
    s: EventSource,
) -> nat
    decreases evs.len(),
{
    if evs.len() == 0 {
        0
    } else {
        source_count(evs.drop_last(), s) + if evs.last().5 == s {
            1nat
        } else {
            0nat
        }
    }
}

/// The record of recent events.
/// `after` is `before` with one more event, the newest, of `event_type` with
/// `details` under `id`, with the severity and source its type gives; the oldest event
/// of `before` is gone when it held a thousand.
pub open spec fn recorded(
    before: Seq<(Seq<char>, EventType, i64, Seq<char>, EventSeverity, EventSource)>,
    after: Seq<(Seq<char>, EventType, i64, Seq<char>, EventSeverity, EventSource)>,
    id: Seq<char>,
    event_type: EventType,
    details: Seq<char>,
) -> bool {
    let base = if before.len() == event_capacity() {
        before.drop_first()
    } else {
        before
    };
    let e = after.last();
    &&& after.len() == base.len() + 1
    &&& after.drop_last() == base
    &&& e.0 == id
    &&& e.1 == event_type
    &&& e.3 == details
    &&& e.4 == severity_for(event_type)
    &&& e.5 == source_for(event_type)
}

pub struct EventTracker {
    config: MonitoringConfig,
    events: Vec<PortageEvent>,
    max_events: usize,
}

/// How many events a tracker keeps.
pub open spec fn event_capacity() -> nat {
    1000
}

impl EventTracker {
    /// The events, oldest first.
    pub closed spec fn events(&self) -> Seq<(Seq<char>, EventType, i64, Seq<char>, EventSeverity, EventSource)> {
        event_views(self.events@)
    }

    pub closed spec fn logs_to_file(&self) -> bool {
        self.config.enable_event_tracking
    }

    #[verifier::type_invariant]
    spec fn wf(&self) -> bool {
        self.max_events == event_capacity() && self.events@.len() <= self.max_events
    }

    /// A tracker with no events.
    pub fn new(config: MonitoringConfig) -> (t: Self)
        ensures
            t.events().len() == 0,
            t.logs_to_file() == config.enable_event_tracking,
    {
        let t = EventTracker { config, events: Vec::new(), max_events: 1000 };
        assert(t.events() =~= Seq::empty());
        t
    }

    /// The number of events kept, at most a thousand.
    pub fn event_count(&self) -> (n: usize)
        ensures
            n == self.events().len(),
            n <= event_capacity(),
    {
        proof {
            use_type_invariant(self);
        }
        self.events.len()
    }

    /// Whether tracked events are also to be written to the log file.
    pub fn event_logging_enabled(&self) -> (b: bool)
        ensures
            b == self.logs_to_file(),
    {
        self.config.enable_event_tracking
    }

    /// Records an event of `event_type` with `details`, under a new UUID and the
    /// current time, with the severity and source its type gives; the oldest event
    /// goes when a thousand are kept. Returns the id. When the random source that the
    /// UUID comes from fails, nothing is recorded and the error is a system error.
    pub fn track_event(&mut self, event_type: EventType, details: String) -> (r: Result<String, PortCLError>)
        ensures
            match r {
                Ok(id) => {
                    &&& recorded(old(self).events(), final(self).events(), id@, event_type, details@)
                    &&& id@.len() == 36
                },
                Err(e) => {
                    &&& e matches PortCLError::System(m) && m@ == random_source_message()
                    &&& final(self).events() == old(self).events()
                },
            },
            final(self).events().len() <= event_capacity(),
            final(self).logs_to_file() == old(self).logs_to_file(),
    {
        proof {
            use_type_invariant(&*self);
        }
        match new_uuid_text() {
            Some(id) => {
                self.record_event(id.clone(), event_type, details);
                Ok(id)
            },
            None => Err(random_source_error()),
        }
    }

    /// Records an event of `event_type` with `details` under `id` and the current
    /// time, with the severity and source its type gives; the oldest event goes when a
    /// thousand are kept.
    pub fn record_event(&mut self, id: String, event_type: EventType, details: String)
        ensures
            recorded(old(self).events(), final(self).events(), id@, event_type, details@),
            final(self).events().len() <= event_capacity(),
            final(self).logs_to_file() == old(self).logs_to_file(),
    {
        proof {
            use_type_invariant(&*self);
        }
        let event = PortageEvent {
            id: id.clone(),
            event_type,
            timestamp: utc_now_micros(),
            details,
            severity: determine_severity(event_type),
            source: determine_source(event_type),
        };
        let mut evs: Vec<PortageEvent> = Vec::new();
        std::mem::swap(&mut evs, &mut self.events);
        let ghost before = event_views(evs@);
        let ghost ev = event_view(event);
        if evs.len() >= self.max_events {
            evs.remove(0);
            assert(event_views(evs@) =~= before.drop_first());
        } else {
            assert(event_views(evs@) =~= before);
        }
        let ghost base = event_views(evs@);
        evs.push(event);
        assert(event_views(evs@) =~= base.push(ev));
        self.events = evs;
        assert(self.events().drop_last() =~= base);
    }

    /// The events of a selection, oldest first.
    pub fn select(&self, q: &EventQuery) -> (r: Vec<PortageEvent>)
        ensures
            event_views(r@) == self.events().filter(query_fn(*q)),
    {
        let ghost f = query_fn(*q);
        let ghost all = self.events();
        let mut r: Vec<PortageEvent> = Vec::new();
        for i in 0..self.events.len()
            invariant
                f == query_fn(*q),
                all == self.events(),
                all == event_views(self.events@),
                event_views(r@) == all.take(i as int).filter(f),
        {
            proof {
                crate::text::lemma_filter_take_succ(all, f, i as int);
            }
            let e = &self.events[i];
            assert(event_view(*e) == all[i as int]);
            let hit = match q {
                EventQuery::OfType(t) => e.event_type == *t,
                EventQuery::OfSeverity(s) => e.severity == *s,
                EventQuery::Between(start, end) => *start <= e.timestamp && e.timestamp <= *end,
                EventQuery::Compilation => match e.event_type {
                    EventType::CompileStart | EventType::CompileSuccess
                    | EventType::CompileFailed => true,
                    _ => false,
                },
                EventQuery::MentioningPackage(p) => str_contains(e.details.as_str(), p.as_str()),
            };
            assert(hit == f(all[i as int]));
            if hit {
                let d = e.duplicate();
                let ghost before = r@;
                r.push(d);
                assert(event_views(r@) =~= event_views(before).push(event_view(d)));
            }
        }
        assert(all.take(self.events.len() as int) =~= all);
        r
    }

    /// The newest `limit` events (100 when no limit is given), newest first.
    pub fn get_recent_events(&self, limit: Option<usize>) -> (r: Vec<PortageEvent>)
        ensures
            ({
                let l = match limit {
                    Some(l) => l as int,
                    None => 100int,
                };
                let n = self.events().len() as int;
                let k = if l < n {
                    l
                } else {
                    n
                };
                &&& r.len() == k
                &&& forall|i: int| 0 <= i < k ==> event_view(#[trigger] r@[i]) == self.events()[n - 1 - i]
            }),
    {
        let l: usize = match limit {
            Some(l) => l,
            None => 100,
        };
        let n = self.events.len();
        let k = if l < n {
            l
        } else {
            n
        };
        let mut r: Vec<PortageEvent> = Vec::new();
        for i in 0..k
            invariant
                n == self.events.len(),
                k <= n,
                r.len() == i,
                forall|j: int| 0 <= j < i ==> event_view(#[trigger] r@[j]) == self.events()[n - 1 - j],
        {
            let e = self.events[n - 1 - i].duplicate();
            assert(event_view(self.events@[n - 1 - i]) == self.events()[n - 1 - i]);
            r.push(e);
        }
        r
    }

    pub fn get_events_by_type(&self, event_type: EventType) -> (r: Vec<PortageEvent>)
        ensures
            event_views(r@) == self.events().filter(query_fn(EventQuery::OfType(event_type))),
    {
        self.select(&EventQuery::OfType(event_type))
    }

    pub fn get_events_by_severity(&self, severity: EventSeverity) -> (r: Vec<PortageEvent>)
        ensures
            event_views(r@) == self.events().filter(query_fn(EventQuery::OfSeverity(severity))),
    {
        self.select(&EventQuery::OfSeverity(severity))
    }

    /// The events from `start` to `end` inclusive, in microseconds since the epoch.
    pub fn get_events_in_timerange(&self, start: i64, end: i64) -> (r: Vec<PortageEvent>)
        ensures
            event_views(r@) == self.events().filter(query_fn(EventQuery::Between(start, end))),
    {
        self.select(&EventQuery::Between(start, end))
    }

    pub fn get_error_events(&self) -> (r: Vec<PortageEvent>)
        ensures
            event_views(r@) == self.events().filter(query_fn(EventQuery::OfType(EventType::Error))),
    {
        self.get_events_by_type(EventType::Error)
    }

    /// The events of compiles started, succeeded or failed.
    pub fn get_compilation_events(&self) -> (r: Vec<PortageEvent>)
        ensures
            event_views(r@) == self.events().filter(query_fn(EventQuery::Compilation)),
    {
        self.select(&EventQuery::Compilation)
    }

    /// The events whose details mention `package_name`.
    pub fn get_package_events(&self, package_name: &str) -> (r: Vec<PortageEvent>)
        ensures
            event_views(r@) == self.events().filter(mentions_fn(package_name@)),
    {
        let q = EventQuery::MentioningPackage(String::from_str(package_name));
        let r = self.select(&q);
        assert(query_fn(q) =~= mentions_fn(package_name@));
        r
    }

    /// Counts of the events by type, severity and source, and the ten newest events.
    pub fn get_event_statistics(&self) -> (s: EventStatistics)
        ensures
            s.total_events == self.events().len(),
            s.recent_events.len() == if self.events().len() < 10 {
                self.events().len()
            } else {
                10
            },
            forall|i: int|
                0 <= i < s.recent_events.len() ==> event_view(#[trigger] s.recent_events@[i])
                    == self.events()[self.events().len() - 1 - i],
            forall|t: EventType| #[trigger] s.spec_type_count(t) == type_count(self.events(), t),
            forall|v: EventSeverity| #[trigger] s.spec_severity_count(v) == severity_count(self.events(), v),
            forall|v: EventSource| #[trigger] s.spec_source_count(v) == source_count(self.events(), v),
    {
        proof {
            use_type_invariant(self);
        }
        let ghost all = self.events();
        let mut by_type: Vec<(EventType, usize)> = Vec::new();
        let mut by_severity: Vec<(EventSeverity, usize)> = Vec::new();
        let mut by_source: Vec<(EventSource, usize)> = Vec::new();
        for i in 0..self.events.len()
            invariant
                all == self.events(),
                all == event_views(self.events@),
                all.len() <= 1000,
                type_table(by_type@, all.take(i as int)),
                severity_table(by_severity@, all.take(i as int)),
                source_table(by_source@, all.take(i as int)),
        {
            let e = &self.events[i];
            assert(event_view(*e) == all[i as int]);
            assert(all.take(i as int + 1).drop_last() =~= all.take(i as int));
            count_type_into(&mut by_type, e.event_type, Ghost(all.take(i as int)), Ghost(all.take(i as int + 1)));
            count_severity_into(&mut by_severity, e.severity, Ghost(all.take(i as int)), Ghost(all.take(i as int + 1)));
            count_source_into(&mut by_source, e.source, Ghost(all.take(i as int)), Ghost(all.take(i as int + 1)));
        }
        assert(all.take(self.events.len() as int) =~= all);
        let recent = self.get_recent_events(Some(10));
        let s = EventStatistics {
            total_events: self.events.len(),
            events_by_type: by_type,
            events_by_severity: by_severity,
            events_by_source: by_source,
            recent_events: recent,
        };
        proof {
            assert forall|t: EventType| #[trigger] s.spec_type_count(t) == type_count(all, t) by {
                let tb = s.events_by_type@;
                if exists|a: int| 0 <= a < tb.len() && tb[a].0 == t {
                    let a = choose|a: int| 0 <= a < tb.len() && tb[a].0 == t;
                    lemma_distinct_lookup(tb, t, a);
                } else {
                    assert(!exists|a: int| first_entry(tb, t, a));
                }
            }
            assert forall|v: EventSeverity| #[trigger] s.spec_severity_count(v) == severity_count(all, v) by {
                let tb = s.events_by_severity@;
                if exists|a: int| 0 <= a < tb.len() && tb[a].0 == v {
                    let a = choose|a: int| 0 <= a < tb.len() && tb[a].0 == v;
                    lemma_distinct_lookup(tb, v, a);
                } else {
                    assert(!exists|a: int| first_entry(tb, v, a));
                }
            }
            assert forall|v: EventSource| #[trigger] s.spec_source_count(v) == source_count(all, v) by {
                let tb = s.events_by_source@;
                if exists|a: int| 0 <= a < tb.len() && tb[a].0 == v {
                    let a = choose|a: int| 0 <= a < tb.len() && tb[a].0 == v;
                    lemma_distinct_lookup(tb, v, a);
                } else {
                    assert(!exists|a: int| first_entry(tb, v, a));
                }
            }
        }
        s
    }
}

/// Counts of events by key: each key once, each with the count the events give it,
/// and every key that occurs listed.
pub open spec fn type_table(
    t: Seq<(EventType, usize)>,
    evs: Seq<(Seq<char>, EventType, i64, Seq<char>, EventSeverity, EventSource)>,
) -> bool {
    &&& forall|a: int, b: int| 0 <= a < b < t.len() ==> t[a].0 != t[b].0
    &&& forall|a: int| 0 <= a < t.len() ==> t[a].1 == type_count(evs, t[a].0)
    &&& forall|k: EventType| type_count(evs, k) > 0 ==> exists|a: int| 0 <= a < t.len() && t[a].0 == k
}

pub open spec fn severity_table(
    t: Seq<(EventSeverity, usize)>,
    evs: Seq<(Seq<char>, EventType, i64, Seq<char>, EventSeverity, EventSource)>,
) -> bool {
    &&& forall|a: int, b: int| 0 <= a < b < t.len() ==> t[a].0 != t[b].0
    &&& forall|a: int| 0 <= a < t.len() ==> t[a].1 == severity_count(evs, t[a].0)
    &&& forall|k: EventSeverity| severity_count(evs, k) > 0 ==> exists|a: int| 0 <= a < t.len() && t[a].0 == k
}

pub open spec fn source_table(
    t: Seq<(EventSource, usize)>,
    evs: Seq<(Seq<char>, EventType, i64, Seq<char>, EventSeverity, EventSource)>,
) -> bool {
    &&& forall|a: int, b: int| 0 <= a < b < t.len() ==> t[a].0 != t[b].0
    &&& forall|a: int| 0 <= a < t.len() ==> t[a].1 == source_count(evs, t[a].0)
    &&& forall|k: EventSource| source_count(evs, k) > 0 ==> exists|a: int| 0 <= a < t.len() && t[a].0 == k
}

proof fn lemma_count_bound(evs: Seq<(Seq<char>, EventType, i64, Seq<char>, EventSeverity, EventSource)>, t: EventType, s: EventSeverity, o: EventSource)
    ensures
        type_count(evs, t) <= evs.len(),
        severity_count(evs, s) <= evs.len(),
        source_count(evs, o) <= evs.len(),
    decreases evs.len(),
{
    if evs.len() > 0 {
        lemma_count_bound(evs.drop_last(), t, s, o);
    }
}

#[verifier::loop_isolation(false)]
fn count_type_into(
    table: &mut Vec<(EventType, usize)>,
    k: EventType,
    Ghost(before): Ghost<Seq<(Seq<char>, EventType, i64, Seq<char>, EventSeverity, EventSource)>>,
    Ghost(after): Ghost<Seq<(Seq<char>, EventType, i64, Seq<char>, EventSeverity, EventSource)>>,
)
    requires
        type_table(old(table)@, before),
        after.len() == before.len() + 1,
        after.drop_last() == before,
        after.last().1 == k,
        after.len() <= 1000,
    ensures
        type_table(final(table)@, after),
{
    proof {
        assert forall|x: EventType| #[trigger] type_count(after, x) == type_count(before, x) + if x == k {
            1int
        } else {
            0int
        } by {}
        lemma_count_bound(before, k, EventSeverity::Info, EventSource::Portage);
    }
    let ghost t0 = table@;
    let mut i: usize = 0;
    while i < table.len()
        invariant
            forall|j: int| 0 <= j < i ==> table@[j].0 != k,
            i <= table.len(),
            table@ == t0,
        decreases table.len() - i,
    {
        if table[i].0 == k {
            let c = table[i].1;
            table.set(i, (k, c + 1));
            proof {
                let t1 = table@;
                assert forall|a: int| 0 <= a < t1.len() implies t1[a].1 == type_count(after, t1[a].0) by {
                    if a != i {
                        assert(t1[a] == t0[a]);
                        assert(t0[a].0 != k);
                    }
                }
                assert forall|x: EventType| type_count(after, x) > 0 implies exists|a: int|
                    0 <= a < t1.len() && t1[a].0 == x by {
                    if x == k {
                        assert(t1[i as int].0 == x);
                    } else {
                        assert(type_count(before, x) > 0);
                        let a = choose|a: int| 0 <= a < t0.len() && t0[a].0 == x;
                        assert(t1[a].0 == x);
                    }
                }
                assert forall|a: int, b: int| 0 <= a < b < t1.len() implies t1[a].0 != t1[b].0 by {
                    assert(t0[a].0 != t0[b].0);
                }
            }
            return;
        }
        i = i + 1;
    }
    table.push((k, 1));
    proof {
        let t1 = table@;
        assert(type_count(before, k) == 0);
        assert forall|a: int| 0 <= a < t1.len() implies t1[a].1 == type_count(after, t1[a].0) by {
            if a < t0.len() {
                assert(t1[a] == t0[a]);
            }
        }
        assert forall|x: EventType| type_count(after, x) > 0 implies exists|a: int|
            0 <= a < t1.len() && t1[a].0 == x by {
            if x == k {
                assert(t1[t0.len() as int].0 == x);
            } else {
                assert(type_count(before, x) > 0);
                let a = choose|a: int| 0 <= a < t0.len() && t0[a].0 == x;
                assert(t1[a].0 == x);
            }
        }
        assert forall|a: int, b: int| 0 <= a < b < t1.len() implies t1[a].0 != t1[b].0 by {
            if b < t0.len() {
                assert(t0[a].0 != t0[b].0);
            } else {
                assert(t1[b].0 == k);
                assert(t1[a] == t0[a]);
            }
        }
    }
}

#[verifier::loop_isolation(false)]
fn count_severity_into(
    table: &mut Vec<(EventSeverity, usize)>,
    k: EventSeverity,
    Ghost(before): Ghost<Seq<(Seq<char>, EventType, i64, Seq<char>, EventSeverity, EventSource)>>,
    Ghost(after): Ghost<Seq<(Seq<char>, EventType, i64, Seq<char>, EventSeverity, EventSource)>>,
)
    requires
        severity_table(old(table)@, before),
        after.len() == before.len() + 1,
        after.drop_last() == before,
        after.last().4 == k,
        after.len() <= 1000,
    ensures
        severity_table(final(table)@, after),
{
    proof {
        assert forall|x: EventSeverity| #[trigger] severity_count(after, x) == severity_count(before, x) + if x == k {
            1int
        } else {
            0int
        } by {}
        lemma_count_bound(before, EventType::Info, k, EventSource::Portage);
    }
    let ghost t0 = table@;
    let mut i: usize = 0;
    while i < table.len()
        invariant
            forall|j: int| 0 <= j < i ==> table@[j].0 != k,
            i <= table.len(),
            table@ == t0,
        decreases table.len() - i,
    {
        if table[i].0 == k {
            let c = table[i].1;
            table.set(i, (k, c + 1));
            proof {
                let t1 = table@;
                assert forall|a: int| 0 <= a < t1.len() implies t1[a].1 == severity_count(after, t1[a].0) by {
                    if a != i {
                        assert(t1[a] == t0[a]);
                        assert(t0[a].0 != k);
                    }
                }
                assert forall|x: EventSeverity| severity_count(after, x) > 0 implies exists|a: int|
                    0 <= a < t1.len() && t1[a].0 == x by {
                    if x == k {
                        assert(t1[i as int].0 == x);
                    } else {
                        assert(severity_count(before, x) > 0);
                        let a = choose|a: int| 0 <= a < t0.len() && t0[a].0 == x;
                        assert(t1[a].0 == x);
                    }
                }
                assert forall|a: int, b: int| 0 <= a < b < t1.len() implies t1[a].0 != t1[b].0 by {
                    assert(t0[a].0 != t0[b].0);
                }
            }
            return;
        }
        i = i + 1;
    }
    table.push((k, 1));
    proof {
        let t1 = table@;
        assert(severity_count(before, k) == 0);
        assert forall|a: int| 0 <= a < t1.len() implies t1[a].1 == severity_count(after, t1[a].0) by {
            if a < t0.len() {
                assert(t1[a] == t0[a]);
            }
        }
        assert forall|x: EventSeverity| severity_count(after, x) > 0 implies exists|a: int|
            0 <= a < t1.len() && t1[a].0 == x by {
            if x == k {
                assert(t1[t0.len() as int].0 == x);
            } else {
                assert(severity_count(before, x) > 0);
                let a = choose|a: int| 0 <= a < t0.len() && t0[a].0 == x;
                assert(t1[a].0 == x);
            }
        }
        assert forall|a: int, b: int| 0 <= a < b < t1.len() implies t1[a].0 != t1[b].0 by {
            if b < t0.len() {
                assert(t0[a].0 != t0[b].0);
            } else {
                assert(t1[b].0 == k);
                assert(t1[a] == t0[a]);
            }
        }
    }
}

#[verifier::loop_isolation(false)]
fn count_source_into(
    table: &mut Vec<(EventSource, usize)>,
    k: EventSource,
    Ghost(before): Ghost<Seq<(Seq<char>, EventType, i64, Seq<char>, EventSeverity, EventSource)>>,
    Ghost(after): Ghost<Seq<(Seq<char>, EventType, i64, Seq<char>, EventSeverity, EventSource)>>,
)
    requires
        source_table(old(table)@, before),
        after.len() == before.len() + 1,
        after.drop_last() == before,
        after.last().5 == k,
        after.len() <= 1000,
    ensures
        source_table(final(table)@, after),
{
    proof {
        assert forall|x: EventSource| #[trigger] source_count(after, x) == source_count(before, x) + if x == k {
            1int
        } else {
            0int
        } by {}
        lemma_count_bound(before, EventType::Info, EventSeverity::Info, k);
    }
    let ghost t0 = table@;
    let mut i: usize = 0;
    while i < table.len()
        invariant
            forall|j: int| 0 <= j < i ==> table@[j].0 != k,
            i <= table.len(),
            table@ == t0,
        decreases table.len() - i,
    {
        if table[i].0 == k {
            let c = table[i].1;
            table.set(i, (k, c + 1));
            proof {
                let t1 = table@;
                assert forall|a: int| 0 <= a < t1.len() implies t1[a].1 == source_count(after, t1[a].0) by {
                    if a != i {
                        assert(t1[a] == t0[a]);
                        assert(t0[a].0 != k);
                    }
                }
                assert forall|x: EventSource| source_count(after, x) > 0 implies exists|a: int|
                    0 <= a < t1.len() && t1[a].0 == x by {
                    if x == k {
                        assert(t1[i as int].0 == x);
                    } else {
                        assert(source_count(before, x) > 0);
                        let a = choose|a: int| 0 <= a < t0.len() && t0[a].0 == x;
                        assert(t1[a].0 == x);
                    }
                }
                assert forall|a: int, b: int| 0 <= a < b < t1.len() implies t1[a].0 != t1[b].0 by {
                    assert(t0[a].0 != t0[b].0);
                }
            }
            return;
        }
        i = i + 1;
    }
    table.push((k, 1));
    proof {
        let t1 = table@;
        assert(source_count(before, k) == 0);
        assert forall|a: int| 0 <= a < t1.len() implies t1[a].1 == source_count(after, t1[a].0) by {
            if a < t0.len() {
                assert(t1[a] == t0[a]);
            }
        }
        assert forall|x: EventSource| source_count(after, x) > 0 implies exists|a: int|
            0 <= a < t1.len() && t1[a].0 == x by {
            if x == k {
                assert(t1[t0.len() as int].0 == x);
            } else {
                assert(source_count(before, x) > 0);
                let a = choose|a: int| 0 <= a < t0.len() && t0[a].0 == x;
                assert(t1[a].0 == x);
            }
        }
        assert forall|a: int, b: int| 0 <= a < b < t1.len() implies t1[a].0 != t1[b].0 by {
            if b < t0.len() {
                assert(t0[a].0 != t0[b].0);
            } else {
                assert(t1[b].0 == k);
                assert(t1[a] == t0[a]);
            }
        }
    }
}

/// Counts of events, and the ten newest, newest first.
#[derive(Debug, Clone)]
pub struct EventStatistics {
    pub total_events: usize,
    pub events_by_type: Vec<(EventType, usize)>,
    pub events_by_severity: Vec<(EventSeverity, usize)>,
    pub events_by_source: Vec<(EventSource, usize)>,
    pub recent_events: Vec<PortageEvent>,
}

/// `a` is the first entry of `s` under key `k`.
pub open spec fn first_entry<K>(s: Seq<(K, usize)>, k: K, a: int) -> bool {
    0 <= a < s.len() && s[a].0 == k && forall|b: int| 0 <= b < a ==> s[b].0 != k
}

/// The count listed first under key `k`, or 0 when there is none.
pub open spec fn listed_count<K>(s: Seq<(K, usize)>, k: K) -> nat {
    if exists|a: int| first_entry(s, k, a) {
        s[choose|a: int| first_entry(s, k, a)].1 as nat
    } else {
        0
    }
}

proof fn lemma_first_entry_unique<K>(s: Seq<(K, usize)>, k: K, a: int)
    requires
        first_entry(s, k, a),
    ensures
        (choose|b: int| first_entry(s, k, b)) == a,
{
    let b = choose|b: int| first_entry(s, k, b);
    assert(first_entry(s, k, b));
    if b < a {
        assert(s[b].0 != k);
    }
    if a < b {
        assert(s[a].0 != k);
    }
}

/// In a table of distinct keys, the entry under a key is the first.
proof fn lemma_distinct_lookup<K>(s: Seq<(K, usize)>, k: K, a: int)
    requires
        0 <= a < s.len(),
        s[a].0 == k,
        forall|x: int, y: int| 0 <= x < y < s.len() ==> s[x].0 != s[y].0,
    ensures
        listed_count(s, k) == s[a].1,
{
    assert(first_entry(s, k, a));
    lemma_first_entry_unique(s, k, a);
}

impl EventStatistics {
    pub open spec fn spec_type_count(&self, t: EventType) -> nat {
        listed_count(self.events_by_type@, t)
    }

    pub open spec fn spec_severity_count(&self, v: EventSeverity) -> nat {
        listed_count(self.events_by_severity@, v)
    }

    pub open spec fn spec_source_count(&self, v: EventSource) -> nat {
        listed_count(self.events_by_source@, v)
    }

    /// The number of events of type `t`.
    pub fn count_of_type(&self, t: EventType) -> (n: usize)
        ensures
            n == self.spec_type_count(t),
    {
        let mut i: usize = 0;
        while i < self.events_by_type.len()
            invariant
                i <= self.events_by_type.len(),
                forall|j: int| 0 <= j < i ==> self.events_by_type@[j].0 != t,
            decreases self.events_by_type.len() - i,
        {
            if self.events_by_type[i].0 == t {
                proof {
                    assert(first_entry(self.events_by_type@, t, i as int));
                    lemma_first_entry_unique(self.events_by_type@, t, i as int);
                }
                return self.events_by_type[i].1;
            }
            i = i + 1;
        }
        0
    }
}

/// Every type of event, once each.
pub open spec fn all_types() -> Seq<EventType> {
    seq![
        EventType::PackageInstall,
        EventType::PackageRemove,
        EventType::PackageUpdate,
        EventType::SyncStart,
        EventType::SyncComplete,
        EventType::SyncFailed,
        EventType::CompileStart,
        EventType::CompileSuccess,
        EventType::CompileFailed,
        EventType::DependencyResolution,
        EventType::ConfigurationChange,
        EventType::SystemStateChange,
        EventType::UserAction,
        EventType::AgentAction,
        EventType::Error,
        EventType::Warning,
        EventType::Info,
    ]
}

/// The counts of the events over the types of `ks`, added up.
pub open spec fn type_count_sum(
    evs: Seq<(Seq<char>, EventType, i64, Seq<char>, EventSeverity, EventSource)>,
    ks: Seq<EventType>,
) -> nat
    decreases ks.len(),
{
    if ks.len() == 0 {
        0
    } else {
        type_count_sum(evs, ks.drop_last()) + type_count(evs, ks.last())
    }
}

/// How many times `k` occurs in `ks`.
pub open spec fn type_occurrences(ks: Seq<EventType>, k: EventType) -> nat
    decreases ks.len(),
{
    if ks.len() == 0 {
        0
    } else {
        type_occurrences(ks.drop_last(), k) + if ks.last() == k {
            1nat
        } else {
            0nat
        }
    }
}

proof fn lemma_type_sum_step(
    evs: Seq<(Seq<char>, EventType, i64, Seq<char>, EventSeverity, EventSource)>,
    ks: Seq<EventType>,
)
    requires
        evs.len() > 0,
    ensures
        type_count_sum(evs, ks) == type_count_sum(evs.drop_last(), ks) + type_occurrences(ks, evs.last().1),
    decreases ks.len(),
{
    if ks.len() > 0 {
        lemma_type_sum_step(evs, ks.drop_last());
    }
}

proof fn lemma_all_types_once(k: EventType)
    ensures
        type_occurrences(all_types(), k) == 1,
{
    reveal_with_fuel(type_occurrences, 18);
}

/// The law of the type counts: over every type, the counts add up to the number of
/// events, each event being counted once.
pub proof fn lemma_type_counts_total(
    evs: Seq<(Seq<char>, EventType, i64, Seq<char>, EventSeverity, EventSource)>,
)
    ensures
        type_count_sum(evs, all_types()) == evs.len(),
    decreases evs.len(),
{
    if evs.len() == 0 {
        assert(evs =~= Seq::empty());
        lemma_type_zero(all_types());
    } else {
        lemma_type_counts_total(evs.drop_last());
        lemma_type_sum_step(evs, all_types());
        lemma_all_types_once(evs.last().1);
    }
}

proof fn lemma_type_zero(ks: Seq<EventType>)
    ensures
        type_count_sum(Seq::empty(), ks) == 0,
    decreases ks.len(),
{
    if ks.len() > 0 {
        lemma_type_zero(ks.drop_last());
    }
}

/// Every severity of event, once each.
pub open spec fn all_severities() -> Seq<EventSeverity> {
    seq![
        EventSeverity::Critical,
        EventSeverity::High,
        EventSeverity::Medium,
        EventSeverity::Low,
        EventSeverity::Info,
    ]
}

/// The counts of the events over the severitys of `ks`, added up.
pub open spec fn severity_count_sum(
    evs: Seq<(Seq<char>, EventType, i64, Seq<char>, EventSeverity, EventSource)>,
    ks: Seq<EventSeverity>,
) -> nat
    decreases ks.len(),
{
    if ks.len() == 0 {
        0
    } else {
        severity_count_sum(evs, ks.drop_last()) + severity_count(evs, ks.last())
    }
}

/// How many times `k` occurs in `ks`.
pub open spec fn severity_occurrences(ks: Seq<EventSeverity>, k: EventSeverity) -> nat
    decreases ks.len(),
{
    if ks.len() == 0 {
        0
    } else {
        severity_occurrences(ks.drop_last(), k) + if ks.last() == k {
            1nat
        } else {
            0nat
        }
    }
}

proof fn lemma_severity_sum_step(
    evs: Seq<(Seq<char>, EventType, i64, Seq<char>, EventSeverity, EventSource)>,
    ks: Seq<EventSeverity>,
)
    requires
        evs.len() > 0,
    ensures
        severity_count_sum(evs, ks) == severity_count_sum(evs.drop_last(), ks) + severity_occurrences(ks, evs.last().4),
    decreases ks.len(),
{
    if ks.len() > 0 {
        lemma_severity_sum_step(evs, ks.drop_last());
    }
}

proof fn lemma_all_severities_once(k: EventSeverity)
    ensures
        severity_occurrences(all_severities(), k) == 1,
{
    reveal_with_fuel(severity_occurrences, 6);
}

/// The law of the severity counts: over every severity, the counts add up to the number of
/// events, each event being counted once.
pub proof fn lemma_severity_counts_total(
    evs: Seq<(Seq<char>, EventType, i64, Seq<char>, EventSeverity, EventSource)>,
)
    ensures
        severity_count_sum(evs, all_severities()) == evs.len(),
    decreases evs.len(),
{
    if evs.len() == 0 {
        assert(evs =~= Seq::empty());
        lemma_severity_zero(all_severities());
    } else {
        lemma_severity_counts_total(evs.drop_last());
        lemma_severity_sum_step(evs, all_severities());
        lemma_all_severities_once(evs.last().4);
    }
}

proof fn lemma_severity_zero(ks: Seq<EventSeverity>)
    ensures
        severity_count_sum(Seq::empty(), ks) == 0,
    decreases ks.len(),
{
    if ks.len() > 0 {
        lemma_severity_zero(ks.drop_last());
    }
}

/// Every source of event, once each.
pub open spec fn all_sources() -> Seq<EventSource> {
    seq![
        EventSource::Portage,
        EventSource::System,
        EventSource::User,
        EventSource::Agent,
        EventSource::External,
    ]
}

/// The counts of the events over the sources of `ks`, added up.
pub open spec fn source_count_sum(
    evs: Seq<(Seq<char>, EventType, i64, Seq<char>, EventSeverity, EventSource)>,
    ks: Seq<EventSource>,
) -> nat
    decreases ks.len(),
{
    if ks.len() == 0 {
        0
    } else {
        source_count_sum(evs, ks.drop_last()) + source_count(evs, ks.last())
    }
}

/// How many times `k` occurs in `ks`.
pub open spec fn source_occurrences(ks: Seq<EventSource>, k: EventSource) -> nat
    decreases ks.len(),
{
    if ks.len() == 0 {
        0
    } else {
        source_occurrences(ks.drop_last(), k) + if ks.last() == k {
            1nat
        } else {
            0nat
        }
    }
}

proof fn lemma_source_sum_step(
    evs: Seq<(Seq<char>, EventType, i64, Seq<char>, EventSeverity, EventSource)>,
    ks: Seq<EventSource>,
)
    requires
        evs.len() > 0,
    ensures
        source_count_sum(evs, ks) == source_count_sum(evs.drop_last(), ks) + source_occurrences(ks, evs.last().5),
    decreases ks.len(),
{
    if ks.len() > 0 {
        lemma_source_sum_step(evs, ks.drop_last());
    }
}

proof fn lemma_all_sources_once(k: EventSource)
    ensures
        source_occurrences(all_sources(), k) == 1,
{
    reveal_with_fuel(source_occurrences, 6);
}

/// The law of the source counts: over every source, the counts add up to the number of
/// events, each event being counted once.
pub proof fn lemma_source_counts_total(
    evs: Seq<(Seq<char>, EventType, i64, Seq<char>, EventSeverity, EventSource)>,
)
    ensures
        source_count_sum(evs, all_sources()) == evs.len(),
    decreases evs.len(),
{
    if evs.len() == 0 {
        assert(evs =~= Seq::empty());
        lemma_source_zero(all_sources());
    } else {
        lemma_source_counts_total(evs.drop_last());
        lemma_source_sum_step(evs, all_sources());
        lemma_all_sources_once(evs.last().5);
    }
}

proof fn lemma_source_zero(ks: Seq<EventSource>)
    ensures
        source_count_sum(Seq::empty(), ks) == 0,
    decreases ks.len(),
{
    if ks.len() > 0 {
        lemma_source_zero(ks.drop_last());
    }
}

} // verus!
