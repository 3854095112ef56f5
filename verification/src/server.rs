//! The telemetry server's verified core: the route table assembled from
//! the built-in routes, the conditional profiler routes and the
//! caller-supplied routes; conflict detection at construction time; and
//! request dispatch. Binding the socket, scheduling the task and running
//! caller handlers are the host runtime's work: it feeds requests to
//! [`RouteTable::dispatch`] and serves the responses built here.

use vstd::prelude::*;
use crate::metrics::{spec_metrics_document, spec_samples_view, render_metrics, MetricSample};
use crate::profiler::{spec_next, spec_observed, MemoryProfiler, NativeInitOutcome, ProfilerHandle};
use crate::settings::{SocketAddress, TelemetrySettings};
use crate::strutil::str_eq;
use vstd::string::StrSliceExecFns;
use vstd::string::StringExecFns;

verus! {

/// HTTP request method.
#[derive(Clone, Copy, Debug, PartialEq, Eq, Structural, Hash)]
pub enum Method {
    Get,
    Head,
    Post,
    Put,
    Delete,
    Options,
    Patch,
}

/// A route supplied by the embedding application.
///
/// The handler itself stays with the caller for the server's lifetime:
/// the table records path and methods, dispatch hands back the index of
/// the matching caller route, and the host runtime invokes the caller's
/// handler for that index.
#[derive(Clone, Debug)]
pub struct TelemetryServerRoute {
    /// Request path the route serves.
    pub path: String,
    /// Methods the route serves.
    pub methods: Vec<Method>,
}

impl View for TelemetryServerRoute {
    type V = (Seq<char>, Seq<Method>);

    open spec fn view(&self) -> (Seq<char>, Seq<Method>) {
        (self.path@, self.methods@)
    }
}

/// The views of a sequence of caller routes.
pub open spec fn spec_route_views(routes: Seq<TelemetryServerRoute>) -> Seq<
    (Seq<char>, Seq<Method>),
> {
    routes.map_values(|r: TelemetryServerRoute| r@)
}

/// What a dispatched request is served by.
#[derive(Clone, Copy, Debug, PartialEq, Eq, Structural)]
pub enum RouteTarget {
    /// Built-in liveness route `GET /health`.
    Health,
    /// Built-in metrics route `GET /metrics`.
    Metrics,
    /// Built-in profile dump route `GET /pprof/heap`.
    PprofHeap,
    /// Built-in allocation statistics route `GET /pprof/heap_stats`.
    PprofHeapStats,
    /// The caller route at this index in the registered route list.
    Caller(usize),
}

/// One entry of the assembled route table.
#[derive(Clone, Debug)]
pub struct RouteEntry {
    /// What the entry serves.
    pub target: RouteTarget,
    /// Path of the entry.
    pub path: String,
    /// Methods of the entry.
    pub methods: Vec<Method>,
}

impl View for RouteEntry {
    type V = (RouteTarget, Seq<char>, Seq<Method>);

    open spec fn view(&self) -> (RouteTarget, Seq<char>, Seq<Method>) {
        (self.target, self.path@, self.methods@)
    }
}

/// Whether a method list holds `m`.
pub open spec fn spec_contains_method(ms: Seq<Method>, m: Method) -> bool {
    exists|i: int| 0 <= i < ms.len() && ms[i] == m
}

/// Whether two method lists share a method.
pub open spec fn spec_methods_overlap(a: Seq<Method>, b: Seq<Method>) -> bool {
    exists|i: int, j: int| 0 <= i < a.len() && 0 <= j < b.len() && a[i] == b[j]
}

/// Whether an entry serves the given method and path.
pub open spec fn spec_entry_matches(
    e: (RouteTarget, Seq<char>, Seq<Method>),
    m: Method,
    path: Seq<char>,
) -> bool {
    e.1 == path && spec_contains_method(e.2, m)
}

/// The route-table invariant: no two entries have an identical path and
/// overlapping method sets.
pub open spec fn spec_conflict_free(es: Seq<(RouteTarget, Seq<char>, Seq<Method>)>) -> bool {
    forall|i: int, j: int|
        0 <= i < j < es.len() ==> !(es[i].1 == es[j].1 && spec_methods_overlap(es[i].2, es[j].2))
}

/// The built-in entries: health and metrics always, the two profiler
/// routes only when the profiler singleton resolved to a handle.
pub open spec fn spec_builtin_entries(profiler_active: bool) -> Seq<
    (RouteTarget, Seq<char>, Seq<Method>),
> {
    seq![
        (RouteTarget::Health, "/health"@, seq![Method::Get]),
        (RouteTarget::Metrics, "/metrics"@, seq![Method::Get]),
    ] + if profiler_active {
        seq![
            (RouteTarget::PprofHeap, "/pprof/heap"@, seq![Method::Get]),
            (RouteTarget::PprofHeapStats, "/pprof/heap_stats"@, seq![Method::Get]),
        ]
    } else {
        Seq::empty()
    }
}

/// The full expected table: built-in entries first, then one entry per
/// caller route, in registration order.
pub open spec fn spec_expected_entries(
    profiler_active: bool,
    extra: Seq<(Seq<char>, Seq<Method>)>,
) -> Seq<(RouteTarget, Seq<char>, Seq<Method>)> {
    spec_builtin_entries(profiler_active) + Seq::new(
        extra.len(),
        |i: int| (RouteTarget::Caller(i as usize), extra[i].0, extra[i].1),
    )
}

/// The first entry that serves the method and path, walked front to back.
pub open spec fn spec_dispatch(
    es: Seq<(RouteTarget, Seq<char>, Seq<Method>)>,
    m: Method,
    path: Seq<char>,
) -> Option<RouteTarget>
    decreases es.len(),
{
    if es.len() == 0 {
        None
    } else if spec_entry_matches(es[0], m, path) {
        Some(es[0].0)
    } else {
        spec_dispatch(es.drop_first(), m, path)
    }
}

fn contains_method(ms: &Vec<Method>, m: Method) -> (r: bool)
    ensures
        r == spec_contains_method(ms@, m),
{
    let n = ms.len();
    let mut i: usize = 0;
    while i < n
        invariant
            n == ms@.len(),
            i <= n,
            forall|j: int| 0 <= j < i ==> ms@[j] != m,
        decreases n - i,
    {
        if ms[i] == m {
            return true;
        }
        i = i + 1;
    }
    false
}

fn methods_overlap(a: &Vec<Method>, b: &Vec<Method>) -> (r: bool)
    ensures
        r == spec_methods_overlap(a@, b@),
{
    let n = a.len();
    let mut i: usize = 0;
    while i < n
        invariant
            n == a@.len(),
            i <= n,
            forall|x: int, y: int| 0 <= x < i && 0 <= y < b@.len() ==> a@[x] != b@[y],
        decreases n - i,
    {
        if contains_method(b, a[i]) {
            return true;
        }
        proof {
            assert(forall|y: int| 0 <= y < b@.len() ==> a@[i as int] != b@[y]);
        }
        i = i + 1;
    }
    false
}

fn get_only() -> (ms: Vec<Method>)
    ensures
        ms@ == seq![Method::Get],
{
    let mut ms: Vec<Method> = Vec::new();
    ms.push(Method::Get);
    proof {
        assert(ms@ =~= seq![Method::Get]);
    }
    ms
}

fn copy_methods(ms: &Vec<Method>) -> (r: Vec<Method>)
    ensures
        r@ == ms@,
{
    let n = ms.len();
    let mut r: Vec<Method> = Vec::new();
    let mut i: usize = 0;
    while i < n
        invariant
            n == ms@.len(),
            i <= n,
            r@ == ms@.subrange(0, i as int),
        decreases n - i,
    {
        r.push(ms[i]);
        proof {
            assert(r@ =~= ms@.subrange(0, i + 1));
        }
        i = i + 1;
    }
    proof {
        assert(ms@.subrange(0, n as int) =~= ms@);
    }
    r
}

/// Errors of telemetry initialization.
#[derive(Clone, Copy, Debug, PartialEq, Eq, Structural)]
pub enum TelemetryError {
    /// Two routes with an identical path and overlapping methods; found
    /// at construction time, before any socket is bound.
    RouteConflict,
    /// The native profiler activation attempt failed.
    ProfilerInitFailed,
}

impl TelemetryError {
    /// A human-readable description of the error.
    pub fn message(&self) -> (s: &'static str)
        ensures
            self is RouteConflict ==> s@ == "conflicting routes: identical path and overlapping methods"@,
            self is ProfilerInitFailed ==> s@ == "memory profiler initialization failed"@,
    {
        match self {
            TelemetryError::RouteConflict => "conflicting routes: identical path and overlapping methods",
            TelemetryError::ProfilerInitFailed => "memory profiler initialization failed",
        }
    }
}

/// The assembled, conflict-free route table of a telemetry server.
#[derive(Clone, Debug)]
pub struct RouteTable {
    entries: Vec<RouteEntry>,
}

impl RouteTable {
    /// The views of the table's entries, in dispatch order.
    pub closed spec fn spec_entries(self) -> Seq<(RouteTarget, Seq<char>, Seq<Method>)> {
        self.entries@.map_values(|e: RouteEntry| e@)
    }

    /// Dispatches a request: the target of the first (and, in a
    /// conflict-free table, only) entry that serves the method and path,
    /// or `None` when no route is registered for them.
    pub fn dispatch(&self, method: Method, path: &str) -> (d: Option<RouteTarget>)
        ensures
            d == spec_dispatch(self.spec_entries(), method, path@),
    {
        let ghost es = self.spec_entries();
        let n = self.entries.len();
        proof {
            assert(es.skip(0) =~= es);
        }
        let mut i: usize = 0;
        while i < n
            invariant
                n == self.entries@.len(),
                i <= n,
                es == self.spec_entries(),
                spec_dispatch(es, method, path@) == spec_dispatch(es.skip(i as int), method, path@),
            decreases n - i,
        {
            proof {
                assert(es.skip(i as int)[0] == es[i as int]);
            }
            if str_eq(self.entries[i].path.as_str(), path) {
                if contains_method(&self.entries[i].methods, method) {
                    assert(spec_entry_matches(es.skip(i as int)[0], method, path@));
                    return Some(self.entries[i].target);
                }
            }
            proof {
                assert(!spec_entry_matches(es.skip(i as int)[0], method, path@));
                assert(es.skip(i as int).drop_first() =~= es.skip(i + 1));
            }
            i = i + 1;
        }
        proof {
            assert(es.skip(n as int).len() == 0);
        }
        None
    }
}

fn find_conflict(entries: &Vec<RouteEntry>) -> (r: bool)
    ensures
        r == !spec_conflict_free(entries@.map_values(|e: RouteEntry| e@)),
{
    let ghost es = entries@.map_values(|e: RouteEntry| e@);
    let n = entries.len();
    let mut i: usize = 0;
    while i < n
        invariant
            n == entries@.len(),
            i <= n,
            es == entries@.map_values(|e: RouteEntry| e@),
            forall|a: int, b: int|
                0 <= a < b < n && a < i ==> !(es[a].1 == es[b].1 && spec_methods_overlap(
                    es[a].2,
                    es[b].2,
                )),
        decreases n - i,
    {
        let mut j: usize = i + 1;
        while j < n
            invariant
                n == entries@.len(),
                i < n,
                i < j <= n,
                es == entries@.map_values(|e: RouteEntry| e@),
                forall|b: int|
                    i < b < j ==> !(es[i as int].1 == es[b].1 && spec_methods_overlap(
                        es[i as int].2,
                        es[b].2,
                    )),
            decreases n - j,
        {
            if str_eq(entries[i].path.as_str(), entries[j].path.as_str()) {
                if methods_overlap(&entries[i].methods, &entries[j].methods) {
                    assert(es[i as int].1 == es[j as int].1 && spec_methods_overlap(
                        es[i as int].2,
                        es[j as int].2,
                    ));
                    return true;
                }
            }
            j = j + 1;
        }
        i = i + 1;
    }
    false
}

/// Assembles the route table: the built-in routes, the profiler routes
/// when a profiler handle is active, then the caller routes. Fails with a
/// route conflict — before any socket is bound — when two entries share a
/// path with overlapping methods.
pub fn build_route_table(profiler_active: bool, extra: &Vec<TelemetryServerRoute>) -> (r: Result<
    RouteTable,
    TelemetryError,
>)
    ensures
        match r {
            Ok(t) => {
                &&& t.spec_entries() == spec_expected_entries(
                    profiler_active,
                    spec_route_views(extra@),
                )
                &&& spec_conflict_free(t.spec_entries())
            },
            Err(e) => {
                &&& !spec_conflict_free(
                    spec_expected_entries(profiler_active, spec_route_views(extra@)),
                )
                &&& e is RouteConflict
            },
        },
{
    let ghost expected = spec_expected_entries(profiler_active, spec_route_views(extra@));
    let mut entries: Vec<RouteEntry> = Vec::new();
    entries.push(
        RouteEntry {
            target: RouteTarget::Health,
            path: "/health".to_owned(),
            methods: get_only(),
        },
    );
    entries.push(
        RouteEntry {
            target: RouteTarget::Metrics,
            path: "/metrics".to_owned(),
            methods: get_only(),
        },
    );
    if profiler_active {
        entries.push(
            RouteEntry {
                target: RouteTarget::PprofHeap,
                path: "/pprof/heap".to_owned(),
                methods: get_only(),
            },
        );
        entries.push(
            RouteEntry {
                target: RouteTarget::PprofHeapStats,
                path: "/pprof/heap_stats".to_owned(),
                methods: get_only(),
            },
        );
    }
    let ghost builtin_count = entries@.len() as int;
    proof {
        assert(entries@.map_values(|e: RouteEntry| e@) =~= spec_builtin_entries(profiler_active));
    }
    let n = extra.len();
    let mut k: usize = 0;
    while k < n
        invariant
            n == extra@.len(),
            k <= n,
            expected == spec_expected_entries(profiler_active, spec_route_views(extra@)),
            builtin_count == spec_builtin_entries(profiler_active).len(),
            entries@.len() == builtin_count + k,
            entries@.map_values(|e: RouteEntry| e@) =~= expected.subrange(
                0,
                builtin_count + k as int,
            ),
        decreases n - k,
    {
        entries.push(
            RouteEntry {
                target: RouteTarget::Caller(k),
                path: extra[k].path.clone(),
                methods: copy_methods(&extra[k].methods),
            },
        );
        proof {
            assert(entries@.map_values(|e: RouteEntry| e@) =~= expected.subrange(
                0,
                builtin_count + k + 1,
            ));
        }
        k = k + 1;
    }
    proof {
        assert(expected.subrange(0, builtin_count + n as int) =~= expected);
    }
    if find_conflict(&entries) {
        Err(TelemetryError::RouteConflict)
    } else {
        Ok(RouteTable { entries })
    }
}

/// If no entry serves the method and path, dispatch finds nothing.
pub proof fn lemma_dispatch_none_when_no_match(
    es: Seq<(RouteTarget, Seq<char>, Seq<Method>)>,
    m: Method,
    path: Seq<char>,
)
    requires
        forall|i: int| 0 <= i < es.len() ==> !spec_entry_matches(#[trigger] es[i], m, path),
    ensures
        spec_dispatch(es, m, path) is None,
    decreases es.len(),
{
    if es.len() > 0 {
        assert(forall|i: int|
            0 <= i < es.drop_first().len() ==> #[trigger] es.drop_first()[i] == es[i + 1]);
        lemma_dispatch_none_when_no_match(es.drop_first(), m, path);
    }
}

/// Dispatch returns the target of the first matching entry: if some entry
/// matches and none before it does, that entry decides the result.
pub proof fn lemma_dispatch_first_match(
    es: Seq<(RouteTarget, Seq<char>, Seq<Method>)>,
    m: Method,
    path: Seq<char>,
    k: int,
)
    requires
        0 <= k < es.len(),
        spec_entry_matches(es[k], m, path),
        forall|j: int| 0 <= j < k ==> !spec_entry_matches(#[trigger] es[j], m, path),
    ensures
        spec_dispatch(es, m, path) == Some(es[k].0),
    decreases k,
{
    if k > 0 {
        assert(forall|i: int|
            0 <= i < es.drop_first().len() ==> #[trigger] es.drop_first()[i] == es[i + 1]);
        lemma_dispatch_first_match(es.drop_first(), m, path, k - 1);
    }
}

/// Law: dispatch is exact per registration — in a conflict-free table, a
/// request for a caller route's path with one of its declared methods is
/// dispatched to exactly that caller route, so the response is the one
/// its handler returns.
pub proof fn lemma_caller_route_dispatched(
    profiler_active: bool,
    extra: Seq<(Seq<char>, Seq<Method>)>,
    i: int,
    m: Method,
)
    requires
        0 <= i < extra.len(),
        spec_contains_method(extra[i].1, m),
        spec_conflict_free(spec_expected_entries(profiler_active, extra)),
    ensures
        spec_dispatch(spec_expected_entries(profiler_active, extra), m, extra[i].0) == Some(
            RouteTarget::Caller(i as usize),
        ),
{
    let es = spec_expected_entries(profiler_active, extra);
    let b = spec_builtin_entries(profiler_active).len() as int;
    let path = extra[i].0;
    assert(es[b + i] == (RouteTarget::Caller(i as usize), extra[i].0, extra[i].1));
    assert(spec_entry_matches(es[b + i], m, path));
    assert forall|j: int| 0 <= j < b + i implies !spec_entry_matches(
        #[trigger] es[j],
        m,
        path,
    ) by {
        if spec_entry_matches(es[j], m, path) {
            let ms1 = es[j].2;
            let ms2 = es[b + i].2;
            let x = choose|x: int| 0 <= x < ms1.len() && ms1[x] == m;
            let y = choose|y: int| 0 <= y < ms2.len() && ms2[y] == m;
            assert(ms1[x] == ms2[y]);
            assert(spec_methods_overlap(ms1, ms2));
            assert(!(es[j].1 == es[b + i].1 && spec_methods_overlap(es[j].2, es[b + i].2)));
        }
    }
    lemma_dispatch_first_match(es, m, path, b + i);
}

/// Law: `GET /health` is always routed to the health endpoint, whatever
/// the profiler state and the caller routes; liveness is independent of
/// every other subsystem.
pub proof fn lemma_health_always_routed(
    profiler_active: bool,
    extra: Seq<(Seq<char>, Seq<Method>)>,
)
    ensures
        spec_dispatch(spec_expected_entries(profiler_active, extra), Method::Get, "/health"@)
            == Some(RouteTarget::Health),
{
    let es = spec_expected_entries(profiler_active, extra);
    assert(es[0] == (RouteTarget::Health, "/health"@, seq![Method::Get]));
    assert(seq![Method::Get][0] == Method::Get);
    assert(spec_entry_matches(es[0], Method::Get, "/health"@));
}

/// Law: `GET /metrics` is always routed to the metrics endpoint: the
/// health entry never shadows it.
pub proof fn lemma_metrics_always_routed(
    profiler_active: bool,
    extra: Seq<(Seq<char>, Seq<Method>)>,
)
    ensures
        spec_dispatch(spec_expected_entries(profiler_active, extra), Method::Get, "/metrics"@)
            == Some(RouteTarget::Metrics),
{
    reveal_strlit("/health");
    reveal_strlit("/metrics");
    let es = spec_expected_entries(profiler_active, extra);
    assert(("/health"@).len() == 7);
    assert(("/metrics"@).len() == 8);
    assert(es[0] == (RouteTarget::Health, "/health"@, seq![Method::Get]));
    assert(es[1] == (RouteTarget::Metrics, "/metrics"@, seq![Method::Get]));
    assert(es.len() >= 2);
    assert(!spec_entry_matches(es[0], Method::Get, "/metrics"@));
    assert(seq![Method::Get][0] == Method::Get);
    assert(spec_entry_matches(es[1], Method::Get, "/metrics"@));
    assert(es.drop_first()[0] == es[1]);
    assert(spec_entry_matches(es.drop_first()[0], Method::Get, "/metrics"@));
    assert(spec_dispatch(es, Method::Get, "/metrics"@) == spec_dispatch(es.drop_first(), Method::Get, "/metrics"@));
}

/// Law: without an active profiler the profiler routes are not registered
/// at all — unless the caller itself registered such a path, dispatching
/// `/pprof/heap` or `/pprof/heap_stats` finds nothing, whatever the
/// profiler settings asked for.
pub proof fn lemma_profiler_routes_absent(
    extra: Seq<(Seq<char>, Seq<Method>)>,
    m: Method,
    path: Seq<char>,
)
    requires
        path == "/pprof/heap"@ || path == "/pprof/heap_stats"@,
        forall|i: int| 0 <= i < extra.len() ==> (#[trigger] extra[i]).0 != path,
    ensures
        spec_dispatch(spec_expected_entries(false, extra), m, path) is None,
{
    reveal_strlit("/health");
    reveal_strlit("/metrics");
    reveal_strlit("/pprof/heap");
    reveal_strlit("/pprof/heap_stats");
    let es = spec_expected_entries(false, extra);
    assert(("/health"@).len() == 7);
    assert(("/metrics"@).len() == 8);
    assert(("/pprof/heap"@).len() == 11);
    assert(("/pprof/heap_stats"@).len() == 17);
    assert(forall|i: int| 0 <= i < es.len() ==> !spec_entry_matches(#[trigger] es[i], m, path)) by {
        assert(forall|i: int| 2 <= i < es.len() ==> (#[trigger] es[i]).1 == extra[i - 2].0);
    }
    lemma_dispatch_none_when_no_match(es, m, path);
}

/// Law: two caller routes with an identical path and overlapping methods
/// always conflict, so table construction rejects them before the server
/// starts.
pub proof fn lemma_duplicate_caller_routes_conflict(
    profiler_active: bool,
    extra: Seq<(Seq<char>, Seq<Method>)>,
    i: int,
    j: int,
)
    requires
        0 <= i < j < extra.len(),
        extra[i].0 == extra[j].0,
        spec_methods_overlap(extra[i].1, extra[j].1),
    ensures
        !spec_conflict_free(spec_expected_entries(profiler_active, extra)),
{
    let es = spec_expected_entries(profiler_active, extra);
    let b = spec_builtin_entries(profiler_active).len() as int;
    assert(es[b + i].1 == extra[i].0 && es[b + i].2 == extra[i].1);
    assert(es[b + j].1 == extra[j].0 && es[b + j].2 == extra[j].1);
}

/// Name and version tags the external collaborators attach to logs and
/// metrics.
#[derive(Clone, Debug)]
pub struct ServiceInfo {
    /// Service name.
    pub name: String,
    /// Service version.
    pub version: String,
}

/// The task handed back to the host runtime.
pub enum ServerTask {
    /// The server is disabled: nothing to bind, nothing to serve, every
    /// route unreachable.
    Noop,
    /// Bind the address and serve requests through the route table,
    /// tagged with the service info.
    Serve(ServiceInfo, SocketAddress, RouteTable),
}

impl ServerTask {
    /// Whether the task serves at all.
    pub fn is_noop(&self) -> (r: bool)
        ensures
            r == (self is Noop),
    {
        match self {
            ServerTask::Noop => true,
            ServerTask::Serve(..) => false,
        }
    }
}

/// The telemetry orchestration entry point: resolves the profiler
/// singleton as the settings ask, then — when the server is enabled —
/// assembles the route table (profiler routes only for an active handle)
/// and hands back the serve task for the configured address. A disabled
/// server yields the no-op task: no socket is ever bound for it. Route
/// conflicts and failed profiler activation are reported synchronously,
/// before any socket work.
pub fn init_with_server(
    info: &ServiceInfo,
    settings: &TelemetrySettings,
    routes: &Vec<TelemetryServerRoute>,
    profiler: &mut MemoryProfiler,
    native: NativeInitOutcome,
) -> (r: Result<ServerTask, TelemetryError>)
    ensures
        final(profiler).spec_state() == spec_next(
            old(profiler).spec_state(),
            settings.memory_profiler.enabled,
            native,
        ),
        ({
            let observed = spec_observed(
                old(profiler).spec_state(),
                settings.memory_profiler.enabled,
                native,
            );
            let active = observed matches Ok(h) && h is Some;
            let expected = spec_expected_entries(active, spec_route_views(routes@));
            match r {
                Ok(task) => {
                    &&& observed is Ok
                    &&& !settings.server.enabled ==> task is Noop
                    &&& settings.server.enabled ==> (task matches ServerTask::Serve(
                        tinfo,
                        addr,
                        table,
                    ) && addr == settings.server.addr && tinfo.name@ == info.name@
                        && tinfo.version@ == info.version@ && table.spec_entries() == expected
                        && spec_conflict_free(expected))
                },
                Err(e) => {
                    ||| e is ProfilerInitFailed && observed is Err
                    ||| e is RouteConflict && observed is Ok && settings.server.enabled
                        && !spec_conflict_free(expected)
                },
            }
        }),
{
    let resolved = match profiler.get_or_init_with(&settings.memory_profiler, native) {
        Ok(h) => h,
        Err(_) => {
            return Err(TelemetryError::ProfilerInitFailed);
        },
    };
    if !settings.server.enabled {
        return Ok(ServerTask::Noop);
    }
    let table = match build_route_table(resolved.is_some(), routes) {
        Ok(t) => t,
        Err(_) => {
            return Err(TelemetryError::RouteConflict);
        },
    };
    let tinfo = ServiceInfo { name: info.name.clone(), version: info.version.clone() };
    Ok(ServerTask::Serve(tinfo, settings.server.addr, table))
}

/// A response of the telemetry server.
#[derive(Clone, Debug)]
pub struct HttpResponse {
    /// HTTP status code.
    pub status: u16,
    /// Response body.
    pub body: String,
}

/// The health response: success with an empty body, whenever the server
/// is running at all.
pub fn health_response() -> (r: HttpResponse)
    ensures
        r.status == 200,
        r.body@ == Seq::<char>::empty(),
{
    let r = HttpResponse { status: 200, body: String::new() };
    proof {
        assert(r.body@ =~= Seq::<char>::empty());
    }
    r
}

/// The metrics response: the exposition document for the samples the
/// registry reported.
pub fn metrics_response(samples: &Vec<MetricSample>) -> (r: HttpResponse)
    ensures
        r.status == 200,
        r.body@ == spec_metrics_document(spec_samples_view(samples@)),
{
    HttpResponse { status: 200, body: render_metrics(samples) }
}

/// The profile dump response: the raw dump with the mapped-libraries
/// section appended.
pub fn heap_profile_response(handle: &ProfilerHandle, dump: &str, mapped_libraries: &str) -> (r:
    HttpResponse)
    ensures
        r.status == 200,
        r.body@ == ProfilerHandle::spec_heap_profile(dump@, mapped_libraries@),
{
    HttpResponse { status: 200, body: handle.heap_profile(dump, mapped_libraries) }
}

/// The allocation statistics response.
pub fn heap_stats_response(handle: &ProfilerHandle, allocated: u64, active: u64, resident: u64) -> (r:
    HttpResponse)
    ensures
        r.status == 200,
        r.body@ == ProfilerHandle::spec_heap_stats(allocated as nat, active as nat, resident as nat),
{
    HttpResponse { status: 200, body: handle.heap_stats(allocated, active, resident) }
}

/// The response for a path and method no route serves.
pub fn not_found_response() -> (r: HttpResponse)
    ensures
        r.status == 404,
        r.body@ == Seq::<char>::empty(),
{
    let r = HttpResponse { status: 404, body: String::new() };
    proof {
        assert(r.body@ =~= Seq::<char>::empty());
    }
    r
}

/// The response a failed caller handler is translated into: the server
/// answers with a server error instead of crashing the process.
pub fn handler_error_response() -> (r: HttpResponse)
    ensures
        r.status == 500,
        r.body@ == Seq::<char>::empty(),
{
    let r = HttpResponse { status: 500, body: String::new() };
    proof {
        assert(r.body@ =~= Seq::<char>::empty());
    }
    r
}

} // verus!
