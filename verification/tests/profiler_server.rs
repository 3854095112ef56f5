use telemetry::metrics::{render_metrics, MetricSample};
use telemetry::profiler::{
    MemoryProfiler, NativeInitOutcome, ProfilerError,
};
use telemetry::server::{
    build_route_table, handler_error_response, health_response, not_found_response,
    Method, RouteTarget, TelemetryError, TelemetryServerRoute,
};
use telemetry::settings::MemoryProfilerSettings;

#[test]
fn disabled_profiler_always_yields_none_and_stays_unresolved() {
    let mut profiler = MemoryProfiler::new();
    let settings = MemoryProfilerSettings { enabled: false };
    for native in [
        NativeInitOutcome::Unsupported,
        NativeInitOutcome::Activated,
        NativeInitOutcome::Failed,
    ] {
        let res = profiler.get_or_init_with(&settings, native).unwrap();
        assert!(res.is_none());
    }
    // Still unresolved: a later enabled call may activate.
    let enabled = MemoryProfilerSettings { enabled: true };
    let res = profiler
        .get_or_init_with(&enabled, NativeInitOutcome::Activated)
        .unwrap();
    assert!(res.is_some());
}

#[test]
fn enabled_profiler_initializes_once_and_all_callers_agree() {
    let mut profiler = MemoryProfiler::new();
    let settings = MemoryProfilerSettings { enabled: true };
    let first = profiler
        .get_or_init_with(&settings, NativeInitOutcome::Activated)
        .unwrap();
    assert!(first.is_some());
    // Later calls observe the resolved outcome whatever they report.
    for native in [
        NativeInitOutcome::Unsupported,
        NativeInitOutcome::Activated,
        NativeInitOutcome::Failed,
    ] {
        let later = profiler.get_or_init_with(&settings, native).unwrap();
        assert_eq!(later.is_some(), first.is_some());
    }
}

#[test]
fn missing_capability_degrades_to_none_permanently() {
    let mut profiler = MemoryProfiler::new();
    let settings = MemoryProfilerSettings { enabled: true };
    let first = profiler
        .get_or_init_with(&settings, NativeInitOutcome::Unsupported)
        .unwrap();
    assert!(first.is_none());
    // Resolved to "no profiler": a later Activated report changes nothing.
    let later = profiler
        .get_or_init_with(&settings, NativeInitOutcome::Activated)
        .unwrap();
    assert!(later.is_none());
}

#[test]
fn failed_activation_is_an_error_and_leaves_the_singleton_retryable() {
    let mut profiler = MemoryProfiler::new();
    let settings = MemoryProfilerSettings { enabled: true };
    let err = profiler
        .get_or_init_with(&settings, NativeInitOutcome::Failed)
        .unwrap_err();
    assert_eq!(err, ProfilerError::InitializationFailed);
    assert_eq!(err.message(), "memory profiler initialization failed");
    let retry = profiler
        .get_or_init_with(&settings, NativeInitOutcome::Activated)
        .unwrap();
    assert!(retry.is_some());
}

fn route(path: &str, methods: Vec<Method>) -> TelemetryServerRoute {
    TelemetryServerRoute {
        path: path.to_string(),
        methods,
    }
}

#[test]
fn identical_path_with_overlapping_methods_fails_at_construction() {
    let extra = vec![
        route("/custom-route", vec![Method::Get, Method::Post]),
        route("/custom-route", vec![Method::Post]),
    ];
    let res = build_route_table(false, &extra);
    match res {
        Err(e) => assert_eq!(e, TelemetryError::RouteConflict),
        Ok(_) => panic!("conflicting routes must be rejected"),
    }
}

#[test]
fn identical_path_with_disjoint_methods_is_accepted() {
    let extra = vec![
        route("/custom-route", vec![Method::Get]),
        route("/custom-route", vec![Method::Post]),
    ];
    assert!(build_route_table(false, &extra).is_ok());
}

#[test]
fn caller_route_shadowing_a_builtin_fails_at_construction() {
    let extra = vec![route("/health", vec![Method::Get])];
    let res = build_route_table(false, &extra);
    assert_eq!(res.err(), Some(TelemetryError::RouteConflict));
}

#[test]
fn profiler_routes_are_absent_without_an_active_profiler() {
    let table = build_route_table(false, &Vec::new()).unwrap();
    assert_eq!(table.dispatch(Method::Get, "/pprof/heap"), None);
    assert_eq!(table.dispatch(Method::Get, "/pprof/heap_stats"), None);
    assert_eq!(not_found_response().status, 404);
}

#[test]
fn profiler_routes_are_present_with_an_active_profiler() {
    let table = build_route_table(true, &Vec::new()).unwrap();
    assert_eq!(
        table.dispatch(Method::Get, "/pprof/heap"),
        Some(RouteTarget::PprofHeap)
    );
    assert_eq!(
        table.dispatch(Method::Get, "/pprof/heap_stats"),
        Some(RouteTarget::PprofHeapStats)
    );
}

#[test]
fn dispatch_respects_method_lists() {
    let extra = vec![route("/custom-route", vec![Method::Post, Method::Put])];
    let table = build_route_table(false, &extra).unwrap();
    assert_eq!(
        table.dispatch(Method::Post, "/custom-route"),
        Some(RouteTarget::Caller(0))
    );
    assert_eq!(table.dispatch(Method::Get, "/custom-route"), None);
    assert_eq!(table.dispatch(Method::Get, "/nowhere"), None);
}

#[test]
fn metrics_document_has_exact_wire_format() {
    let samples = vec![MetricSample {
        name: "requests".to_string(),
        help: "total requests".to_string(),
        value: 3,
    }];
    assert_eq!(
        render_metrics(&samples),
        "# HELP requests total requests\n# TYPE requests counter\nrequests 3\n# EOF\n"
    );
}

#[test]
fn empty_metrics_document_is_just_the_sentinel() {
    assert_eq!(render_metrics(&Vec::new()), "# EOF\n");
}

#[test]
fn builtin_responses_carry_the_documented_statuses() {
    assert_eq!(health_response().status, 200);
    assert_eq!(health_response().body, "");
    assert_eq!(handler_error_response().status, 500);
    assert_eq!(
        TelemetryError::RouteConflict.message(),
        "conflicting routes: identical path and overlapping methods"
    );
}
