use telemetry::metrics::MetricSample;
use telemetry::profiler::{MemoryProfiler, NativeInitOutcome};
use telemetry::server::{
    heap_profile_response, heap_stats_response, health_response, init_with_server,
    metrics_response, Method, RouteTarget, ServerTask, ServiceInfo, TelemetryServerRoute,
};
use telemetry::settings::{
    LoggingSettings, MemoryProfilerSettings, SocketAddress, TelemetryServerSettings,
    TelemetrySettings,
};

#[test]
fn telemetry_server() {
    let server_addr = SocketAddress {
        a: 127,
        b: 0,
        c: 0,
        d: 1,
        port: 1337,
    };

    let settings = TelemetrySettings {
        logging: LoggingSettings::default(),
        server: TelemetryServerSettings {
            enabled: true,
            addr: server_addr,
        },
        memory_profiler: MemoryProfilerSettings { enabled: true },
    };

    let mut profiler = MemoryProfiler::new();
    let info = ServiceInfo {
        name: "proxy".to_string(),
        version: "1.0.0".to_string(),
    };
    let routes = vec![TelemetryServerRoute {
        path: "/custom-route".to_string(),
        methods: vec![Method::Get],
    }];
    // The caller keeps its handlers; dispatch hands back the route index.
    let handlers = ["Hello"];

    let task = init_with_server(
        &info,
        &settings,
        &routes,
        &mut profiler,
        NativeInitOutcome::Activated,
    )
    .unwrap();

    let (addr, table) = match task {
        ServerTask::Serve(_, addr, table) => (addr, table),
        ServerTask::Noop => panic!("an enabled server must serve"),
    };
    assert_eq!(addr.render(), "127.0.0.1:1337");

    assert_eq!(
        table.dispatch(Method::Get, "/health"),
        Some(RouteTarget::Health)
    );
    assert_eq!(health_response().status, 200);

    let custom = table.dispatch(Method::Get, "/custom-route").unwrap();
    let body = match custom {
        RouteTarget::Caller(i) => handlers[i],
        other => panic!("unexpected target {other:?}"),
    };
    assert_eq!(body, "Hello");

    let samples = vec![MetricSample {
        name: "requests_total".to_string(),
        help: "Requests served.".to_string(),
        value: 0,
    }];
    assert_eq!(
        table.dispatch(Method::Get, "/metrics"),
        Some(RouteTarget::Metrics)
    );
    let metrics_res = metrics_response(&samples);
    assert_eq!(metrics_res.status, 200);
    assert!(metrics_res.body.contains("# HELP"));
    assert!(metrics_res.body.ends_with("# EOF\n"));

    assert_eq!(
        table.dispatch(Method::Get, "/pprof/heap"),
        Some(RouteTarget::PprofHeap)
    );
    let handle = profiler
        .get_or_init_with(&settings.memory_profiler, NativeInitOutcome::Activated)
        .unwrap()
        .unwrap();
    let heap = heap_profile_response(&handle, "heap profile: 1: 1 [1: 1]", "00400000 r-xp");
    assert_eq!(heap.status, 200);
    assert!(heap.body.contains("MAPPED_LIBRARIES"));

    assert_eq!(
        table.dispatch(Method::Get, "/pprof/heap_stats"),
        Some(RouteTarget::PprofHeapStats)
    );
    let stats = heap_stats_response(&handle, 4096, 2048, 8192);
    assert_eq!(stats.status, 200);
    assert!(stats.body.contains("Allocated"));
}

#[test]
fn disabled_server_yields_the_noop_task() {
    let settings = TelemetrySettings {
        logging: LoggingSettings::default(),
        server: TelemetryServerSettings {
            enabled: false,
            addr: SocketAddress {
                a: 127,
                b: 0,
                c: 0,
                d: 1,
                port: 1337,
            },
        },
        memory_profiler: MemoryProfilerSettings { enabled: false },
    };
    let mut profiler = MemoryProfiler::new();
    let info = ServiceInfo {
        name: "proxy".to_string(),
        version: "1.0.0".to_string(),
    };
    let task = init_with_server(
        &info,
        &settings,
        &Vec::new(),
        &mut profiler,
        NativeInitOutcome::Unsupported,
    )
    .unwrap();
    // No address, no table: nothing for the runtime to bind, every route
    // unreachable.
    assert!(task.is_noop());
}
