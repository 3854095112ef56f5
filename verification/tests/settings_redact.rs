use telemetry::level::ValidationError;
use telemetry::redact::{redact_fields, redaction_placeholder, LogField};
use telemetry::settings::{
    LogFormat, LogOutput, LogVerbosity, LoggingSettings, SocketAddress,
};

fn keys(names: &[&str]) -> Vec<String> {
    names.iter().map(|n| n.to_string()).collect()
}

#[test]
fn duplicate_redact_keys_are_rejected_at_construction() {
    let res = LoggingSettings::new(
        LogOutput::Terminal,
        LogFormat::Json,
        LogVerbosity::default(),
        keys(&["password", "token", "password"]),
    );
    match res {
        Err(e) => {
            assert_eq!(e, ValidationError::DuplicateRedactKey);
            assert_eq!(e.message(), "duplicate redaction key");
        }
        Ok(_) => panic!("duplicate keys must be rejected"),
    }
}

#[test]
fn distinct_redact_keys_are_accepted() {
    let settings = LoggingSettings::new(
        LogOutput::Terminal,
        LogFormat::Text,
        LogVerbosity::default(),
        keys(&["password", "token"]),
    )
    .unwrap();
    assert_eq!(settings.redact_keys, vec!["password", "token"]);
}

fn record() -> Vec<LogField> {
    vec![
        LogField {
            key: "user".to_string(),
            value: "alice".to_string(),
        },
        LogField {
            key: "password".to_string(),
            value: "hunter2".to_string(),
        },
    ]
}

#[test]
fn redacted_field_never_keeps_its_original_value() {
    // The redaction contract is format-independent: the sink renders the
    // redacted record, so the check is the same for text and JSON output.
    for format in [LogFormat::Text, LogFormat::Json] {
        let settings = LoggingSettings::new(
            LogOutput::Terminal,
            format,
            LogVerbosity::default(),
            keys(&["password"]),
        )
        .unwrap();
        let out = redact_fields(&record(), &settings.redact_keys);
        assert_eq!(out.len(), 2);
        assert_eq!(out[0].key, "user");
        assert_eq!(out[0].value, "alice");
        assert_eq!(out[1].key, "password");
        assert_eq!(out[1].value, redaction_placeholder());
        assert_ne!(out[1].value, "hunter2");
    }
}

#[test]
fn redaction_placeholder_is_fixed() {
    assert_eq!(redaction_placeholder(), "[REDACTED]");
}

#[test]
fn socket_address_renders_as_ip_and_port() {
    let addr = SocketAddress {
        a: 127,
        b: 0,
        c: 0,
        d: 1,
        port: 1337,
    };
    assert_eq!(addr.render(), "127.0.0.1:1337");
    let max = SocketAddress {
        a: 255,
        b: 255,
        c: 255,
        d: 255,
        port: 65535,
    };
    assert_eq!(max.render(), "255.255.255.255:65535");
}

#[test]
fn decimal_rendering_is_exact() {
    assert_eq!(telemetry::strutil::u64_to_dec(0), "0");
    assert_eq!(telemetry::strutil::u64_to_dec(7), "7");
    assert_eq!(telemetry::strutil::u64_to_dec(10), "10");
    assert_eq!(telemetry::strutil::u64_to_dec(1337), "1337");
    assert_eq!(
        telemetry::strutil::u64_to_dec(u64::MAX),
        "18446744073709551615"
    );
}
