use telemetry::level::{Level, ValidationError};
use telemetry::settings::{LogFormat, LogOutput, LogVerbosity, LoggingSettings};

const LEVEL_NAMES: [&str; 6] = ["critical", "error", "warning", "info", "debug", "trace"];

#[test]
fn serialize_after_deserialize_is_identity_for_every_level_name() {
    for name in LEVEL_NAMES {
        let level = Level::parse(name).unwrap();
        assert_eq!(level.as_str(), name);
        let verbosity = LogVerbosity::deserialize(name).unwrap();
        assert_eq!(verbosity.serialize(), name);
    }
}

#[test]
fn deserialize_after_serialize_is_identity_for_every_level() {
    let levels = [
        Level::Critical,
        Level::Error,
        Level::Warning,
        Level::Info,
        Level::Debug,
        Level::Trace,
    ];
    for level in levels {
        assert_eq!(Level::parse(level.as_str()).unwrap(), level);
    }
}

#[test]
fn unrecognized_level_names_fail_with_validation_error() {
    for bad in ["", "warn", "WARNING", "Critical", "critical ", "verbose", "CRIT"] {
        let res = Level::parse(bad);
        assert_eq!(res, Err(ValidationError::UnrecognizedLevel));
        assert!(LogVerbosity::deserialize(bad).is_err());
    }
    assert_eq!(
        ValidationError::UnrecognizedLevel.message(),
        "incorrect verbosity level"
    );
}

#[test]
fn levels_are_totally_ordered_critical_first() {
    assert!(Level::Critical.le(Level::Error));
    assert!(Level::Error.le(Level::Warning));
    assert!(Level::Warning.le(Level::Info));
    assert!(Level::Info.le(Level::Debug));
    assert!(Level::Debug.le(Level::Trace));
    assert!(!Level::Trace.le(Level::Debug));
    assert!(Level::Warning.le(Level::Warning));
}

#[test]
fn default_verbosity_enables_warnings_and_above() {
    let verbosity = LogVerbosity::default();
    assert_eq!(verbosity.level(), Level::Warning);
    assert!(verbosity.enables(Level::Critical));
    assert!(verbosity.enables(Level::Error));
    assert!(verbosity.enables(Level::Warning));
    assert!(!verbosity.enables(Level::Info));
    assert!(!verbosity.enables(Level::Trace));
}

#[test]
fn logging_settings_defaults() {
    let settings = LoggingSettings::default();
    match settings.output {
        LogOutput::File(path) => assert_eq!(path, "./proxy.log"),
        LogOutput::Terminal => panic!("default output must be a file"),
    }
    assert_eq!(settings.format, LogFormat::Text);
    assert_eq!(settings.verbosity, LogVerbosity::default());
    assert!(settings.redact_keys.is_empty());
}
