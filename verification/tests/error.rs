use zksync_telemetry::{TelemetryError, TelemetryResult};

#[test]
fn messages_name_the_kind_and_the_detail() {
    let cases = vec![
        (
            TelemetryError::InitializationError("a".to_string()),
            "Failed to initialize telemetry: a",
        ),
        (TelemetryError::ConfigError("b".to_string()), "Configuration error: b"),
        (TelemetryError::SendError("c".to_string()), "Failed to send telemetry data: c"),
        (TelemetryError::PostHogError("d".to_string()), "PostHog client error: d"),
        (TelemetryError::SentryError("e".to_string()), "Sentry client error: e"),
        (TelemetryError::InvalidPath("f".to_string()), "Invalid configuration path: f"),
        (TelemetryError::EnvironmentError("g".to_string()), "Environment error: g"),
        (TelemetryError::PermissionError("h".to_string()), "Permission denied: h"),
        (TelemetryError::ConfigError(String::new()), "Configuration error: "),
    ];
    for (error, expected) in cases {
        assert_eq!(error.message(), expected);
    }
}

#[test]
fn io_errors_are_taken_in() {
    let source = std::io::Error::new(std::io::ErrorKind::Other, "disk on fire");
    let error = TelemetryError::from(source);
    assert!(matches!(error, TelemetryError::IoError(_)));
    assert_eq!(error.message(), "I/O error: disk on fire");
}

#[test]
fn serialization_errors_are_taken_in() {
    let source = serde_json::from_str::<serde_json::Value>("{").unwrap_err();
    let description = source.to_string();
    let error: TelemetryError = source.into();
    assert!(matches!(error, TelemetryError::SerializationError(_)));
    assert_eq!(error.message(), format!("Serialization error: {}", description));
}

#[test]
fn results_carry_the_error() {
    let failed: TelemetryResult<u8> = Err(TelemetryError::SendError("x".to_string()));
    assert!(matches!(failed, Err(TelemetryError::SendError(_))));
    let fine: TelemetryResult<u8> = Ok(1);
    assert_eq!(fine.unwrap(), 1);
}
