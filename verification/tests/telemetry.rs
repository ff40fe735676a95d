use tempfile::TempDir;
use zksync_telemetry::config::{SaveOutcome, Timestamp};
use zksync_telemetry::flow::{ConsentFlow, FlowAction, FlowEvent, StoredConfig};
use zksync_telemetry::utils::Environment;
use zksync_telemetry::telemetry::{TrackedEvent, APP_KEY, PLATFORM_KEY, VERSION, VERSION_KEY};
use zksync_telemetry::{Telemetry, TelemetryConfig, TelemetryError};

fn setup() -> (TempDir, String) {
    let temp_dir = TempDir::new().unwrap();
    let config_path = temp_dir.path().join("telemetry.json");
    (temp_dir, config_path.to_str().unwrap().to_string())
}

/// The record that a process without an operator gets at a path where the store
/// holds none.
fn default_config(config_path: String) -> TelemetryConfig {
    let batch =
        Environment { stdin_is_terminal: false, stdout_is_terminal: false, variables: Vec::new() };
    let (mut flow, mut action) = ConsentFlow::start("test-app", Some(config_path), &batch);
    loop {
        let event = match action {
            FlowAction::Load(_) => FlowEvent::Stored(StoredConfig::Missing),
            FlowAction::Ask(_) => FlowEvent::Answer(Some("yes".to_string())),
            FlowAction::Save(_) => FlowEvent::Saved(SaveOutcome::Written),
            FlowAction::Finish(result) => return result.unwrap(),
        };
        action = flow.advance(event);
    }
}

fn consenting() -> TelemetryConfig {
    TelemetryConfig {
        enabled: true,
        instance_id: "3f2b8c1e-7a4d-4e9b-9c0a-5d6e7f8091a2".to_string(),
        created_at: Timestamp { seconds: 1_700_000_000, nanoseconds: 0 },
        config_path: None,
    }
}

fn pair(name: &str, value: &str) -> (String, String) {
    (name.to_string(), value.to_string())
}

#[test]
fn test_telemetry_disabled_by_default_in_tests() {
    let (_, config_path) = setup();

    let telemetry = Telemetry::new(
        "test-app",
        Some("fake-key".to_string()),
        Some("fake-dsn".to_string()),
        default_config(config_path),
        "linux",
    );

    assert!(!telemetry.config.enabled);
}

#[test]
fn test_track_event_when_disabled() {
    let (_, config_path) = setup();

    let telemetry = Telemetry::new("test-app", None, None, default_config(config_path), "linux");

    let mut properties = Vec::new();
    properties.push(("test".to_string(), serde_json::Value::String("value".to_string())));

    assert!(telemetry.track_event("test_event", properties).is_ok());
}

#[test]
fn test_sentry_error_capture() {
    let (_, config_path) = setup();

    let telemetry = Telemetry::new(
        "test-app",
        None,
        Some("https://public@example.com/1".to_string()),
        default_config(config_path),
        "linux",
    );

    let mut events = Vec::new();
    let error = std::io::Error::new(std::io::ErrorKind::Other, "test error");
    if telemetry.track_error() {
        events.push(error.to_string());
    }

    // No events should be captured because telemetry is disabled by default in tests
    assert_eq!(events.len(), 0);
}

#[test]
fn without_consent_no_client_is_to_be_made() {
    let (_, config_path) = setup();
    let telemetry = Telemetry::new(
        "test-app",
        Some("phc_abc123".to_string()),
        Some("https://x@sentry.io/1".to_string()),
        default_config(config_path),
        "linux",
    );
    assert!(telemetry.posthog.is_none());
    assert!(telemetry.sentry.is_none());
    assert!(!telemetry.track_error());
    assert!(telemetry.plan_event("started", Vec::new()).is_none());
    assert!(matches!(telemetry.track_event("started", Vec::new()), Ok(None)));
    assert!(matches!(
        telemetry.track_event("started", vec![("n".to_string(), serde_json::Value::from(1))]),
        Ok(None)
    ));
}

#[test]
fn with_consent_clients_follow_the_credentials() {
    let both = Telemetry::new(
        "test-app",
        Some("phc_abc123".to_string()),
        Some("https://x@sentry.io/1".to_string()),
        consenting(),
        "macos",
    );
    assert_eq!(both.config, consenting());
    assert_eq!(both.platform, "macos");
    assert_eq!(both.posthog.as_deref(), Some("phc_abc123"));
    let setup = both.sentry.as_ref().unwrap();
    assert_eq!(setup.dsn, "https://x@sentry.io/1");
    assert_eq!(setup.release, "0.1.0");
    assert_eq!(
        setup.tags,
        vec![pair("app", "test-app"), pair("version", "0.1.0"), pair("platform", "macos")]
    );
    assert!(both.track_error());

    let neither = Telemetry::new("test-app", None, None, consenting(), "macos");
    assert!(neither.posthog.is_none());
    assert!(neither.sentry.is_none());
    assert!(!neither.track_error());
    assert!(matches!(neither.track_event("started", Vec::new()), Ok(None)));

    let events_only =
        Telemetry::new("test-app", Some("phc_abc123".to_string()), None, consenting(), "macos");
    assert!(!events_only.track_error());
    assert!(matches!(events_only.track_event("started", Vec::new()), Ok(Some(_))));

    let errors_only = Telemetry::new(
        "test-app",
        None,
        Some("https://x@sentry.io/1".to_string()),
        consenting(),
        "macos",
    );
    assert!(errors_only.track_error());
    assert!(matches!(errors_only.track_event("started", Vec::new()), Ok(None)));
}

#[test]
fn planned_event_carries_the_identifier_and_both_kinds_of_properties() {
    let telemetry =
        Telemetry::new("test-app", Some("phc_abc123".to_string()), None, consenting(), "linux");
    let properties = vec![
        ("test".to_string(), serde_json::Value::String("value".to_string())),
        ("platform".to_string(), serde_json::Value::Null),
        ("count".to_string(), serde_json::Value::from(3)),
    ];
    let event = telemetry.plan_event("test_event", properties.clone()).unwrap();
    assert_eq!(event.name, "test_event");
    assert_eq!(event.distinct_id, "3f2b8c1e-7a4d-4e9b-9c0a-5d6e7f8091a2");
    let mut expected = properties;
    expected.push(("platform".to_string(), serde_json::Value::String("linux".to_string())));
    expected.push(("version".to_string(), serde_json::Value::String("0.1.0".to_string())));
    assert_eq!(event.properties, expected);

    let bare = telemetry.plan_event("", Vec::new()).unwrap();
    assert_eq!(bare.name, "");
    assert_eq!(bare.properties.len(), 2);
    assert_eq!(bare.properties[0].0, "platform");
    assert_eq!(bare.properties[1].0, "version");
}

#[test]
fn outgoing_event_holds_the_merged_properties() {
    let telemetry =
        Telemetry::new("test-app", Some("phc_abc123".to_string()), None, consenting(), "linux");
    let properties = vec![
        ("test".to_string(), serde_json::Value::String("value".to_string())),
        ("platform".to_string(), serde_json::Value::Null),
        ("count".to_string(), serde_json::Value::from(3)),
        ("test".to_string(), serde_json::Value::Bool(true)),
        ("nested".to_string(), serde_json::Value::Array(vec![serde_json::Value::from(-7)])),
    ];
    let event = telemetry.track_event("test_event", properties).unwrap().unwrap();
    assert_eq!(event.event_name(), "test_event");
    assert_eq!(event.distinct_id(), "3f2b8c1e-7a4d-4e9b-9c0a-5d6e7f8091a2");
    let sent = event.properties();
    assert_eq!(sent.len(), 5);
    assert_eq!(sent["platform"], serde_json::Value::String("linux".to_string()));
    assert_eq!(sent["version"], serde_json::Value::String("0.1.0".to_string()));
    assert_eq!(sent["test"], serde_json::Value::Bool(true));
    assert_eq!(sent["count"], serde_json::Value::from(3));
    assert_eq!(sent["nested"], serde_json::Value::Array(vec![serde_json::Value::from(-7)]));
}

#[test]
fn built_event_is_the_planned_one() {
    let planned = TrackedEvent {
        name: "started".to_string(),
        distinct_id: "someone".to_string(),
        properties: vec![
            ("a".to_string(), serde_json::Value::from(1)),
            ("b".to_string(), serde_json::Value::String("two".to_string())),
            ("a".to_string(), serde_json::Value::String("one".to_string())),
        ],
    };
    let event = planned.build().unwrap();
    assert_eq!(event.event_name(), "started");
    assert_eq!(event.distinct_id(), "someone");
    assert_eq!(event.properties().len(), 2);
    assert_eq!(event.properties()["a"], serde_json::Value::String("one".to_string()));
    assert_eq!(event.properties()["b"], serde_json::Value::String("two".to_string()));

    let bare = TrackedEvent {
        name: String::new(),
        distinct_id: String::new(),
        properties: Vec::new(),
    };
    let event = bare.build().unwrap();
    assert_eq!(event.event_name(), "");
    assert_eq!(event.distinct_id(), "");
    assert!(event.properties().is_empty());
}

#[test]
fn refused_property_is_a_send_error() {
    let refusal = posthog_rs::Error::Serialization("key must be a string".to_string());
    let description = refusal.to_string();
    match TrackedEvent::rejected(&refusal) {
        TelemetryError::SendError(detail) => assert_eq!(detail, description),
        other => panic!("not a send error: {:?}", other),
    }
}

#[test]
fn names_and_version_are_fixed() {
    assert_eq!(VERSION, "0.1.0");
    assert_eq!(PLATFORM_KEY, "platform");
    assert_eq!(VERSION_KEY, "version");
    assert_eq!(APP_KEY, "app");
}

#[test]
fn failed_sending_is_a_send_error() {
    match Telemetry::event_result(Err("connection refused".to_string())) {
        Err(TelemetryError::SendError(detail)) => assert_eq!(detail, "connection refused"),
        other => panic!("not a send error: {:?}", other),
    }
    assert_eq!(
        Telemetry::event_result(Err("timeout".to_string())).unwrap_err().message(),
        "Failed to send telemetry data: timeout"
    );
    assert!(Telemetry::event_result(Ok(())).is_ok());
}
