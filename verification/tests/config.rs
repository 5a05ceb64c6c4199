use std::time::Duration;

use fccli::clock::{checked_deadline, is_within_millis, is_zero, DeadlineOverflow};
use fccli::error::ProviderError;
use fccli::model::{MonoInstant, ProviderCapabilities};
use fccli::provider::runtime::config::{
    physical_capacity, validate_runtime_contract, ConnectionRotation, LiveConfig,
    LiveSupervisorConfig, ReconciliationLimits, ReconciliationPolicy, WsConfig,
};

fn configuration<T>(detail: &'static str) -> Result<T, ProviderError> {
    Err(ProviderError::Configuration(detail))
}

#[test]
fn the_usual_configuration_is_valid() {
    let config = WsConfig::production();
    assert_eq!(config.validate(), Ok(config));
    assert_eq!(WsConfig::default(), config);
    assert_eq!(config.read_buffer_size, 131_072);
    assert_eq!(config.stalled_write_timeout, Duration::from_secs(5));
    assert_eq!(config.message_inactivity_timeout, Duration::from_secs(60));
    assert_eq!(config.probe_payload_size(), 65_536);
    assert_eq!(LiveSupervisorConfig::default().validate(), Ok(()));
}

#[test]
fn each_rule_on_a_socket_is_checked() {
    let usual = WsConfig::production();
    assert_eq!(
        WsConfig { read_buffer_size: 0, ..usual }.validate(),
        configuration("WebSocket byte limits must be within 1..=16 MiB")
    );
    assert_eq!(
        WsConfig { max_message_size: 16_777_217, ..usual }.validate(),
        configuration("WebSocket byte limits must be within 1..=16 MiB")
    );
    assert_eq!(
        WsConfig { max_frame_size: usual.max_message_size + 1, ..usual }.validate(),
        configuration("WebSocket frame limit must not exceed message limit")
    );
    assert_eq!(
        WsConfig { write_buffer_size: usual.max_write_buffer_size, ..usual }.validate(),
        configuration("WebSocket write buffer must be smaller than max write buffer")
    );
    assert_eq!(
        WsConfig { max_write_buffer_size: usual.write_buffer_size + 130, ..usual }.validate(),
        configuration("WebSocket max write buffer lacks automatic control-frame headroom")
    );
    assert!(WsConfig { max_write_buffer_size: usual.write_buffer_size + 131, ..usual }
        .validate()
        .is_ok());
    assert_eq!(
        WsConfig { stalled_write_timeout: Duration::from_secs(61), ..usual }.validate(),
        configuration("WebSocket stalled-write timeout must be within 1 ms..=60 s")
    );
    assert_eq!(
        WsConfig { message_inactivity_timeout: Duration::from_micros(999), ..usual }.validate(),
        configuration("WebSocket message-inactivity timeout must be within 1 ms..=120 s")
    );
}

#[test]
fn each_rule_on_a_supervisor_is_checked() {
    let usual = LiveSupervisorConfig::default();
    assert_eq!(
        LiveSupervisorConfig { control_capacity: 0, ..usual }.validate(),
        configuration("live supervisor capacity is outside 1..=65536")
    );
    assert_eq!(
        LiveSupervisorConfig { stalled_write_probe_frames: 65_537, ..usual }.validate(),
        configuration("live supervisor stalled-write probe is outside 0..=65536")
    );
    assert_eq!(
        LiveSupervisorConfig { first_kline_timeout: Duration::ZERO, ..usual }.validate(),
        configuration("live supervisor timeout is outside 1ms..=60s")
    );
    let socket = WsConfig { read_buffer_size: 0, ..usual.ws_config };
    assert_eq!(
        LiveSupervisorConfig { ws_config: socket, ..usual }.validate(),
        configuration("WebSocket byte limits must be within 1..=16 MiB")
    );
    assert_eq!(
        LiveSupervisorConfig { ws_config: socket, ..usual }.validate_limits(),
        Ok(())
    );
}

#[test]
fn the_terms_of_a_feed_are_checked_as_a_whole() {
    let supervisor = LiveSupervisorConfig::default();
    let offered = |limit: u16| ProviderCapabilities {
        markets: vec![],
        timeframes: vec![],
        history_page_limit: limit,
    };
    let unbounded = LiveConfig {
        supervisor: &supervisor,
        reconciliation: ReconciliationPolicy::Unbounded,
    };
    assert_eq!(
        validate_runtime_contract(&offered(500), unbounded, ConnectionRotation::Never),
        Ok(500)
    );
    assert_eq!(
        validate_runtime_contract(&offered(0), unbounded, ConnectionRotation::Never),
        configuration("provider history page limit must be non-zero")
    );
    assert_eq!(
        validate_runtime_contract(
            &offered(500),
            unbounded,
            ConnectionRotation::After { max_age: Duration::ZERO, detail: "old" }
        ),
        configuration("live connection max age must be positive")
    );
    let limits = |max_successors: usize, max_pages: usize| LiveConfig {
        supervisor: &supervisor,
        reconciliation: ReconciliationPolicy::Bounded(ReconciliationLimits {
            max_successors,
            max_pages,
            span_exceeded: "span",
            page_exceeded: "page",
            distinct_exceeded: "distinct",
        }),
    };
    for config in [limits(0, 1), limits(1, 0), limits(usize::MAX, 1)] {
        assert_eq!(
            validate_runtime_contract(&offered(500), config, ConnectionRotation::Never),
            configuration("live reconciliation limits must be positive and representable")
        );
    }
    assert_eq!(physical_capacity(256), Ok(258));
    assert_eq!(
        physical_capacity(usize::MAX),
        Err(ProviderError::Invariant("market event capacity overflow"))
    );
}

#[test]
fn deadlines_do_not_wrap() {
    let second = Duration::from_secs(1);
    assert_eq!(
        checked_deadline(MonoInstant(5), second),
        Ok(MonoInstant(1_000_000_005))
    );
    assert_eq!(
        checked_deadline(MonoInstant(u64::MAX), second),
        Err(DeadlineOverflow)
    );
    assert_eq!(
        checked_deadline(MonoInstant(0), Duration::MAX),
        Err(DeadlineOverflow)
    );
    assert!(is_zero(Duration::ZERO));
    assert!(!is_zero(Duration::from_nanos(1)));
    assert!(is_within_millis(Duration::from_millis(1), 1, 60_000));
    assert!(!is_within_millis(Duration::from_nanos(60_000_000_001), 1, 60_000));
    assert_eq!(MonoInstant(3).max_of(MonoInstant(2)), MonoInstant(3));
}
