use waveplus_gateway::clock::Timestamp;
use waveplus_gateway::rgbled::RGB8;
use waveplus_gateway::state::ExecutionMode;
use waveplus_gateway::state::Status;
use waveplus_gateway::wifi_fix::INITIAL_RETRY_DELAY_MS;
use waveplus_gateway::wifi_fix::MAX_RETRY_DELAY_MS;
use waveplus_gateway::wifi_fix::next_retry_delay;

#[test]
fn status_projection_of_each_mode() {
    assert_eq!(Status::from(ExecutionMode::Initialize), Status::Initializing);
    assert_eq!(Status::from(ExecutionMode::Reinitialize), Status::Recovering);
    assert_eq!(Status::from(ExecutionMode::CollectMeasurement), Status::Collecting);
    assert_eq!(Status::from(ExecutionMode::SendMeasurement), Status::Sending);
    assert_eq!(Status::from(ExecutionMode::Wait), Status::Ready);
    assert_eq!(Status::from(ExecutionMode::WifiDisconnect), Status::Error);
    assert_eq!(Status::from(ExecutionMode::WifiReconnect), Status::Recovering);
}

#[test]
fn indicator_colour_of_each_status() {
    assert_eq!(RGB8::from(Status::Initializing), RGB8::new(10, 10, 0));
    assert_eq!(RGB8::from(Status::Ready), RGB8::new(0, 10, 0));
    assert_eq!(RGB8::from(Status::Collecting), RGB8::new(0, 0, 10));
    assert_eq!(RGB8::from(Status::Sending), RGB8::new(0, 10, 10));
    assert_eq!(RGB8::from(Status::Error), RGB8::new(10, 0, 0));
    assert_eq!(RGB8::from(Status::Recovering), RGB8::new(10, 0, 10));
}

#[test]
fn reconnect_backoff_doubles_and_caps() {
    assert_eq!(next_retry_delay(INITIAL_RETRY_DELAY_MS), 2_000);
    assert_eq!(next_retry_delay(2_000), 4_000);
    assert_eq!(next_retry_delay(4_000), 8_000);
    assert_eq!(next_retry_delay(5_000), 10_000);
    assert_eq!(next_retry_delay(8_000), MAX_RETRY_DELAY_MS);
    assert_eq!(next_retry_delay(MAX_RETRY_DELAY_MS), MAX_RETRY_DELAY_MS);
}

#[test]
fn timestamps_reject_out_of_range_fields() {
    assert!(Timestamp::new(2024, 3, 7, 10, 30, 0).is_some());
    assert!(Timestamp::new(2024, 0, 7, 10, 30, 0).is_none());
    assert!(Timestamp::new(2024, 13, 7, 10, 30, 0).is_none());
    assert!(Timestamp::new(2024, 3, 0, 10, 30, 0).is_none());
    assert!(Timestamp::new(2024, 3, 32, 10, 30, 0).is_none());
    assert!(Timestamp::new(2024, 3, 7, 24, 30, 0).is_none());
    assert!(Timestamp::new(2024, 3, 7, 10, 60, 0).is_none());
    assert!(Timestamp::new(2024, 3, 7, 10, 30, 60).is_none());
    assert!(Timestamp::new(10000, 3, 7, 10, 30, 0).is_none());
}
