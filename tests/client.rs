use posthog_capture::batch::BatchRun;
use posthog_capture::client::{Client, SendOutcome, DEFAULT_TIMEOUT_MS};
use posthog_capture::credentials::ApiOptions;
use posthog_capture::error::CaptureError;
use posthog_capture::event::{Event, Timestamp};

fn options() -> ApiOptions {
    ApiOptions::new("https://example.test/".to_string(), "api_key".to_string())
}

#[test]
fn default_and_explicit_timeouts() {
    assert_eq!(Client::new(options()).timeout_ms(), 2000);
    assert_eq!(DEFAULT_TIMEOUT_MS, 2000);
    let mut c = Client::new_with_timeout(options(), 50);
    assert_eq!(c.timeout_ms(), 50);
    c.set_timeout(7);
    assert_eq!(c.timeout_ms(), 7);
    assert_eq!(c.api_options().key_str(), "api_key");
}

#[test]
fn capture_request_posts_envelope() {
    let c = Client::new(options());
    let mut event = Event::new("event".to_string(), "distinct_id".to_string());
    event.insert_prop("key".to_string(), "value".to_string());
    let req = c.capture_request(event).unwrap();
    assert_eq!(req.method, "POST");
    assert_eq!(req.url, "https://example.test/capture/");
    assert_eq!(req.content_type, "application/json");
    let body: serde_json::Value = serde_json::from_str(&req.body).unwrap();
    let expected: serde_json::Value = serde_json::from_str(
        "{\"api_key\":\"api_key\",\"event\":\"event\",\"properties\":{\"distinct_id\":\"distinct_id\",\"properties\":{\"key\":\"value\"}},\"timestamp\":null}",
    )
    .unwrap();
    assert_eq!(body, expected);
}

#[test]
fn capture_request_with_timestamp() {
    let c = Client::new(options());
    let mut event = Event::new("e".to_string(), "d".to_string());
    event.set_timestamp(Timestamp::new(86_400, 0).unwrap());
    let req = c.capture_request(event).unwrap();
    assert_eq!(
        req.body,
        "{\"api_key\":\"api_key\",\"event\":\"e\",\"properties\":{\"distinct_id\":\"d\",\"properties\":{}},\"timestamp\":\"1970-01-02T00:00:00\"}"
    );
}

#[test]
fn settle_maps_outcomes() {
    assert_eq!(Client::settle(SendOutcome::Delivered), Ok(()));
    assert_eq!(Client::settle(SendOutcome::Failed), Err(CaptureError::Transport));
    assert_eq!(Client::settle(SendOutcome::TimedOut), Err(CaptureError::Timeout));
}

fn run_batch(outcomes: &[Result<(), CaptureError>]) -> (usize, Result<(), CaptureError>) {
    let mut run = BatchRun::new(outcomes.len());
    let mut dispatched = 0usize;
    while let Some(i) = run.next_dispatch() {
        dispatched += 1;
        run.record(outcomes[i]);
    }
    (dispatched, run.finish())
}

#[test]
fn batch_stops_at_second_failure() {
    let (n, r) = run_batch(&[Ok(()), Err(CaptureError::Transport), Ok(())]);
    assert_eq!(n, 2);
    assert_eq!(r, Err(CaptureError::Transport));
}

#[test]
fn batch_all_delivered() {
    let (n, r) = run_batch(&[Ok(()), Ok(()), Ok(())]);
    assert_eq!(n, 3);
    assert_eq!(r, Ok(()));
}

#[test]
fn batch_first_fails() {
    let (n, r) = run_batch(&[Err(CaptureError::Timeout), Err(CaptureError::Transport)]);
    assert_eq!(n, 1);
    assert_eq!(r, Err(CaptureError::Timeout));
}

#[test]
fn empty_batch_sends_nothing() {
    let (n, r) = run_batch(&[]);
    assert_eq!(n, 0);
    assert_eq!(r, Ok(()));
}
