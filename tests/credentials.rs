use posthog_capture::credentials::{default_endpoint_string, ApiOptions, AutoStep};
use posthog_capture::error::CaptureError;

#[test]
fn env_unset_is_missing() {
    assert_eq!(ApiOptions::from_env_value(None).unwrap_err(), CaptureError::MissingCredential);
}

#[test]
fn env_blank_is_invalid() {
    let r = ApiOptions::from_env_value(Some("   ".to_string()));
    assert_eq!(r.unwrap_err(), CaptureError::InvalidCredential);
    let r = ApiOptions::from_env_value(Some(String::new()));
    assert_eq!(r.unwrap_err(), CaptureError::InvalidCredential);
}

#[test]
fn unicode_whitespace_is_blank() {
    let r = ApiOptions::from_env_value(Some("\u{3000}\u{a0}\u{2028}\t".to_string()));
    assert_eq!(r.unwrap_err(), CaptureError::InvalidCredential);
    let o = ApiOptions::from_env_value(Some("\u{200b}".to_string())).unwrap();
    assert_eq!(o.key_str(), "\u{200b}");
}

#[test]
fn env_key_pairs_with_default_endpoint() {
    let o = ApiOptions::from_env_value(Some(" phc_key ".to_string())).unwrap();
    assert_eq!(o.endpoint_str(), "https://app.posthog.com/");
    assert_eq!(o.key_str(), " phc_key ");
    assert_eq!(default_endpoint_string(), "https://app.posthog.com/");
}

#[test]
fn secret_fetch_failure() {
    assert_eq!(ApiOptions::from_secret_bytes(None).unwrap_err(), CaptureError::SecretFetch);
}

#[test]
fn secret_not_utf8() {
    let r = ApiOptions::from_secret_bytes(Some(vec![0xff, 0xfe]));
    assert_eq!(r.unwrap_err(), CaptureError::SecretFetch);
}

#[test]
fn secret_blank_is_invalid() {
    let r = ApiOptions::from_secret_bytes(Some(b" \n\t".to_vec()));
    assert_eq!(r.unwrap_err(), CaptureError::InvalidCredential);
}

#[test]
fn secret_text_becomes_key() {
    let o = ApiOptions::from_secret_bytes(Some("s3cr\u{e9}t".as_bytes().to_vec())).unwrap();
    assert_eq!(o.key_str(), "s3cr\u{e9}t");
    assert_eq!(o.endpoint_str(), "https://app.posthog.com/");
}

#[test]
fn auto_unset_env_asks_secret_store() {
    assert!(matches!(ApiOptions::auto_step(None), AutoStep::FetchSecret));
}

#[test]
fn auto_blank_env_asks_secret_store() {
    assert!(matches!(ApiOptions::auto_step(Some("   ".to_string())), AutoStep::FetchSecret));
}

#[test]
fn auto_usable_env_wins() {
    match ApiOptions::auto_step(Some("env_key".to_string())) {
        AutoStep::Resolved(o) => assert_eq!(o.key_str(), "env_key"),
        AutoStep::FetchSecret => panic!("environment key was usable"),
    }
}

#[test]
fn explicit_options_are_kept() {
    let o = ApiOptions::new("http://localhost:8000/".to_string(), "k".to_string());
    assert_eq!(o.endpoint_str(), "http://localhost:8000/");
    assert_eq!(o.key_str(), "k");
}
