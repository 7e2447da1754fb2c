use vstd::prelude::*;
use vstd::string::*;
use crate::credentials::ApiOptions;
use crate::error::CaptureError;
use crate::event::Event;
use crate::wire::{InnerEvent, wire_text_of};

verus! {

/// The timeout applied to each capture unless another is given, in milliseconds.
pub const DEFAULT_TIMEOUT_MS: u64 = 2000;

/// The path of the capture operation, relative to the endpoint.
pub open spec fn capture_path() -> Seq<char> {
    "capture/"@
}

/// An HTTP request ready to be sent.
#[derive(Debug, Clone)]
pub struct CaptureRequest {
    pub method: String,
    pub url: String,
    pub content_type: String,
    pub body: String,
}

/// How the HTTP exchange of one capture ended.
#[derive(Debug, Clone, Copy, PartialEq, Eq, Structural)]
pub enum SendOutcome {
    /// A response came back.
    Delivered,
    /// The exchange failed below the application layer.
    Failed,
    /// The timeout elapsed first.
    TimedOut,
}

/// The capture client: resolved credentials and the timeout bound on each request.
#[derive(Debug, Clone)]
pub struct Client {
    options: ApiOptions,
    timeout_ms: u64,
}

impl Client {
    /// The credentials, fixed at construction.
    pub closed spec fn options(&self) -> ApiOptions {
        self.options
    }

    /// The timeout of each capture, in milliseconds.
    pub closed spec fn timeout(&self) -> u64 {
        self.timeout_ms
    }

    /// A client with the default timeout.
    pub fn new(options: ApiOptions) -> (r: Client)
        ensures
            r.options() == options,
            r.timeout() == DEFAULT_TIMEOUT_MS,
    {
        Client { options, timeout_ms: DEFAULT_TIMEOUT_MS }
    }

    /// A client with the timeout `timeout_ms`, in milliseconds.
    pub fn new_with_timeout(options: ApiOptions, timeout_ms: u64) -> (r: Client)
        ensures
            r.options() == options,
            r.timeout() == timeout_ms,
    {
        Client { options, timeout_ms }
    }

    /// Replaces the timeout of later captures; the credentials stay.
    pub fn set_timeout(&mut self, timeout_ms: u64)
        ensures
            final(self).options() == old(self).options(),
            final(self).timeout() == timeout_ms,
    {
        self.timeout_ms = timeout_ms;
    }

    pub fn timeout_ms(&self) -> (r: u64)
        ensures
            r == self.timeout(),
    {
        self.timeout_ms
    }

    pub fn api_options(&self) -> (r: &ApiOptions)
        ensures
            *r == self.options(),
    {
        &self.options
    }

    /// The request that captures `event`: a POST of the JSON envelope under the
    /// client's key, to the endpoint followed by `capture/`.
    pub fn capture_request(&self, event: Event) -> (r: Result<CaptureRequest, CaptureError>)
        ensures
            ({
                let text = wire_text_of(
                    self.options().key(),
                    event.name(),
                    event.properties(),
                    event.timestamp(),
                );
                &&& r is Ok
                &&& r->Ok_0.method@ == "POST"@
                &&& r->Ok_0.url@ == self.options().endpoint() + capture_path()
                &&& r->Ok_0.content_type@ == "application/json"@
                &&& r->Ok_0.body@ == text
            }),
    {
        let key = String::from_str(self.options.key_str());
        let inner = InnerEvent::new(event, key);
        let body = inner.to_json()?;
        let url = String::from_str(self.options.endpoint_str()).concat("capture/");
        Ok(
            CaptureRequest {
                method: String::from_str("POST"),
                url,
                content_type: String::from_str("application/json"),
                body,
            },
        )
    }

    /// The result of one capture from how its exchange ended: the response body is
    /// not inspected.
    pub fn settle(outcome: SendOutcome) -> (r: Result<(), CaptureError>)
        ensures
            outcome == SendOutcome::Delivered ==> r is Ok,
            outcome == SendOutcome::Failed ==> r == Err::<(), CaptureError>(CaptureError::Transport),
            outcome == SendOutcome::TimedOut ==> r == Err::<(), CaptureError>(CaptureError::Timeout),
    {
        match outcome {
            SendOutcome::Delivered => Ok(()),
            SendOutcome::Failed => Err(CaptureError::Transport),
            SendOutcome::TimedOut => Err(CaptureError::Timeout),
        }
    }
}

} // verus!
