use vstd::prelude::*;
use vstd::string::*;
use vstd::utf8::{decode_utf8, valid_utf8};
use crate::error::CaptureError;

verus! {

/// The characters with the Unicode property White_Space.
pub open spec fn is_white_space(c: char) -> bool {
    let u = c as u32;
    (0x9 <= u && u <= 0xd) || u == 0x20 || u == 0x85 || u == 0xa0 || u == 0x1680 || (0x2000 <= u
        && u <= 0x200a) || u == 0x2028 || u == 0x2029 || u == 0x202f || u == 0x205f || u == 0x3000
}

/// `s` without its leading whitespace.
pub open spec fn trim_start_of(s: Seq<char>) -> Seq<char>
    decreases s.len(),
{
    if s.len() > 0 && is_white_space(s[0]) {
        trim_start_of(s.drop_first())
    } else {
        s
    }
}

/// `s` without its trailing whitespace.
pub open spec fn trim_end_of(s: Seq<char>) -> Seq<char>
    decreases s.len(),
{
    if s.len() > 0 && is_white_space(s.last()) {
        trim_end_of(s.drop_last())
    } else {
        s
    }
}

/// `s` without leading and trailing whitespace.
pub open spec fn trim_of(s: Seq<char>) -> Seq<char> {
    trim_end_of(trim_start_of(s))
}

/// Relies on str::trim: the text without leading and trailing characters of the
/// Unicode White_Space property.
#[verifier::external_body]
fn trimmed(s: &str) -> (r: &str)
    ensures
        r@ == trim_of(s@),
{
    s.trim()
}

/// Relies on String::from_utf8: the text the bytes encode, or `None` where they
/// are not valid UTF-8.
#[verifier::external_body]
fn utf8_text(bytes: Vec<u8>) -> (r: Option<String>)
    ensures
        r is Some <==> valid_utf8(bytes@),
        r is Some ==> r->Some_0@ == decode_utf8(bytes@),
{
    String::from_utf8(bytes).ok()
}

/// The base URL of the ingestion service used unless another is given.
pub open spec fn default_endpoint() -> Seq<char> {
    "https://app.posthog.com/"@
}

/// The base URL of the ingestion service used unless another is given.
pub fn default_endpoint_string() -> (r: String)
    ensures
        r@ == default_endpoint(),
{
    String::from_str("https://app.posthog.com/")
}

/// A key is usable when something is left of it after trimming whitespace.
pub open spec fn usable_key(k: Seq<char>) -> bool {
    trim_of(k).len() > 0
}

/// The credentials, as endpoint and key, that a key from some source gives.
pub open spec fn key_resolution(k: Seq<char>) -> Result<(Seq<char>, Seq<char>), CaptureError> {
    if usable_key(k) {
        Ok((default_endpoint(), k))
    } else {
        Err(CaptureError::InvalidCredential)
    }
}

/// What the environment variable's value (`None` when unset) resolves to.
pub open spec fn env_resolution(value: Option<Seq<char>>) -> Result<
    (Seq<char>, Seq<char>),
    CaptureError,
> {
    match value {
        None => Err(CaptureError::MissingCredential),
        Some(k) => key_resolution(k),
    }
}

/// What the secret store's answer (`None` when the fetch failed) resolves to.
pub open spec fn secret_resolution(fetched: Option<Seq<u8>>) -> Result<
    (Seq<char>, Seq<char>),
    CaptureError,
> {
    match fetched {
        None => Err(CaptureError::SecretFetch),
        Some(b) => if valid_utf8(b) {
            key_resolution(decode_utf8(b))
        } else {
            Err(CaptureError::SecretFetch)
        },
    }
}

/// The ordered fallback: the environment wins when usable; otherwise the secret
/// store's outcome, success or error, is the result.
pub open spec fn auto_resolution(value: Option<Seq<char>>, fetched: Option<Seq<u8>>) -> Result<
    (Seq<char>, Seq<char>),
    CaptureError,
> {
    match env_resolution(value) {
        Ok(o) => Ok(o),
        Err(_) => secret_resolution(fetched),
    }
}

/// The text of an optional string.
pub open spec fn opt_text(v: Option<String>) -> Option<Seq<char>> {
    match v {
        Some(s) => Some(s@),
        None => None,
    }
}

/// The bytes of an optional byte vector.
pub open spec fn opt_bytes(v: Option<Vec<u8>>) -> Option<Seq<u8>> {
    match v {
        Some(b) => Some(b@),
        None => None,
    }
}

/// The endpoint and API key of the ingestion service.
#[derive(Debug, Clone)]
pub struct ApiOptions {
    endpoint: String,
    key: String,
}

/// The endpoint and key of a resolved result.
pub open spec fn options_model(r: Result<ApiOptions, CaptureError>) -> Result<
    (Seq<char>, Seq<char>),
    CaptureError,
> {
    match r {
        Ok(o) => Ok((o.endpoint(), o.key())),
        Err(e) => Err(e),
    }
}

/// The next step of the ordered fallback after the environment was read.
#[derive(Debug)]
pub enum AutoStep {
    /// The environment gave usable credentials.
    Resolved(ApiOptions),
    /// The environment gave none: the secret store is to be asked.
    FetchSecret,
}

impl ApiOptions {
    /// The base URL of the ingestion service.
    pub closed spec fn endpoint(&self) -> Seq<char> {
        self.endpoint@
    }

    /// The API key.
    pub closed spec fn key(&self) -> Seq<char> {
        self.key@
    }

    pub fn new(endpoint: String, key: String) -> (r: ApiOptions)
        ensures
            r.endpoint() == endpoint@,
            r.key() == key@,
    {
        ApiOptions { endpoint, key }
    }

    pub fn endpoint_str(&self) -> (r: &str)
        ensures
            r@ == self.endpoint(),
    {
        self.endpoint.as_str()
    }

    pub fn key_str(&self) -> (r: &str)
        ensures
            r@ == self.key(),
    {
        self.key.as_str()
    }

    /// Credentials from a key of some source: the default endpoint with the key as
    /// given, or `InvalidCredential` where the key is blank.
    fn from_key(key: String) -> (r: Result<ApiOptions, CaptureError>)
        ensures
            options_model(r) == key_resolution(key@),
    {
        if trimmed(key.as_str()).is_empty() {
            Err(CaptureError::InvalidCredential)
        } else {
            Ok(ApiOptions::new(default_endpoint_string(), key))
        }
    }

    /// Credentials from the value of the API-key environment variable, `None`
    /// when it is unset: `MissingCredential` then, `InvalidCredential` for a blank
    /// value, else the default endpoint with the value as key.
    pub fn from_env_value(value: Option<String>) -> (r: Result<ApiOptions, CaptureError>)
        ensures
            options_model(r) == env_resolution(opt_text(value)),
    {
        match value {
            None => Err(CaptureError::MissingCredential),
            Some(key) => ApiOptions::from_key(key),
        }
    }

    /// Credentials from the secret store's answer, `None` when the fetch failed:
    /// `SecretFetch` then or where the bytes are not UTF-8, `InvalidCredential` for
    /// blank text, else the default endpoint with the text as key.
    pub fn from_secret_bytes(fetched: Option<Vec<u8>>) -> (r: Result<ApiOptions, CaptureError>)
        ensures
            options_model(r) == secret_resolution(opt_bytes(fetched)),
    {
        match fetched {
            None => Err(CaptureError::SecretFetch),
            Some(bytes) => match utf8_text(bytes) {
                None => Err(CaptureError::SecretFetch),
                Some(key) => ApiOptions::from_key(key),
            },
        }
    }

    /// First step of the ordered fallback: usable credentials from the environment
    /// variable's value, or else the word to ask the secret store, whose answer
    /// `from_secret_bytes` then turns into the result.
    pub fn auto_step(value: Option<String>) -> (r: AutoStep)
        ensures
            match r {
                AutoStep::Resolved(o) => env_resolution(opt_text(value)) == Ok::<
                    (Seq<char>, Seq<char>),
                    CaptureError,
                >((o.endpoint(), o.key())),
                AutoStep::FetchSecret => env_resolution(opt_text(value)) is Err,
            },
            match r {
                AutoStep::Resolved(o) => forall|fetched: Option<Seq<u8>>|
                    #[trigger] auto_resolution(opt_text(value), fetched) == Ok::<
                        (Seq<char>, Seq<char>),
                        CaptureError,
                    >((o.endpoint(), o.key())),
                AutoStep::FetchSecret => forall|fetched: Option<Seq<u8>>|
                    #[trigger] auto_resolution(opt_text(value), fetched) == secret_resolution(
                        fetched,
                    ),
            },
    {
        match ApiOptions::from_env_value(value) {
            Ok(o) => AutoStep::Resolved(o),
            Err(_) => AutoStep::FetchSecret,
        }
    }
}

/// Law: with the environment variable unset, the fallback's result is the secret
/// store's outcome, success or failure; the missing variable's error never shows.
pub proof fn lemma_unset_env_falls_back(fetched: Option<Seq<u8>>)
    ensures
        env_resolution(None) is Err,
        auto_resolution(None, fetched) == secret_resolution(fetched),
{
}

/// Law: a whitespace-only value of the environment variable is treated as unset.
pub proof fn lemma_blank_env_is_unset(value: Seq<char>, fetched: Option<Seq<u8>>)
    requires
        trim_of(value).len() == 0,
    ensures
        env_resolution(Some(value)) is Err,
        auto_resolution(Some(value), fetched) == auto_resolution(None, fetched),
{
}

} // verus!
