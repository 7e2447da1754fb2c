use vstd::prelude::*;

verus! {

/// Every way in which an operation of this library can fail.
#[derive(Debug, Clone, Copy, PartialEq, Eq, Structural)]
pub enum CaptureError {
    /// The environment variable that holds the API key is absent.
    MissingCredential,
    /// A credential was found but is empty or whitespace only.
    InvalidCredential,
    /// The secret store could not deliver the secret, or it was not UTF-8 text.
    SecretFetch,
    /// The HTTP exchange failed below the application layer.
    Transport,
    /// The configured timeout elapsed before the HTTP exchange completed.
    Timeout,
    /// The event could not be serialised.
    Encoding,
}

} // verus!
