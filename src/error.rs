use vstd::prelude::*;

verus! {

/// Failures of the signing pipeline, surfaced unchanged to the caller.
#[derive(Debug, Clone, Copy, PartialEq, Eq, Structural)]
pub enum Error {
    /// No source yielded an access key and a secret key.
    CredentialsUnavailable,
    /// No explicit region and no region in the profile configuration.
    RegionUnavailable,
    /// A signing parameter (region, service, keys, time) is missing or malformed.
    BuildParamsError,
    /// The signer could not canonicalize or sign the request.
    SignRequestError,
    /// The method, URI or a header name cannot form an HTTP request.
    BuildRequestError,
    /// The transport failed to send the request.
    SendRequestError,
    /// The response body could not be read.
    ReadResponseError,
}

impl Error {
    /// A short description of the failure.
    pub fn message(&self) -> (r: &'static str)
        ensures
            r@ == match *self {
                Error::CredentialsUnavailable => "failed to provide credentials"@,
                Error::RegionUnavailable => "missing region in profile config file"@,
                Error::BuildParamsError => "failed to build signing parameters"@,
                Error::SignRequestError => "failed to sign request"@,
                Error::BuildRequestError => "failed to build http request"@,
                Error::SendRequestError => "failed to send http request"@,
                Error::ReadResponseError => "failed to read http response"@,
            },
    {
        match self {
            Error::CredentialsUnavailable => "failed to provide credentials",
            Error::RegionUnavailable => "missing region in profile config file",
            Error::BuildParamsError => "failed to build signing parameters",
            Error::SignRequestError => "failed to sign request",
            Error::BuildRequestError => "failed to build http request",
            Error::SendRequestError => "failed to send http request",
            Error::ReadResponseError => "failed to read http response",
        }
    }
}

} // verus!
