use vstd::prelude::*;

verus! {

/// An access key pair, with an optional session token and expiry
/// (seconds since the Unix epoch). The signer never inspects the expiry.
#[derive(Debug, Clone)]
pub struct Credentials {
    pub access_key_id: String,
    pub secret_access_key: String,
    pub session_token: Option<String>,
    pub expiry: Option<u64>,
}

/// The characters of an optional string.
pub open spec fn opt_view(s: Option<String>) -> Option<Seq<char>> {
    match s {
        Some(t) => Some(t@),
        None => None,
    }
}

impl Credentials {
    pub fn new(
        access_key_id: &str,
        secret_access_key: &str,
        session_token: Option<String>,
        expiry: Option<u64>,
    ) -> (r: Credentials)
        ensures
            r.access_key_id@ == access_key_id@,
            r.secret_access_key@ == secret_access_key@,
            r.session_token == session_token,
            r.expiry == expiry,
    {
        Credentials {
            access_key_id: access_key_id.to_string(),
            secret_access_key: secret_access_key.to_string(),
            session_token,
            expiry,
        }
    }

    /// A usable tuple has both an access key and a secret key.
    pub open spec fn complete(&self) -> bool {
        self.access_key_id@.len() > 0 && self.secret_access_key@.len() > 0
    }

    /// Whether both keys are present.
    pub fn is_complete(&self) -> (r: bool)
        ensures
            r == self.complete(),
    {
        self.access_key_id.unicode_len() > 0 && self.secret_access_key.unicode_len() > 0
    }
}

} // verus!
