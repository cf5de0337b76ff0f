use vstd::prelude::*;

use crate::config::{initial, Resolution};
use crate::credentials::Credentials;
use crate::error::Error;
use crate::credentials::opt_view;
use crate::headers::{header_value, lemma_merge_disjoint, lemma_merge_lookup, pairs_view, same_name};
use crate::sigv4::{
    amz_date_time, lemma_layout_lookups, lemma_layout_names, parse_uri, request_view,
    sign_request, signed_layout, signing_outcome, uri_parse, RequestView, SigningAlgorithm,
    UnsignedRequest,
};

verus! {

/// The service name that OpenSearch requests are signed for.
pub const SERVICE: &'static str = "es";

/// An HTTP token character (RFC 9110), which a method is made of.
pub open spec fn token_char(c: char) -> bool {
    ('0' <= c <= '9') || ('A' <= c <= 'Z') || ('a' <= c <= 'z') || c == '!' || c == '#' || c == '$'
        || c == '%' || c == '&' || c == '\'' || c == '*' || c == '+' || c == '-' || c == '.' || c
        == '^' || c == '_' || c == '`' || c == '|' || c == '~'
}

/// A method is a non-empty token.
pub open spec fn valid_method(m: Seq<char>) -> bool {
    m.len() > 0 && forall|i: int| 0 <= i < m.len() ==> token_char(#[trigger] m[i])
}

/// Whether `method` is a non-empty token.
pub fn is_valid_method(method: &str) -> (r: bool)
    ensures
        r == valid_method(method@),
{
    let n = method.unicode_len();
    if n == 0 {
        return false;
    }
    let mut i: usize = 0;
    while i < n
        invariant
            n == method@.len(),
            i <= n,
            forall|j: int| 0 <= j < i ==> token_char(#[trigger] method@[j]),
        decreases n - i,
    {
        let c = method.get_char(i);
        let ok = ('0' <= c && c <= '9') || ('A' <= c && c <= 'Z') || ('a' <= c && c <= 'z') || c
            == '!' || c == '#' || c == '$' || c == '%' || c == '&' || c == '\'' || c == '*' || c
            == '+' || c == '-' || c == '.' || c == '^' || c == '_' || c == '`' || c == '|' || c
            == '~';
        if !ok {
            return false;
        }
        i += 1;
    }
    true
}

/// A request to an OpenSearch endpoint, signed before it is sent.
pub struct Client {
    pub uri: String,
    pub method: String,
    pub body: String,
    pub region: Option<String>,
    pub profile: Option<String>,
    pub home: Option<String>,
    pub algorithm: SigningAlgorithm,
}

/// The request before signing: the client's method, URI and body, with a
/// JSON content type.
pub open spec fn base_request(c: Client) -> RequestView {
    (c.method@, c.uri@, seq![("Content-Type"@, "application/json"@)], c.body@)
}

impl Client {
    /// A client that signs with SigV4a.
    pub fn new(
        uri: &str,
        method: &str,
        body: &str,
        region: Option<String>,
        profile: Option<String>,
        home: Option<String>,
    ) -> (r: Client)
        ensures
            r.uri@ == uri@,
            r.method@ == method@,
            r.body@ == body@,
            r.region == region,
            r.profile == profile,
            r.home == home,
            r.algorithm == SigningAlgorithm::SigV4a,
    {
        Client {
            uri: uri.to_string(),
            method: method.to_string(),
            body: body.to_string(),
            region,
            profile,
            home,
            algorithm: SigningAlgorithm::SigV4a,
        }
    }

    /// The same client, signing with `algorithm`.
    pub fn with_algorithm(self, algorithm: SigningAlgorithm) -> (r: Client)
        ensures
            r == (Client { algorithm, ..self }),
    {
        Client { algorithm, ..self }
    }

    /// Starts resolution: explicit credentials, and the client's region.
    pub fn resolution(&self, credentials: Option<Credentials>) -> (r: Resolution)
        ensures
            r == initial(credentials, self.region),
    {
        Resolution::new(credentials, self.region.clone())
    }

    /// The unsigned request: method, URI, body and a JSON content type.
    pub fn unsigned_request(&self) -> (r: UnsignedRequest)
        ensures
            request_view(r) == base_request(*self),
    {
        let mut headers: Vec<(String, String)> = Vec::new();
        headers.push(("Content-Type".to_string(), "application/json".to_string()));
        proof {
            assert(pairs_view(headers@) =~= seq![("Content-Type"@, "application/json"@)]);
        }
        UnsignedRequest {
            method: self.method.clone(),
            uri: self.uri.clone(),
            headers,
            body: self.body.clone(),
        }
    }

    /// Builds the request and signs it at Unix time `time` for `region` and
    /// the OpenSearch service. A method that is not a token, or a URI that is
    /// not absolute (scheme and authority), is refused before signing.
    pub fn signed_request(&self, credentials: &Credentials, region: &str, time: u64) -> (r: Result<
        UnsignedRequest,
        Error,
    >)
        ensures
            !valid_method(self.method@) || uri_parse(self.uri@) != Some((true, true)) ==> r == Err::<
                UnsignedRequest,
                Error,
            >(Error::BuildRequestError),
            valid_method(self.method@) && uri_parse(self.uri@) == Some((true, true)) ==> match signing_outcome(
                self.algorithm,
                time,
                region@,
                SERVICE@,
                *credentials,
                base_request(*self),
            ) {
                Ok(hs) => {
                    &&& r matches Ok(q) && request_view(q) == (
                        self.method@,
                        self.uri@,
                        base_request(*self).2 + hs,
                        self.body@,
                    )
                    &&& signed_layout(self.algorithm, hs, time, region@, SERVICE@,
                        credentials.access_key_id@, opt_view(credentials.session_token))
                },
                Err(e) => r == Err::<UnsignedRequest, Error>(e),
            },
            r matches Ok(q) ==> header_value(pairs_view(q.headers@), "x-amz-date"@) == Some(
                amz_date_time(time),
            ),
            r matches Ok(q) ==> header_value(pairs_view(q.headers@), "x-amz-security-token"@)
                == opt_view(credentials.session_token),
    {
        if !is_valid_method(self.method.as_str()) || parse_uri(self.uri.as_str()) != Some((true, true)) {
            return Err(Error::BuildRequestError);
        }
        let mut request = self.unsigned_request();
        let ghost base = pairs_view(request.headers@);
        match sign_request(self.algorithm, time, region, SERVICE, credentials, &mut request) {
            Ok(()) => {
                proof {
                    let token = opt_view(credentials.session_token);
                    let key = credentials.access_key_id@;
                    if let Ok(hs) = signing_outcome(
                        self.algorithm,
                        time,
                        region@,
                        SERVICE@,
                        *credentials,
                        base_request(*self),
                    ) {
                        lemma_layout_names(self.algorithm, hs, time, region@, SERVICE@, key, token);
                        lemma_layout_lookups(self.algorithm, hs, time, region@, SERVICE@, key, token);
                        lemma_merge_disjoint(base, hs);
                        lemma_merge_lookup(base, hs, "x-amz-security-token"@);
                        reveal_strlit("x-amz-security-token");
                        reveal_strlit("Content-Type");
                        assert(base.len() == 1 && base.last().0 == "Content-Type"@);
                        assert(!same_name(base.last().0, "x-amz-security-token"@));
                        assert(base.drop_last().len() == 0);
                        assert(header_value(base.drop_last(), "x-amz-security-token"@) is None);
                        assert(header_value(base, "x-amz-security-token"@) is None);
                    }
                }
                Ok(request)
            },
            Err(e) => Err(e),
        }
    }
}

} // verus!
