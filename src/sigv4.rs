use vstd::prelude::*;

use crate::credentials::{opt_view, Credentials};
use crate::error::Error;
use crate::headers::{
    all_values_valid, borrowed_pairs, contains_header, has_header, header_value,
    lemma_merge_count, lemma_merge_lookup, merge_headers, merge_into, name_count, pairs_view,
    same_name, str_pairs_view, valid_values,
};
use aws_credential_types::Credentials as AwsCredentials;
use aws_sigv4::http_request::{sign, SignableBody, SignableRequest};
use aws_sigv4::sign::{v4, v4a};
use aws_smithy_runtime_api::client::identity::Identity;
use std::time::{Duration, UNIX_EPOCH};

verus! {

/// The last second the signer can date a request with: 9999-12-31T23:59:59Z.
pub const MAX_SIGNING_TIME: u64 = 253402300799;

/// The signing scheme, chosen once per client.
#[derive(Debug, Clone, Copy, PartialEq, Eq, Structural)]
pub enum SigningAlgorithm {
    /// Symmetric, single-region signing (`AWS4-HMAC-SHA256`).
    SigV4,
    /// Asymmetric, region-set signing (`AWS4-ECDSA-P256-SHA256`).
    SigV4a,
}

/// An HTTP request before signing: the signature covers exactly these parts.
#[derive(Debug, Clone)]
pub struct UnsignedRequest {
    pub method: String,
    pub uri: String,
    pub headers: Vec<(String, String)>,
    pub body: String,
}

/// A request as plain values: method, URI, headers and body.
pub type RequestView = (Seq<char>, Seq<char>, Seq<(Seq<char>, Seq<char>)>, Seq<char>);

/// The plain values of a request.
pub open spec fn request_view(r: UnsignedRequest) -> RequestView {
    (r.method@, r.uri@, pairs_view(r.headers@), r.body@)
}

// ---------------------------------------------------------------------------
// Calendar and timestamp text

/// Days since 1970-01-01 to (year, month, day) in the proleptic Gregorian calendar.
pub open spec fn civil_from_days(days: int) -> (int, int, int) {
    let z = days + 719468;
    let era = z / 146097;
    let doe = z - era * 146097;
    let yoe = (doe - doe / 1460 + doe / 36524 - doe / 146096) / 365;
    let doy = doe - (365 * yoe + yoe / 4 - yoe / 100);
    let mp = (5 * doy + 2) / 153;
    let d = doy - (153 * mp + 2) / 5 + 1;
    let m = if mp < 10 { mp + 3 } else { mp - 9 };
    let y = yoe + era * 400 + if m <= 2 { 1int } else { 0int };
    (y, m, d)
}

pub open spec fn digit(d: int) -> char {
    seq!['0', '1', '2', '3', '4', '5', '6', '7', '8', '9'][d]
}

/// `n` in decimal, zero-padded (or cut) to `width` digits.
pub open spec fn decimal(n: int, width: nat) -> Seq<char>
    decreases width,
{
    if width == 0 {
        seq![]
    } else {
        decimal(n / 10, (width - 1) as nat).push(digit(n % 10))
    }
}

/// `YYYYMMDD` of a Unix time.
pub open spec fn amz_date(t: u64) -> Seq<char> {
    let (y, m, d) = civil_from_days(t as int / 86400);
    decimal(y, 4) + decimal(m, 2) + decimal(d, 2)
}

/// `YYYYMMDDTHHMMSSZ` of a Unix time.
pub open spec fn amz_date_time(t: u64) -> Seq<char> {
    let s = t as int % 86400;
    amz_date(t) + seq!['T'] + decimal(s / 3600, 2) + decimal((s % 3600) / 60, 2) + decimal(
        s % 60,
        2,
    ) + seq!['Z']
}

// ---------------------------------------------------------------------------
// The outside signer

/// What aws-sigv4 signs for SigV4: the headers to add, or `None` where it fails.
pub uninterp spec fn sigv4_output(
    time: u64,
    region: Seq<char>,
    service: Seq<char>,
    key: Seq<char>,
    secret: Seq<char>,
    token: Option<Seq<char>>,
    method: Seq<char>,
    uri: Seq<char>,
    headers: Seq<(Seq<char>, Seq<char>)>,
    body: Seq<char>,
) -> Option<Seq<(Seq<char>, Seq<char>)>>;

/// What aws-sigv4 signs for SigV4a: the headers to add, or `None` where it fails.
pub uninterp spec fn sigv4a_output(
    time: u64,
    region: Seq<char>,
    service: Seq<char>,
    key: Seq<char>,
    secret: Seq<char>,
    token: Option<Seq<char>>,
    method: Seq<char>,
    uri: Seq<char>,
    headers: Seq<(Seq<char>, Seq<char>)>,
    body: Seq<char>,
) -> Option<Seq<(Seq<char>, Seq<char>)>>;

/// How `hyper::Uri` reads the text: `None` where it does not parse, else
/// whether it has a scheme and whether it has an authority.
pub uninterp spec fn uri_parse(uri: Seq<char>) -> Option<(bool, bool)>;

/// Relies on the http crate's `Uri` parser (re-exported by hyper) and its
/// `scheme` and `authority` getters: `None` where `uri` does not parse, else
/// whether the parsed URI has a scheme and whether it has an authority.
#[verifier::external_body]
pub(crate) fn parse_uri(uri: &str) -> (r: Option<(bool, bool)>)
    ensures
        r == uri_parse(uri@),
{
    uri.parse::<hyper::Uri>().ok().map(|u| (u.scheme().is_some(), u.authority().is_some()))
}

/// The most headers a request may carry into the signer, well below the
/// capacity of the header map it canonicalizes them into.
pub const MAX_SIGNED_HEADERS: usize = 16384;

/// A request target the signer can canonicalize: an absolute URI (scheme and
/// authority), or a path with no scheme or authority plus a `host` header.
/// An authority-form target (`example.com`) has an empty path, which the
/// signer cannot rebuild into a URI.
pub open spec fn signable_target(uri: Seq<char>, headers: Seq<(Seq<char>, Seq<char>)>) -> bool {
    uri_parse(uri) == Some((true, true)) || (uri_parse(uri) == Some((false, false)) && has_header(
        headers,
        "host"@,
    ))
}

/// `Credential=<key>/<scope>` as the authorization header carries it.
pub open spec fn credential_field(key: Seq<char>, scope: Seq<char>) -> Seq<char> {
    "Credential="@ + key + "/"@ + scope
}

/// The credential scope of each scheme.
pub open spec fn scope(
    algorithm: SigningAlgorithm,
    time: u64,
    region: Seq<char>,
    service: Seq<char>,
) -> Seq<char> {
    match algorithm {
        SigningAlgorithm::SigV4 => amz_date(time) + "/"@ + region + "/"@ + service + "/aws4_request"@,
        SigningAlgorithm::SigV4a => amz_date(time) + "/"@ + service + "/aws4_request"@,
    }
}

/// The algorithm identifier that opens the authorization header.
pub open spec fn algorithm_id(algorithm: SigningAlgorithm) -> Seq<char> {
    match algorithm {
        SigningAlgorithm::SigV4 => "AWS4-HMAC-SHA256"@,
        SigningAlgorithm::SigV4a => "AWS4-ECDSA-P256-SHA256"@,
    }
}

/// The authorization value starts with the algorithm, the credential and the
/// signed-header list marker; the signature follows.
pub open spec fn authorization_prefix(
    algorithm: SigningAlgorithm,
    time: u64,
    region: Seq<char>,
    service: Seq<char>,
    key: Seq<char>,
) -> Seq<char> {
    algorithm_id(algorithm) + " "@ + credential_field(key, scope(algorithm, time, region, service))
        + ", SignedHeaders="@
}

/// The header names and values that each scheme adds, in order: the
/// timestamp, the region set (SigV4a), the authorization, and the session
/// token where there is one.
pub open spec fn signed_layout(
    algorithm: SigningAlgorithm,
    hs: Seq<(Seq<char>, Seq<char>)>,
    time: u64,
    region: Seq<char>,
    service: Seq<char>,
    key: Seq<char>,
    token: Option<Seq<char>>,
) -> bool {
    let base: int = match algorithm {
        SigningAlgorithm::SigV4 => 1,
        SigningAlgorithm::SigV4a => 2,
    };
    let prefix = authorization_prefix(algorithm, time, region, service, key);
    &&& hs.len() == base + 1 + if token is Some { 1int } else { 0int }
    &&& hs[0] == ("x-amz-date"@, amz_date_time(time))
    &&& algorithm is SigV4a ==> hs[1] == ("x-amz-region-set"@, region)
    &&& hs[base].0 == "authorization"@
    &&& hs[base].1.len() > prefix.len()
    &&& hs[base].1.subrange(0, prefix.len() as int) == prefix
    &&& token matches Some(t) ==> hs[base + 1] == ("x-amz-security-token"@, t)
}

/// Relies on aws_sigv4::http_request::sign with SigV4 parameters built by
/// aws_sigv4::sign::v4::SigningParams::builder and default settings: the
/// headers it adds depend on its inputs alone (HMAC-SHA256), come in the
/// order its source writes them, and time `t` is read as `UNIX_EPOCH + t` s.
#[verifier::external_body]
fn sigv4_sign(
    time: u64,
    region: &str,
    service: &str,
    key: &str,
    secret: &str,
    token: Option<String>,
    method: &str,
    uri: &str,
    headers: Vec<(&str, &str)>,
    body: &str,
) -> (r: Option<Vec<(String, String)>>)
    requires
        time <= MAX_SIGNING_TIME,
        signable_target(uri@, str_pairs_view(headers@)),
        headers@.len() <= MAX_SIGNED_HEADERS,
    ensures
        match r {
            Some(hs) => sigv4_output(time, region@, service@, key@, secret@, opt_view(token),
                method@, uri@, str_pairs_view(headers@), body@)
                == Some(pairs_view(hs@)),
            None => sigv4_output(time, region@, service@, key@, secret@, opt_view(token),
                method@, uri@, str_pairs_view(headers@), body@) is None,
        },
        r matches Some(hs) ==> signed_layout(SigningAlgorithm::SigV4, pairs_view(hs@), time,
            region@, service@, key@, opt_view(token)),
{
    let id: Identity = AwsCredentials::new(key, secret, token, None, "aoss").into();
    let params = v4::SigningParams::builder().identity(&id).region(region).name(service)
        .time(UNIX_EPOCH + Duration::from_secs(time)).settings(Default::default()).build().ok()?;
    let body = SignableBody::Bytes(body.as_bytes());
    let signable = SignableRequest::new(method, uri, headers.into_iter(), body).ok()?;
    let (out, _) = sign(signable, &params.into()).ok()?.into_parts();
    Some(out.headers().map(|(n, v)| (n.to_string(), v.to_string())).collect())
}

/// Relies on aws_sigv4::http_request::sign with SigV4a parameters built by
/// aws_sigv4::sign::v4a::SigningParams::builder and default settings: the
/// headers it adds depend on its inputs alone (ECDSA P-256 with RFC 6979
/// nonces), come in the order its source writes them, and time `t` is read
/// as `UNIX_EPOCH + t` s.
#[verifier::external_body]
fn sigv4a_sign(
    time: u64,
    region: &str,
    service: &str,
    key: &str,
    secret: &str,
    token: Option<String>,
    method: &str,
    uri: &str,
    headers: Vec<(&str, &str)>,
    body: &str,
) -> (r: Option<Vec<(String, String)>>)
    requires
        time <= MAX_SIGNING_TIME,
        signable_target(uri@, str_pairs_view(headers@)),
        headers@.len() <= MAX_SIGNED_HEADERS,
    ensures
        match r {
            Some(hs) => sigv4a_output(time, region@, service@, key@, secret@, opt_view(token),
                method@, uri@, str_pairs_view(headers@), body@)
                == Some(pairs_view(hs@)),
            None => sigv4a_output(time, region@, service@, key@, secret@, opt_view(token),
                method@, uri@, str_pairs_view(headers@), body@) is None,
        },
        r matches Some(hs) ==> signed_layout(SigningAlgorithm::SigV4a, pairs_view(hs@), time,
            region@, service@, key@, opt_view(token)),
{
    let id: Identity = AwsCredentials::new(key, secret, token, None, "aoss").into();
    let params = v4a::SigningParams::builder().identity(&id).region_set(region).name(service)
        .time(UNIX_EPOCH + Duration::from_secs(time)).settings(Default::default()).build().ok()?;
    let body = SignableBody::Bytes(body.as_bytes());
    let signable = SignableRequest::new(method, uri, headers.into_iter(), body).ok()?;
    let (out, _) = sign(signable, &params.into()).ok()?.into_parts();
    Some(out.headers().map(|(n, v)| (n.to_string(), v.to_string())).collect())
}

// ---------------------------------------------------------------------------
// The signer

/// The headers the chosen scheme adds for these inputs, `None` where it fails.
pub open spec fn signature_output(
    algorithm: SigningAlgorithm,
    time: u64,
    region: Seq<char>,
    service: Seq<char>,
    credentials: Credentials,
    request: RequestView,
) -> Option<Seq<(Seq<char>, Seq<char>)>> {
    match algorithm {
        SigningAlgorithm::SigV4 => sigv4_output(time, region, service,
            credentials.access_key_id@, credentials.secret_access_key@,
            opt_view(credentials.session_token), request.0, request.1, request.2, request.3),
        SigningAlgorithm::SigV4a => sigv4a_output(time, region, service,
            credentials.access_key_id@, credentials.secret_access_key@,
            opt_view(credentials.session_token), request.0, request.1, request.2, request.3),
    }
}

/// Signing parameters are usable: a region, a service, both keys, and a time
/// the signer can write as a four-digit-year date.
pub open spec fn params_ok(time: u64, region: Seq<char>, service: Seq<char>, credentials: Credentials) -> bool {
    &&& time <= MAX_SIGNING_TIME
    &&& region.len() > 0
    &&& service.len() > 0
    &&& credentials.complete()
}

/// The outcome of signing: the headers to add, or the error, for every input.
pub open spec fn signing_outcome(
    algorithm: SigningAlgorithm,
    time: u64,
    region: Seq<char>,
    service: Seq<char>,
    credentials: Credentials,
    request: RequestView,
) -> Result<Seq<(Seq<char>, Seq<char>)>, Error> {
    if !params_ok(time, region, service, credentials) {
        Err(Error::BuildParamsError)
    } else if !valid_values(request.2) || request.2.len() > MAX_SIGNED_HEADERS {
        Err(Error::SignRequestError)
    } else if !signable_target(request.1, request.2) {
        Err(Error::SignRequestError)
    } else {
        match signature_output(algorithm, time, region, service, credentials, request) {
            Some(hs) => Ok(hs),
            None => Err(Error::SignRequestError),
        }
    }
}

/// A signed-header list as plain characters, or the error.
pub open spec fn outcome_view(r: Result<Vec<(String, String)>, Error>) -> Result<
    Seq<(Seq<char>, Seq<char>)>,
    Error,
> {
    match r {
        Ok(hs) => Ok(pairs_view(hs@)),
        Err(e) => Err(e),
    }
}

/// What lookups find in a signer layout: the token (or nothing), the
/// timestamp, and for SigV4a the region set.
pub proof fn lemma_layout_lookups(
    algorithm: SigningAlgorithm,
    hs: Seq<(Seq<char>, Seq<char>)>,
    time: u64,
    region: Seq<char>,
    service: Seq<char>,
    key: Seq<char>,
    token: Option<Seq<char>>,
)
    requires
        signed_layout(algorithm, hs, time, region, service, key, token),
    ensures
        header_value(hs, "x-amz-security-token"@) == token,
        header_value(hs, "x-amz-date"@) == Some(amz_date_time(time)),
        algorithm is SigV4a ==> header_value(hs, "x-amz-region-set"@) == Some(region),
{
    reveal_strlit("x-amz-security-token");
    reveal_strlit("x-amz-date");
    reveal_strlit("x-amz-region-set");
    reveal_strlit("authorization");
    reveal_with_fuel(header_value, 5);
    let n = hs.len();
    assert(hs.drop_last().len() == n - 1);
    assert(hs.drop_last().drop_last().len() == n - 2);
    if n >= 3 {
        assert(hs.drop_last().drop_last().drop_last().len() == n - 3);
    }
}

/// The names a signer layout holds are pairwise distinct, never
/// `Content-Type`, and include the token header exactly when there is a token.
pub proof fn lemma_layout_names(
    algorithm: SigningAlgorithm,
    hs: Seq<(Seq<char>, Seq<char>)>,
    time: u64,
    region: Seq<char>,
    service: Seq<char>,
    key: Seq<char>,
    token: Option<Seq<char>>,
)
    requires
        signed_layout(algorithm, hs, time, region, service, key, token),
    ensures
        forall|i: int, j: int|
            0 <= i < j < hs.len() ==> !same_name(#[trigger] hs[i].0, #[trigger] hs[j].0),
        forall|i: int| 0 <= i < hs.len() ==> !same_name(#[trigger] hs[i].0, "Content-Type"@),
        forall|i: int| 0 <= i < hs.len() ==> !same_name("Content-Type"@, #[trigger] hs[i].0),
        has_header(hs, "x-amz-security-token"@) == token is Some,
{
    reveal_strlit("x-amz-security-token");
    reveal_strlit("x-amz-date");
    reveal_strlit("x-amz-region-set");
    reveal_strlit("authorization");
    reveal_strlit("Content-Type");
    let base: int = if algorithm is SigV4 { 1 } else { 2 };
    // Each name has its own length: 10, 16, 13 and 20 characters.
    assert forall|i: int| 0 <= i < hs.len() implies (#[trigger] hs[i].0).len() == if i == 0 {
        10int
    } else if i < base {
        16int
    } else if i == base {
        13int
    } else {
        20int
    } by {}
    if token is Some {
        assert(same_name(hs[base + 1].0, "x-amz-security-token"@));
    }
}

/// Computes the headers that sign `request` under `algorithm` at Unix time
/// `time`, for `region` and `service`, with `credentials`.
pub fn signed_headers(
    algorithm: SigningAlgorithm,
    time: u64,
    region: &str,
    service: &str,
    credentials: &Credentials,
    request: &UnsignedRequest,
) -> (r: Result<Vec<(String, String)>, Error>)
    ensures
        outcome_view(r) == signing_outcome(algorithm, time, region@, service@, *credentials,
            request_view(*request)),
        r matches Ok(hs) ==> signed_layout(algorithm, pairs_view(hs@), time, region@, service@,
            credentials.access_key_id@, opt_view(credentials.session_token)),
        r matches Ok(hs) ==> header_value(pairs_view(hs@), "x-amz-security-token"@) == opt_view(
            credentials.session_token,
        ),
        r matches Ok(hs) ==> header_value(pairs_view(hs@), "x-amz-date"@) == Some(amz_date_time(time)),
        r matches Ok(hs) ==> algorithm is SigV4a ==> header_value(pairs_view(hs@), "x-amz-region-set"@)
            == Some(region@),
{
    if !(time <= MAX_SIGNING_TIME && region.unicode_len() > 0 && service.unicode_len() > 0
        && credentials.is_complete()) {
        return Err(Error::BuildParamsError);
    }
    if request.headers.len() > MAX_SIGNED_HEADERS || !all_values_valid(&request.headers) {
        return Err(Error::SignRequestError);
    }
    let target = parse_uri(request.uri.as_str());
    let absolute = match target {
        Some((scheme, authority)) => scheme && authority,
        None => false,
    };
    let path_only = match target {
        Some((scheme, authority)) => !scheme && !authority,
        None => false,
    };
    if !(absolute || (path_only && contains_header(&request.headers, "host"))) {
        return Err(Error::SignRequestError);
    }
    let key = credentials.access_key_id.as_str();
    let secret = credentials.secret_access_key.as_str();
    let token = match &credentials.session_token {
        Some(t) => Some(t.clone()),
        None => None,
    };
    let method = request.method.as_str();
    let uri = request.uri.as_str();
    let body = request.body.as_str();
    let pairs = borrowed_pairs(&request.headers);
    let ghost tok = opt_view(token);
    assert(tok == opt_view(credentials.session_token));
    let out = match algorithm {
        SigningAlgorithm::SigV4 => sigv4_sign(
            time, region, service, key, secret, token, method, uri, pairs, body),
        SigningAlgorithm::SigV4a => sigv4a_sign(
            time, region, service, key, secret, token, method, uri, pairs, body),
    };
    match out {
        Some(hs) => {
            proof {
                lemma_layout_lookups(algorithm, pairs_view(hs@), time, region@, service@, key@, tok);
            }
            Ok(hs)
        },
        None => Err(Error::SignRequestError),
    }
}

/// Signs `request` in place: on success every signed header replaces any
/// header of the same name; on failure the request is left as it was.
pub fn sign_request(
    algorithm: SigningAlgorithm,
    time: u64,
    region: &str,
    service: &str,
    credentials: &Credentials,
    request: &mut UnsignedRequest,
) -> (r: Result<(), Error>)
    ensures
        match signing_outcome(algorithm, time, region@, service@, *credentials, request_view(*old(request))) {
            Ok(hs) => {
                &&& r is Ok
                &&& signed_layout(algorithm, hs, time, region@, service@,
                    credentials.access_key_id@, opt_view(credentials.session_token))
                &&& pairs_view(final(request).headers@) == merge_headers(
                    pairs_view(old(request).headers@),
                    hs,
                )
                &&& final(request).method == old(request).method
                &&& final(request).uri == old(request).uri
                &&& final(request).body == old(request).body
            },
            Err(e) => r == Err::<(), Error>(e) && *final(request) == *old(request),
        },
        r is Ok ==> header_value(pairs_view(final(request).headers@), "x-amz-date"@) == Some(
            amz_date_time(time),
        ),
        r is Ok ==> header_value(pairs_view(final(request).headers@), "x-amz-security-token"@)
            == match credentials.session_token {
            Some(t) => Some(t@),
            None => header_value(pairs_view(old(request).headers@), "x-amz-security-token"@),
        },
        r is Ok ==> name_count(pairs_view(final(request).headers@), "x-amz-security-token"@)
            == if credentials.session_token is Some {
            1
        } else {
            name_count(pairs_view(old(request).headers@), "x-amz-security-token"@)
        },
        r is Ok ==> name_count(pairs_view(final(request).headers@), "x-amz-date"@) == 1,
        r is Ok ==> name_count(pairs_view(final(request).headers@), "authorization"@) == 1,
{
    match signed_headers(algorithm, time, region, service, credentials, request) {
        Ok(hs) => {
            let ghost before = pairs_view(request.headers@);
            merge_into(&mut request.headers, &hs);
            proof {
                lemma_merge_lookup(before, pairs_view(hs@), "x-amz-date"@);
                lemma_merge_lookup(before, pairs_view(hs@), "x-amz-security-token"@);
                let h = pairs_view(hs@);
                let token = opt_view(credentials.session_token);
                lemma_layout_names(algorithm, h, time, region@, service@,
                    credentials.access_key_id@, token);
                lemma_merge_count(before, h, "x-amz-security-token"@);
                lemma_merge_count(before, h, "x-amz-date"@);
                lemma_merge_count(before, h, "authorization"@);
                reveal_strlit("x-amz-date");
                reveal_strlit("authorization");
                let base: int = if algorithm is SigV4 { 1 } else { 2 };
                assert(same_name(h[0].0, "x-amz-date"@));
                assert(same_name(h[base].0, "authorization"@));
            }
            Ok(())
        },
        Err(e) => Err(e),
    }
}

/// Signing is deterministic: the same time, region, service, keys, token and
/// request give the same headers, or the same error. The expiry plays no part.
pub proof fn lemma_signing_deterministic(
    algorithm: SigningAlgorithm,
    time: u64,
    region: Seq<char>,
    service: Seq<char>,
    a: Credentials,
    b: Credentials,
    request: RequestView,
)
    requires
        a.access_key_id@ == b.access_key_id@,
        a.secret_access_key@ == b.secret_access_key@,
        opt_view(a.session_token) == opt_view(b.session_token),
    ensures
        signing_outcome(algorithm, time, region, service, a, request) == signing_outcome(
            algorithm,
            time,
            region,
            service,
            b,
            request,
        ),
{
}

} // verus!
