use aoss_curl::client::{is_valid_method, Client};
use aoss_curl::config::{
    config_file_path, credentials_file_path, profile_location, resolve_credentials,
    resolve_region, Resolution, Step,
};
use aoss_curl::credentials::Credentials;
use aoss_curl::error::Error;
use aoss_curl::sigv4::SigningAlgorithm;

fn creds(key: &str) -> Credentials {
    Credentials::new(key, "secret", None, None)
}

#[derive(Default)]
struct Spy {
    environment: usize,
    profile_credentials: usize,
    profile_region: usize,
}

/// Drives resolution the way a caller does, counting each lookup.
fn drive(
    mut res: Resolution,
    spy: &mut Spy,
    env: Option<Credentials>,
    file: Option<Credentials>,
    region: Option<String>,
) -> Result<(String, String), Error> {
    loop {
        match res.next() {
            Step::ReadEnvironmentCredentials => {
                spy.environment += 1;
                res.record_environment(env.clone());
            }
            Step::ReadProfileCredentials => {
                spy.profile_credentials += 1;
                res.record_profile_credentials(file.clone());
            }
            Step::ReadProfileRegion => {
                spy.profile_region += 1;
                res.record_region(region.clone());
            }
            Step::Ready => {
                let c = res.credentials.unwrap();
                return Ok((c.access_key_id, res.region.unwrap()));
            }
            Step::Fail(e) => return Err(e),
        }
    }
}

#[test]
fn explicit_values_touch_no_source() {
    let client = Client::new("https://example.com/", "GET", "", Some(String::from("eu-west-1")), None, None);
    let mut spy = Spy::default();
    let r = drive(
        client.resolution(Some(creds("EXPLICIT"))),
        &mut spy,
        Some(creds("ENV")),
        Some(creds("FILE")),
        Some(String::from("us-east-1")),
    );
    assert_eq!(r, Ok((String::from("EXPLICIT"), String::from("eu-west-1"))));
    assert_eq!((spy.environment, spy.profile_credentials, spy.profile_region), (0, 0, 0));
}

#[test]
fn environment_before_profile() {
    let mut spy = Spy::default();
    let r = drive(
        Resolution::new(None, None),
        &mut spy,
        Some(creds("ENV")),
        Some(creds("FILE")),
        Some(String::from("us-east-1")),
    );
    assert_eq!(r, Ok((String::from("ENV"), String::from("us-east-1"))));
    assert_eq!((spy.environment, spy.profile_credentials, spy.profile_region), (1, 0, 1));
}

#[test]
fn incomplete_environment_falls_through() {
    let mut spy = Spy::default();
    let r = drive(
        Resolution::new(None, Some(String::from("eu-west-1"))),
        &mut spy,
        Some(creds("")),
        Some(creds("FILE")),
        None,
    );
    assert_eq!(r, Ok((String::from("FILE"), String::from("eu-west-1"))));
    assert_eq!((spy.environment, spy.profile_credentials, spy.profile_region), (1, 1, 0));
}

#[test]
fn no_credentials_anywhere() {
    let mut spy = Spy::default();
    let r = drive(Resolution::new(None, None), &mut spy, None, None, None);
    assert_eq!(r, Err(Error::CredentialsUnavailable));
    assert!(matches!(
        resolve_credentials(None, None, Some(creds(""))),
        Err(Error::CredentialsUnavailable)
    ));
}

#[test]
fn no_region_anywhere() {
    let mut spy = Spy::default();
    let r = drive(Resolution::new(Some(creds("K")), None), &mut spy, None, None, None);
    assert_eq!(r, Err(Error::RegionUnavailable));
    assert_eq!(resolve_region(None, None), Err(Error::RegionUnavailable));
    assert_eq!(resolve_region(None, Some(String::new())), Err(Error::RegionUnavailable));
}

#[test]
fn explicit_wins_over_environment() {
    let r = resolve_credentials(Some(creds("EXPLICIT")), Some(creds("ENV")), Some(creds("FILE")));
    assert_eq!(r.unwrap().access_key_id, "EXPLICIT");
    let r = resolve_credentials(None, Some(creds("ENV")), Some(creds("FILE")));
    assert_eq!(r.unwrap().access_key_id, "ENV");
    let r = resolve_credentials(None, None, Some(creds("FILE")));
    assert_eq!(r.unwrap().access_key_id, "FILE");
    assert_eq!(
        resolve_region(Some(String::from("eu-west-1")), Some(String::from("us-east-1"))),
        Ok(String::from("eu-west-1"))
    );
    assert_eq!(resolve_region(None, Some(String::from("us-east-1"))), Ok(String::from("us-east-1")));
}

#[test]
fn profile_file_paths() {
    assert_eq!(config_file_path("/home/u"), "/home/u/.aws/config");
    assert_eq!(credentials_file_path("/home/u"), "/home/u/.aws/credentials");
    let loc = profile_location(Some(String::from("dev")), Some(String::from("/root")));
    assert_eq!(loc.profile.as_deref(), Some("dev"));
    assert_eq!(loc.config_file.as_deref(), Some("/root/.aws/config"));
    assert_eq!(loc.credentials_file.as_deref(), Some("/root/.aws/credentials"));
    let loc = profile_location(None, None);
    assert!(loc.profile.is_none() && loc.config_file.is_none() && loc.credentials_file.is_none());
}

#[test]
fn methods_are_tokens() {
    assert!(is_valid_method("GET"));
    assert!(is_valid_method("PROPFIND"));
    assert!(!is_valid_method(""));
    assert!(!is_valid_method("GE T"));
    assert!(!is_valid_method("G(T"));
}

#[test]
fn client_builds_signed_json_request() {
    let client = Client::new(
        "https://example.com/_cat/indices",
        "GET",
        "",
        Some(String::from("eu-west-1")),
        None,
        None,
    );
    let c = Credentials::new("AKIDEXAMPLE", "secret", Some(String::from("tok")), None);
    let req = client.signed_request(&c, "eu-west-1", 1704067200).unwrap();
    assert_eq!(req.method, "GET");
    assert_eq!(req.uri, "https://example.com/_cat/indices");
    assert_eq!(req.headers.len(), 5);
    assert_eq!(req.headers[0], (String::from("Content-Type"), String::from("application/json")));
    assert_eq!(req.headers[2], (String::from("x-amz-region-set"), String::from("eu-west-1")));
    assert!(req.headers[3].1.contains("Credential=AKIDEXAMPLE/20240101/es/aws4_request"));

    let v4 = client.with_algorithm(SigningAlgorithm::SigV4);
    let req = v4.signed_request(&c, "eu-west-1", 1704067200).unwrap();
    assert_eq!(req.headers.len(), 4);
    assert!(req.headers[2].1.contains("Credential=AKIDEXAMPLE/20240101/eu-west-1/es/aws4_request"));
}

#[test]
fn client_refuses_malformed_requests() {
    let c = creds("AKIDEXAMPLE");
    let bad_method = Client::new("https://example.com/", "GE T", "", None, None, None);
    assert!(matches!(bad_method.signed_request(&c, "eu-west-1", 0), Err(Error::BuildRequestError)));
    let bad_uri = Client::new("https://exa mple.com/", "GET", "", None, None, None);
    assert!(matches!(bad_uri.signed_request(&c, "eu-west-1", 0), Err(Error::BuildRequestError)));
    for uri in ["example.com", "localhost:9200", "/_cat/indices"] {
        let c2 = creds("AKIDEXAMPLE");
        let client = Client::new(uri, "GET", "", None, None, None);
        assert!(matches!(client.signed_request(&c2, "eu-west-1", 0), Err(Error::BuildRequestError)));
    }
    let ok = Client::new("https://example.com/", "GET", "", None, None, None);
    assert!(matches!(ok.signed_request(&c, "", 0), Err(Error::BuildParamsError)));
}

#[test]
fn error_messages() {
    assert_eq!(Error::RegionUnavailable.message(), "missing region in profile config file");
    assert_eq!(Error::SendRequestError.message(), "failed to send http request");
    assert_eq!(Error::SignRequestError.message(), "failed to sign request");
}
