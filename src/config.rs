use vstd::prelude::*;

use crate::credentials::Credentials;
use crate::error::Error;

verus! {

/// Where the profile files live under a home directory.
pub fn config_file_path(home: &str) -> (r: String)
    ensures
        r@ == home@ + "/.aws/config"@,
{
    home.to_string().concat("/.aws/config")
}

/// Where the shared credentials file lives under a home directory.
pub fn credentials_file_path(home: &str) -> (r: String)
    ensures
        r@ == home@ + "/.aws/credentials"@,
{
    home.to_string().concat("/.aws/credentials")
}

/// The profile to read and the files to read it from; `None` means the
/// provider's own defaults.
pub struct ProfileLocation {
    pub profile: Option<String>,
    pub config_file: Option<String>,
    pub credentials_file: Option<String>,
}

/// Locates the profile files: under `home` when given.
pub fn profile_location(profile: Option<String>, home: Option<String>) -> (r: ProfileLocation)
    ensures
        r.profile == profile,
        match home {
            Some(h) => {
                &&& r.config_file matches Some(c) && c@ == h@ + "/.aws/config"@
                &&& r.credentials_file matches Some(c) && c@ == h@ + "/.aws/credentials"@
            },
            None => r.config_file is None && r.credentials_file is None,
        },
{
    match home {
        Some(h) => ProfileLocation {
            profile,
            config_file: Some(config_file_path(h.as_str())),
            credentials_file: Some(credentials_file_path(h.as_str())),
        },
        None => ProfileLocation { profile, config_file: None, credentials_file: None },
    }
}

/// What the caller must do next to finish resolving credentials and region.
#[derive(Debug, Clone, Copy, PartialEq, Eq, Structural)]
pub enum Step {
    /// Read credentials from the environment variables.
    ReadEnvironmentCredentials,
    /// Read credentials from the profile files.
    ReadProfileCredentials,
    /// Read the profile's region from the profile files.
    ReadProfileRegion,
    /// Credentials and region are both known.
    Ready,
    /// Resolution failed.
    Fail(Error),
}

/// Progress of credential and region resolution. Explicit values are taken
/// as given; looked-up credentials count only when complete, and a looked-up
/// region only when non-empty. A value once known is never replaced.
pub struct Resolution {
    pub credentials: Option<Credentials>,
    pub region: Option<String>,
    pub environment_read: bool,
    pub profile_credentials_read: bool,
    pub profile_region_read: bool,
}

/// Credentials after a lookup that found `found`.
pub open spec fn take_credentials(current: Option<Credentials>, found: Option<Credentials>) -> Option<
    Credentials,
> {
    match current {
        Some(c) => Some(c),
        None => match found {
            Some(f) => if f.complete() {
                Some(f)
            } else {
                None
            },
            None => None,
        },
    }
}

/// Region after a lookup that found `found`.
pub open spec fn take_region(current: Option<String>, found: Option<String>) -> Option<String> {
    match current {
        Some(r) => Some(r),
        None => match found {
            Some(f) => if f@.len() > 0 {
                Some(f)
            } else {
                None
            },
            None => None,
        },
    }
}

/// Environment first, then the profile files, then the region.
pub open spec fn next_step(r: Resolution) -> Step {
    if r.credentials is None {
        if !r.environment_read {
            Step::ReadEnvironmentCredentials
        } else if !r.profile_credentials_read {
            Step::ReadProfileCredentials
        } else {
            Step::Fail(Error::CredentialsUnavailable)
        }
    } else if r.region is None {
        if !r.profile_region_read {
            Step::ReadProfileRegion
        } else {
            Step::Fail(Error::RegionUnavailable)
        }
    } else {
        Step::Ready
    }
}

/// The state before any lookup.
pub open spec fn initial(credentials: Option<Credentials>, region: Option<String>) -> Resolution {
    Resolution {
        credentials,
        region,
        environment_read: false,
        profile_credentials_read: false,
        profile_region_read: false,
    }
}

impl Resolution {
    /// Starts from the explicit credentials and region, if any.
    pub fn new(credentials: Option<Credentials>, region: Option<String>) -> (r: Resolution)
        ensures
            r == initial(credentials, region),
    {
        Resolution {
            credentials,
            region,
            environment_read: false,
            profile_credentials_read: false,
            profile_region_read: false,
        }
    }

    /// The next thing to do.
    pub fn next(&self) -> (r: Step)
        ensures
            r == next_step(*self),
    {
        if self.credentials.is_none() {
            if !self.environment_read {
                Step::ReadEnvironmentCredentials
            } else if !self.profile_credentials_read {
                Step::ReadProfileCredentials
            } else {
                Step::Fail(Error::CredentialsUnavailable)
            }
        } else if self.region.is_none() {
            if !self.profile_region_read {
                Step::ReadProfileRegion
            } else {
                Step::Fail(Error::RegionUnavailable)
            }
        } else {
            Step::Ready
        }
    }

    fn offer_credentials(&mut self, found: Option<Credentials>)
        ensures
            final(self).credentials == take_credentials(old(self).credentials, found),
            final(self).region == old(self).region,
            final(self).environment_read == old(self).environment_read,
            final(self).profile_credentials_read == old(self).profile_credentials_read,
            final(self).profile_region_read == old(self).profile_region_read,
    {
        if self.credentials.is_none() {
            match found {
                Some(f) => {
                    if f.is_complete() {
                        self.credentials = Some(f);
                    }
                },
                None => {},
            }
        }
    }

    /// Records what the environment variables held.
    pub fn record_environment(&mut self, found: Option<Credentials>)
        ensures
            *final(self) == (Resolution {
                credentials: take_credentials(old(self).credentials, found),
                environment_read: true,
                ..*old(self)
            }),
    {
        self.offer_credentials(found);
        self.environment_read = true;
    }

    /// Records what the profile files held as credentials.
    pub fn record_profile_credentials(&mut self, found: Option<Credentials>)
        ensures
            *final(self) == (Resolution {
                credentials: take_credentials(old(self).credentials, found),
                profile_credentials_read: true,
                ..*old(self)
            }),
    {
        self.offer_credentials(found);
        self.profile_credentials_read = true;
    }

    /// Records the region that the profile files held.
    pub fn record_region(&mut self, found: Option<String>)
        ensures
            *final(self) == (Resolution {
                region: take_region(old(self).region, found),
                profile_region_read: true,
                ..*old(self)
            }),
    {
        if self.region.is_none() {
            match found {
                Some(f) => {
                    if f.unicode_len() > 0 {
                        self.region = Some(f);
                    }
                },
                None => {},
            }
        }
        self.profile_region_read = true;
    }
}

/// Resolves credentials from explicit, environment and profile-file sources,
/// in that order of precedence.
pub fn resolve_credentials(
    explicit: Option<Credentials>,
    environment: Option<Credentials>,
    profile: Option<Credentials>,
) -> (r: Result<Credentials, Error>)
    ensures
        match take_credentials(take_credentials(explicit, environment), profile) {
            Some(c) => r == Ok::<Credentials, Error>(c),
            None => r == Err::<Credentials, Error>(Error::CredentialsUnavailable),
        },
{
    let mut res = Resolution::new(explicit, None);
    res.record_environment(environment);
    res.record_profile_credentials(profile);
    match res.credentials {
        Some(c) => Ok(c),
        None => Err(Error::CredentialsUnavailable),
    }
}

/// Resolves the region: the explicit one, else the profile's.
pub fn resolve_region(explicit: Option<String>, profile: Option<String>) -> (r: Result<String, Error>)
    ensures
        match take_region(explicit, profile) {
            Some(s) => r == Ok::<String, Error>(s),
            None => r == Err::<String, Error>(Error::RegionUnavailable),
        },
{
    let mut res = Resolution::new(None, explicit);
    res.record_region(profile);
    match res.region {
        Some(s) => Ok(s),
        None => Err(Error::RegionUnavailable),
    }
}

/// Explicit credentials and an explicit region win over whatever the
/// environment and the profile files hold.
pub proof fn lemma_explicit_wins(
    credentials: Credentials,
    region: String,
    environment: Option<Credentials>,
    profile: Option<Credentials>,
    profile_region: Option<String>,
)
    ensures
        take_credentials(take_credentials(Some(credentials), environment), profile) == Some(
            credentials,
        ),
        take_region(Some(region), profile_region) == Some(region),
{
}

/// With explicit credentials and an explicit region, resolution is done
/// before any lookup: neither the environment nor the files are read.
pub proof fn lemma_explicit_needs_no_lookup(credentials: Credentials, region: String)
    ensures
        next_step(initial(Some(credentials), Some(region))) == Step::Ready,
{
}

} // verus!
