use vstd::prelude::*;

verus! {

/// The storage backends that requests can be sent to.
#[derive(Clone, Copy, Debug, PartialEq, Eq, Structural)]
pub enum BackendKind {
    Http,
    S3,
    Gcs,
    Azure,
}

/// The connection parameters of one backend. Fields that a kind does not use
/// are ignored by it.
#[derive(Clone, Debug)]
pub struct BackendConfig {
    pub kind: BackendKind,
    pub region: Option<String>,
    pub profile: Option<String>,
    pub endpoint_url: Option<String>,
    pub account: Option<String>,
    pub key: Option<String>,
    pub project: Option<String>,
    pub anonymous: bool,
    pub requester_pays: bool,
}

/// The characters of an optional string.
pub open spec fn opt_view(o: Option<String>) -> Option<Seq<char>> {
    match o {
        Some(s) => Some(s@),
        None => None,
    }
}

/// The identity under which a backend client is cached.
pub struct KeyModel {
    pub kind: BackendKind,
    pub region: Option<Seq<char>>,
    pub profile: Option<Seq<char>>,
    pub endpoint_url: Option<Seq<char>>,
    pub account: Option<Seq<char>>,
    pub key: Option<Seq<char>>,
    pub anonymous: bool,
}

/// The cache identity of a configuration: the fields that the kind's client
/// is built from, every other field normalized to `None` (or `false`).
/// All HTTP requests share one client, and all authenticated GCS requests
/// one token holder; an S3 client is built from region, profile (unless
/// anonymous) and endpoint, an Azure client from account and key (unless
/// anonymous).
pub open spec fn key_model(c: BackendConfig) -> KeyModel {
    match c.kind {
        BackendKind::S3 => KeyModel {
            kind: c.kind,
            region: opt_view(c.region),
            profile: if c.anonymous {
                None
            } else {
                opt_view(c.profile)
            },
            endpoint_url: opt_view(c.endpoint_url),
            account: None,
            key: None,
            anonymous: c.anonymous,
        },
        BackendKind::Azure => KeyModel {
            kind: c.kind,
            region: None,
            profile: None,
            endpoint_url: None,
            account: opt_view(c.account),
            key: if c.anonymous {
                None
            } else {
                opt_view(c.key)
            },
            anonymous: c.anonymous,
        },
        _ => KeyModel {
            kind: c.kind,
            region: None,
            profile: None,
            endpoint_url: None,
            account: None,
            key: None,
            anonymous: false,
        },
    }
}

/// The cache identity of a configuration, as a value.
#[derive(Debug)]
pub struct CacheKey {
    pub kind: BackendKind,
    pub region: Option<String>,
    pub profile: Option<String>,
    pub endpoint_url: Option<String>,
    pub account: Option<String>,
    pub key: Option<String>,
    pub anonymous: bool,
}

impl CacheKey {
    pub open spec fn model(&self) -> KeyModel {
        KeyModel {
            kind: self.kind,
            region: opt_view(self.region),
            profile: opt_view(self.profile),
            endpoint_url: opt_view(self.endpoint_url),
            account: opt_view(self.account),
            key: opt_view(self.key),
            anonymous: self.anonymous,
        }
    }

    /// Whether two keys name the same identity.
    pub fn same_as(&self, other: &CacheKey) -> (r: bool)
        ensures
            r == (self.model() == other.model()),
    {
        self.kind == other.kind && same_text(&self.region, &other.region) && same_text(
            &self.profile,
            &other.profile,
        ) && same_text(&self.endpoint_url, &other.endpoint_url) && same_text(
            &self.account,
            &other.account,
        ) && same_text(&self.key, &other.key) && self.anonymous == other.anonymous
    }
}

/// Whether two optional strings are equal.
pub fn same_text(a: &Option<String>, b: &Option<String>) -> (r: bool)
    ensures
        r == (opt_view(*a) == opt_view(*b)),
{
    match (a, b) {
        (Some(x), Some(y)) => x.eq(y),
        (None, None) => true,
        _ => false,
    }
}

/// A copy of an optional string.
pub fn copy_text(a: &Option<String>) -> (r: Option<String>)
    ensures
        opt_view(r) == opt_view(*a),
{
    match a {
        Some(x) => Some(x.clone()),
        None => None,
    }
}

impl BackendConfig {
    /// The cache identity of this configuration.
    pub fn cache_key(&self) -> (r: CacheKey)
        ensures
            r.model() == key_model(*self),
    {
        match self.kind {
            BackendKind::S3 => CacheKey {
                kind: self.kind,
                region: copy_text(&self.region),
                profile: if self.anonymous {
                    None
                } else {
                    copy_text(&self.profile)
                },
                endpoint_url: copy_text(&self.endpoint_url),
                account: None,
                key: None,
                anonymous: self.anonymous,
            },
            BackendKind::Azure => CacheKey {
                kind: self.kind,
                region: None,
                profile: None,
                endpoint_url: None,
                account: copy_text(&self.account),
                key: if self.anonymous {
                    None
                } else {
                    copy_text(&self.key)
                },
                anonymous: self.anonymous,
            },
            _ => CacheKey {
                kind: self.kind,
                region: None,
                profile: None,
                endpoint_url: None,
                account: None,
                key: None,
                anonymous: false,
            },
        }
    }
}

/// How requests to Azure are authenticated.
pub enum AzureAuth {
    /// No credentials: only public blobs can be read.
    Anonymous,
    /// The storage account's shared key.
    SharedKey(String),
}

/// Why a backend client cannot be built from a configuration.
#[derive(Clone, Copy, Debug, PartialEq, Eq, Structural)]
pub enum ConfigError {
    /// Azure needs a storage account.
    MissingAccount,
    /// A non-anonymous Azure configuration needs the account key.
    MissingKey,
}

/// The Azure account and credentials of a configuration: the account is
/// required, and so is the key unless the configuration is anonymous.
pub fn azure_credentials(config: &BackendConfig) -> (r: Result<(String, AzureAuth), ConfigError>)
    ensures
        config.account is None ==> r == Err::<(String, AzureAuth), ConfigError>(
            ConfigError::MissingAccount,
        ),
        config.account is Some && !config.anonymous && config.key is None ==> r == Err::<
            (String, AzureAuth),
            ConfigError,
        >(ConfigError::MissingKey),
        config.account is Some && config.anonymous ==> (r matches Ok((a, auth)) && a@
            == config.account->Some_0@ && auth is Anonymous),
        config.account is Some && !config.anonymous && config.key is Some ==> (r matches Ok(
            (a, auth),
        ) && a@ == config.account->Some_0@ && (auth matches AzureAuth::SharedKey(k) && k@
            == config.key->Some_0@)),
{
    let account = match &config.account {
        None => {
            return Err(ConfigError::MissingAccount);
        },
        Some(a) => a.clone(),
    };
    if config.anonymous {
        return Ok((account, AzureAuth::Anonymous));
    }
    match &config.key {
        None => Err(ConfigError::MissingKey),
        Some(k) => Ok((account, AzureAuth::SharedKey(k.clone()))),
    }
}

/// A configuration of `kind` with every optional field absent and both
/// flags off.
pub open spec fn blank_config(kind: BackendKind) -> BackendConfig {
    BackendConfig {
        kind,
        region: None,
        profile: None,
        endpoint_url: None,
        account: None,
        key: None,
        project: None,
        anonymous: false,
        requester_pays: false,
    }
}

impl BackendConfig {
    /// A configuration of `kind` with every optional field absent and both
    /// flags off.
    pub fn of_kind(kind: BackendKind) -> (r: BackendConfig)
        ensures
            r == blank_config(kind),
    {
        BackendConfig {
            kind,
            region: None,
            profile: None,
            endpoint_url: None,
            account: None,
            key: None,
            project: None,
            anonymous: false,
            requester_pays: false,
        }
    }

    /// A plain HTTP configuration.
    pub fn http() -> (r: BackendConfig)
        ensures
            r == blank_config(BackendKind::Http),
    {
        BackendConfig::of_kind(BackendKind::Http)
    }

    /// An S3 configuration with the given region, profile and endpoint.
    pub fn s3(region: Option<String>, profile: Option<String>, endpoint_url: Option<String>) -> (r:
        BackendConfig)
        ensures
            r == (BackendConfig { region, profile, endpoint_url, ..blank_config(BackendKind::S3) }),
    {
        BackendConfig { region, profile, endpoint_url, ..BackendConfig::of_kind(BackendKind::S3) }
    }

    /// A GCS configuration billing `project`, if given.
    pub fn gcs(project: Option<String>) -> (r: BackendConfig)
        ensures
            r == (BackendConfig { project, ..blank_config(BackendKind::Gcs) }),
    {
        BackendConfig { project, ..BackendConfig::of_kind(BackendKind::Gcs) }
    }

    /// An Azure configuration for `account`, with its key if given.
    pub fn azure(account: String, key: Option<String>) -> (r: BackendConfig)
        ensures
            r == (BackendConfig { account: Some(account), key, ..blank_config(BackendKind::Azure) }),
    {
        BackendConfig { account: Some(account), key, ..BackendConfig::of_kind(BackendKind::Azure) }
    }

    /// This configuration, anonymous or not.
    pub fn with_anonymous(self, anonymous: bool) -> (r: BackendConfig)
        ensures
            r == (BackendConfig { anonymous, ..self }),
    {
        BackendConfig { anonymous, ..self }
    }

    /// This configuration, requester-pays or not.
    pub fn with_requester_pays(self, requester_pays: bool) -> (r: BackendConfig)
        ensures
            r == (BackendConfig { requester_pays, ..self }),
    {
        BackendConfig { requester_pays, ..self }
    }
}

/// How an S3 client is built: region and endpoint overrides, the profile
/// whose credentials sign its requests, and whether it signs at all. An
/// anonymous client sends unsigned requests and reads no profile.
pub struct S3ClientSettings {
    pub region: Option<String>,
    pub profile: Option<String>,
    pub endpoint_url: Option<String>,
    pub signed: bool,
}

impl BackendConfig {
    /// The settings of the S3 client for this configuration.
    pub fn s3_client_settings(&self) -> (r: S3ClientSettings)
        ensures
            opt_view(r.region) == opt_view(self.region),
            opt_view(r.endpoint_url) == opt_view(self.endpoint_url),
            r.signed == !self.anonymous,
            opt_view(r.profile) == if self.anonymous {
                None
            } else {
                opt_view(self.profile)
            },
    {
        S3ClientSettings {
            region: copy_text(&self.region),
            profile: if self.anonymous {
                None
            } else {
                copy_text(&self.profile)
            },
            endpoint_url: copy_text(&self.endpoint_url),
            signed: !self.anonymous,
        }
    }

    /// Whether a GCS batch of this configuration fetches a token: only when
    /// it is not anonymous.
    pub fn needs_token(&self) -> (r: bool)
        ensures
            r == !self.anonymous,
    {
        !self.anonymous
    }
}

} // verus!
