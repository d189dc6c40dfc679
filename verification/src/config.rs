//! The settings that the service runs on.

use vstd::prelude::*;

verus! {

/// The port on which the listener takes calls, on every interface.
pub const LISTEN_PORT: u16 = 8000;

/// A setting that the service cannot start without.
#[derive(Clone, Copy, Debug, PartialEq, Eq, Structural)]
pub enum Setting {
    ApiKey,
    ApiSecret,
    PublicBaseUrl,
}

/// The name of the environment variable that holds `setting`.
pub open spec fn variable_of(setting: Setting) -> Seq<char> {
    match setting {
        Setting::ApiKey => "API_KEY"@,
        Setting::ApiSecret => "API_SECRET"@,
        Setting::PublicBaseUrl => "PUBLIC_BASE_URL"@,
    }
}

impl Setting {
    /// The name of the environment variable that holds this setting.
    pub fn variable(self) -> (r: &'static str)
        ensures
            r@ == variable_of(self),
    {
        match self {
            Setting::ApiKey => "API_KEY",
            Setting::ApiSecret => "API_SECRET",
            Setting::PublicBaseUrl => "PUBLIC_BASE_URL",
        }
    }
}

/// The service is not set up to run.
#[derive(Clone, Copy, Debug, PartialEq, Eq, Structural)]
pub enum ConfigError {
    /// The setting is absent or empty.
    Missing(Setting),
    /// The provider does not offer the kind of event that the desired
    /// binding at this place asks for.
    UnknownEventKind { binding: usize },
}

/// The long-lived secrets that are traded for a token. Neither is empty.
/// They cannot be printed.
pub struct Credentials {
    api_key: String,
    api_secret: String,
}

pub struct CredentialsView {
    pub api_key: Seq<char>,
    pub api_secret: Seq<char>,
}

impl View for Credentials {
    type V = CredentialsView;

    closed spec fn view(&self) -> CredentialsView {
        CredentialsView { api_key: self.api_key@, api_secret: self.api_secret@ }
    }
}

/// The credentials made of `api_key` and `api_secret`, or which of the two
/// is missing: the key is looked at first.
pub open spec fn checked(api_key: Seq<char>, api_secret: Seq<char>) -> Result<
    CredentialsView,
    ConfigError,
> {
    if api_key.len() == 0 {
        Err(ConfigError::Missing(Setting::ApiKey))
    } else if api_secret.len() == 0 {
        Err(ConfigError::Missing(Setting::ApiSecret))
    } else {
        Ok(CredentialsView { api_key, api_secret })
    }
}

/// The view of credentials or of the reason why there are none.
pub open spec fn credentials_view(r: Result<Credentials, ConfigError>) -> Result<
    CredentialsView,
    ConfigError,
> {
    match r {
        Ok(credentials) => Ok(credentials@),
        Err(e) => Err(e),
    }
}

impl Credentials {
    #[verifier::type_invariant]
    spec fn filled(self) -> bool {
        self.api_key@.len() > 0 && self.api_secret@.len() > 0
    }

    /// Credentials made of `api_key` and `api_secret`, neither of which may
    /// be empty.
    pub fn new(api_key: String, api_secret: String) -> (r: Result<Credentials, ConfigError>)
        ensures
            credentials_view(r) == checked(api_key@, api_secret@),
    {
        if api_key.as_str().is_empty() {
            Err(ConfigError::Missing(Setting::ApiKey))
        } else if api_secret.as_str().is_empty() {
            Err(ConfigError::Missing(Setting::ApiSecret))
        } else {
            Ok(Credentials { api_key, api_secret })
        }
    }

    /// The key.
    pub fn api_key(&self) -> (r: &str)
        ensures
            r@ == self@.api_key,
            r@.len() > 0,
    {
        proof {
            use_type_invariant(self);
        }
        self.api_key.as_str()
    }

    /// The secret.
    pub fn api_secret(&self) -> (r: &str)
        ensures
            r@ == self@.api_secret,
            r@.len() > 0,
    {
        proof {
            use_type_invariant(self);
        }
        self.api_secret.as_str()
    }
}

/// The settings of a service that can start. None of them is empty.
pub struct Config {
    credentials: Credentials,
    public_base_url: String,
}

pub struct ConfigView {
    pub credentials: CredentialsView,
    pub public_base_url: Seq<char>,
}

impl View for Config {
    type V = ConfigView;

    closed spec fn view(&self) -> ConfigView {
        ConfigView { credentials: self.credentials@, public_base_url: self.public_base_url@ }
    }
}

/// The text of a setting, where an absent one counts as empty.
pub open spec fn text_of(setting: Option<String>) -> Seq<char> {
    match setting {
        Some(s) => s@,
        None => Seq::empty(),
    }
}

/// What loading the settings comes to. The public address is looked at
/// first, then the key, then the secret; the first that is absent or empty
/// is the one reported.
pub open spec fn loaded(
    api_key: Option<String>,
    api_secret: Option<String>,
    public_base_url: Option<String>,
) -> Result<ConfigView, ConfigError> {
    if text_of(public_base_url).len() == 0 {
        Err(ConfigError::Missing(Setting::PublicBaseUrl))
    } else {
        match checked(text_of(api_key), text_of(api_secret)) {
            Ok(credentials) => Ok(
                ConfigView { credentials, public_base_url: text_of(public_base_url) },
            ),
            Err(e) => Err(e),
        }
    }
}

/// The view of settings or of the reason why there are none.
pub open spec fn config_view(r: Result<Config, ConfigError>) -> Result<ConfigView, ConfigError> {
    match r {
        Ok(config) => Ok(config@),
        Err(e) => Err(e),
    }
}

fn or_empty(setting: Option<String>) -> (r: String)
    ensures
        r@ == text_of(setting),
{
    match setting {
        Some(s) => s,
        None => String::new(),
    }
}

impl Config {
    #[verifier::type_invariant]
    spec fn reachable(self) -> bool {
        self.public_base_url@.len() > 0
    }

    /// Checks the settings that the environment holds, each `None` where
    /// its variable is not set.
    pub fn load(
        api_key: Option<String>,
        api_secret: Option<String>,
        public_base_url: Option<String>,
    ) -> (r: Result<Config, ConfigError>)
        ensures
            config_view(r) == loaded(api_key, api_secret, public_base_url),
    {
        let public_base_url = or_empty(public_base_url);
        if public_base_url.as_str().is_empty() {
            return Err(ConfigError::Missing(Setting::PublicBaseUrl));
        }
        match Credentials::new(or_empty(api_key), or_empty(api_secret)) {
            Ok(credentials) => Ok(Config { credentials, public_base_url }),
            Err(e) => Err(e),
        }
    }

    /// The secrets to sign in with.
    pub fn credentials(&self) -> (r: &Credentials)
        ensures
            r@ == self@.credentials,
    {
        &self.credentials
    }

    /// The address under which the world reaches this service.
    pub fn public_base_url(&self) -> (r: &str)
        ensures
            r@ == self@.public_base_url,
            r@.len() > 0,
    {
        proof {
            use_type_invariant(self);
        }
        self.public_base_url.as_str()
    }
}

} // verus!
