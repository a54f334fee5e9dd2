//! The persisted identity and endpoint configuration. Reading and writing
//! the file live with the caller; this module owns the values: the default
//! record a fresh install gets, and the one write-back of the access token
//! after a successful signup.

use vstd::prelude::*;

verus! {

#[derive(Clone, Debug)]
pub struct Config {
    pub access_token: String,
    pub backend_hostname: String,
    pub uuid: String,
}

/// The backend a fresh configuration points at.
pub open spec fn default_backend() -> Seq<char> {
    "xbackend.otiskujawa.net"@
}

/// Manages the persisted configuration record for the reporter.
#[derive(Clone, Debug)]
pub struct ConfigManager {
    pub config: Config,
}

impl ConfigManager {
    /// Wraps an already-loaded configuration.
    pub fn new(config: Config) -> (r: ConfigManager)
        ensures
            r.config == config,
    {
        ConfigManager { config }
    }

    /// Records the access token obtained from a successful signup; nothing
    /// else in the configuration changes. The caller persists the record.
    pub fn save_access_token(&mut self, access_token: &str)
        ensures
            final(self).config.access_token@ == access_token@,
            final(self).config.backend_hostname == old(self).config.backend_hostname,
            final(self).config.uuid == old(self).config.uuid,
    {
        self.config.access_token = access_token.to_owned();
    }

    /// A fresh machine identifier in the canonical hyphenated text form.
    ///
    /// Relies on `uuid::Uuid::new_v4` and its `Display` impl: the hyphenated
    /// form of a UUID is always exactly 36 characters of ASCII hex digits
    /// and hyphens. The value is random; nothing more is promised of it.
    #[verifier::external_body]
    pub fn create_uuid() -> (r: String)
        ensures
            r@.len() == 36,
    {
        uuid::Uuid::new_v4().to_string()
    }

    /// Repairs a loaded configuration record: an empty machine identifier
    /// is replaced with the given fresh one, an empty backend hostname with
    /// the default, and everything else is kept as it was read.
    pub fn normalize_config(config: Config, fresh_uuid: String) -> (r: Config)
        ensures
            r.access_token == config.access_token,
            config.uuid@.len() == 0 ==> r.uuid == fresh_uuid,
            config.uuid@.len() > 0 ==> r.uuid == config.uuid,
            config.backend_hostname@.len() == 0 ==> r.backend_hostname@ == default_backend(),
            config.backend_hostname@.len() > 0 ==> r.backend_hostname
                == config.backend_hostname,
    {
        let Config { access_token, backend_hostname, uuid } = config;
        Config {
            access_token,
            backend_hostname: if backend_hostname.as_str().unicode_len() == 0 {
                String::from_str("xbackend.otiskujawa.net")
            } else {
                backend_hostname
            },
            uuid: if uuid.as_str().unicode_len() == 0 {
                fresh_uuid
            } else {
                uuid
            },
        }
    }

    /// A new configuration record: no access token yet, the default backend,
    /// and a freshly drawn machine identifier.
    pub fn create_config() -> (r: Config)
        ensures
            r.access_token@.len() == 0,
            r.backend_hostname@ == default_backend(),
            r.uuid@.len() == 36,
    {
        Config {
            access_token: String::new(),
            backend_hostname: String::from_str("xbackend.otiskujawa.net"),
            uuid: ConfigManager::create_uuid(),
        }
    }
}

} // verus!
